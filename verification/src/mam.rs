use vstd::prelude::*;

use crate::cookie::{extract_mam_id, first_mam_id, opt_chars};
use crate::models::{MamResponse, SeedboxResponse};
use crate::status::{is_success, is_success_status};
use crate::timestamp::Timestamp;

verus! {

/// Assembles the record of one dynamic-seedbox update from what the reply
/// held: its status, its `Set-Cookie` values (an entry is `None` when the
/// value is not readable text), and its parsed body. The body is kept only
/// for a success status; the rotated cookie is the first one the
/// `Set-Cookie` values carry.
pub fn build_mam_response(
    at: Timestamp,
    http_status: u16,
    cookie_sent: &str,
    set_cookie_values: &Vec<Option<String>>,
    body: Option<SeedboxResponse>,
) -> (r: MamResponse)
    ensures
        r.at == at,
        r.http_status == http_status,
        r.cookie_sent@ == cookie_sent@,
        opt_chars(r.cookie_received) == first_mam_id(set_cookie_values@),
        r.body == (if is_success(http_status) {
            body
        } else {
            None
        }),
{
    let cookie_received = extract_mam_id(set_cookie_values);
    let body = if is_success_status(http_status) {
        body
    } else {
        None
    };
    MamResponse { at, http_status, cookie_sent: cookie_sent.to_owned(), cookie_received, body }
}

} // verus!
