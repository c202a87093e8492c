use vstd::prelude::*;
use vstd::string::*;

verus! {

/// The text that names the session cookie in a `Cookie` or `Set-Cookie` value.
pub open spec fn mam_id_prefix() -> Seq<char> {
    seq!['m', 'a', 'm', '_', 'i', 'd', '=']
}

/// Index of the first `;` at or after `i`, or the length when there is none.
pub open spec fn semicolon_from(text: Seq<char>, i: int) -> int
    decreases text.len() - i,
{
    if i >= text.len() {
        text.len() as int
    } else if text[i] == ';' {
        i
    } else {
        semicolon_from(text, i + 1)
    }
}

/// The first `;`-separated segment of a header value: its `name=value` pair.
pub open spec fn first_segment(text: Seq<char>) -> Seq<char> {
    text.take(semicolon_from(text, 0))
}

/// The session cookie a single `Set-Cookie` value carries, if its first
/// segment is `mam_id=<value>`.
pub open spec fn mam_id_of(text: Seq<char>) -> Option<Seq<char>> {
    let seg = first_segment(text);
    if seg.len() >= mam_id_prefix().len() && seg.take(mam_id_prefix().len() as int)
        == mam_id_prefix() {
        Some(seg.skip(mam_id_prefix().len() as int))
    } else {
        None
    }
}

/// The session cookie carried by the first readable `Set-Cookie` value that
/// carries one. Unreadable values (not visible ASCII) are `None` and skipped.
pub open spec fn first_mam_id(values: Seq<Option<String>>) -> Option<Seq<char>>
    decreases values.len(),
{
    if values.len() == 0 {
        None
    } else {
        match values[0] {
            Some(text) if mam_id_of(text@) is Some => mam_id_of(text@),
            _ => first_mam_id(values.drop_first()),
        }
    }
}

/// The character sequence of an optional string.
pub open spec fn opt_chars(s: Option<String>) -> Option<Seq<char>> {
    match s {
        Some(t) => Some(t@),
        None => None,
    }
}

/// The `Cookie` header value that presents `cookie` as the session cookie.
pub open spec fn cookie_header_spec(cookie: Seq<char>) -> Seq<char> {
    mam_id_prefix() + cookie
}

/// Builds the `Cookie` header value `mam_id=<cookie>`.
pub fn cookie_header(cookie: &str) -> (h: String)
    ensures
        h@ == cookie_header_spec(cookie@),
{
    proof {
        reveal_strlit("mam_id=");
    }
    let mut h = String::from_str("mam_id=");
    h.append(cookie);
    h
}

/// Reads the session cookie out of one `Set-Cookie` value.
pub fn mam_id_from_value(text: &str) -> (r: Option<String>)
    ensures
        opt_chars(r) == mam_id_of(text@),
{
    proof {
        reveal_strlit("mam_id=");
    }
    let prefix = "mam_id=";
    let prefix_len = prefix.unicode_len();
    let n = text.unicode_len();
    let mut end: usize = 0;
    while end < n && text.get_char(end) != ';'
        invariant
            n == text@.len(),
            end <= n,
            semicolon_from(text@, end as int) == semicolon_from(text@, 0),
        decreases n - end,
    {
        end = end + 1;
    }
    assert(semicolon_from(text@, end as int) == end);
    let ghost seg = first_segment(text@);
    assert(seg =~= text@.take(end as int));
    if end < prefix_len {
        return None;
    }
    let mut i: usize = 0;
    while i < prefix_len
        invariant
            prefix@ == mam_id_prefix(),
            prefix_len == prefix@.len(),
            n == text@.len(),
            prefix_len <= end <= n,
            seg =~= text@.take(end as int),
            seg == first_segment(text@),
            i <= prefix_len,
            forall|k: int| 0 <= k < i ==> text@[k] == prefix@[k],
        decreases prefix_len - i,
    {
        if text.get_char(i) != prefix.get_char(i) {
            assert(seg.take(prefix_len as int)[i as int] == text@[i as int]);
            assert(seg.take(prefix_len as int)[i as int] != mam_id_prefix()[i as int]);
            assert(seg.take(prefix_len as int) != mam_id_prefix());
            return None;
        }
        i = i + 1;
    }
    assert(seg.take(prefix_len as int) =~= mam_id_prefix());
    let rest = text.substring_char(prefix_len, end);
    assert(rest@ =~= seg.skip(prefix_len as int));
    Some(String::from_str(rest))
}

/// Reads a rotated session cookie out of the `Set-Cookie` values of a
/// response, in the order they were received. An entry is `None` when its
/// value is not readable text.
pub fn extract_mam_id(values: &Vec<Option<String>>) -> (r: Option<String>)
    ensures
        opt_chars(r) == first_mam_id(values@),
{
    let n = values.len();
    let mut i: usize = 0;
    assert(values@.skip(0) =~= values@);
    while i < n
        invariant
            n == values@.len(),
            i <= n,
            first_mam_id(values@) == first_mam_id(values@.skip(i as int)),
        decreases n - i,
    {
        assert(values@.skip(i as int).drop_first() =~= values@.skip(i + 1));
        match &values[i] {
            Some(text) => {
                let found = mam_id_from_value(text.as_str());
                if found.is_some() {
                    return found;
                }
            },
            None => {},
        }
        i = i + 1;
    }
    assert(values@.skip(n as int) =~= Seq::<Option<String>>::empty());
    None
}


/// Scanning for `;` passes over a stretch that holds none.
proof fn lemma_semicolon_scan(text: Seq<char>, i: int, j: int)
    requires
        0 <= i <= j <= text.len(),
        forall|k: int| i <= k < j ==> text[k] != ';',
    ensures
        semicolon_from(text, i) == semicolon_from(text, j),
    decreases j - i,
{
    if i < j {
        lemma_semicolon_scan(text, i + 1, j);
    }
}

/// A cookie without `;`, presented as `mam_id=<cookie>` and followed by
/// nothing or by `;`-separated attributes, reads back as the same cookie.
pub proof fn lemma_cookie_header_reads_back(cookie: Seq<char>, attributes: Seq<char>)
    requires
        forall|k: int| 0 <= k < cookie.len() ==> cookie[k] != ';',
        attributes.len() == 0 || attributes[0] == ';',
    ensures
        mam_id_of(cookie_header_spec(cookie) + attributes) == Some(cookie),
{
    let text = cookie_header_spec(cookie) + attributes;
    let end: int = (mam_id_prefix().len() + cookie.len()) as int;
    assert forall|k: int| 0 <= k < end implies text[k] != ';' by {
        if k >= mam_id_prefix().len() {
            assert(text[k] == cookie[k - mam_id_prefix().len()]);
        }
    }
    lemma_semicolon_scan(text, 0, end);
    assert(semicolon_from(text, end) == end);
    let seg = first_segment(text);
    assert(seg =~= cookie_header_spec(cookie));
    assert(seg.take(mam_id_prefix().len() as int) =~= mam_id_prefix());
    assert(seg.skip(mam_id_prefix().len() as int) =~= cookie);
}

} // verus!
