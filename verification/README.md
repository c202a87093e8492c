# mouser

Dynamic seedbox IP reporter for MyAnonaMouse: it periodically checks the
host's public IP and reports changes to the tracker's dynamic-seedbox API.

- `src/` is the library, verified with Verus: when a report is due and how
  each tick goes (`scheduler`: every tick with a cookie fetches the address,
  and a changed address or network is reported at once), how a rotated
  `mam_id` cookie is read from `Set-Cookie` values (`cookie`), the health
  verdict (`health`), configuration defaults (`config`), loading the state
  (`state`), and the model of instants (`timestamp`).
- `app/` is the program around it: environment configuration, the HTTP client,
  the HTTP API, the scheduler loop and the state file.
- `tests/` exercises the library on concrete values.
