# session_auth

Session identifiers and the decision logic of an authentication layer and two
tower middlewares (a response time limit and fault injection), verified with
Verus.

- `src/` is the verified library:
  - `encoding`: the unpadded URL-safe base64 form of bytes, as a spec, with
    the trusted calls into `base64` that produce and read it;
  - `little_endian`: integers as little-endian bytes, with the `i128`
    conversions proved against that statement;
  - `session`: session identifiers (`Id`) and their text form, session
    records and errors, with the laws that the text form reads back and is
    canonical;
  - `session_store`: the errors of a session store and their messages;
  - `backend`: the union of a user's permissions and the order of the
    lookups that gather them;
  - `service`: the authentication manager and its handling of requests
    without a session;
  - `timeout`: the decision of each poll of a time-limited response;
  - `chaos`: latency arithmetic and the decisions of the fault injector.
- `app/` holds what Verus does not take: the async traits, the tower
  `Service` and `Layer` impls, the futures, and copies of the library's types
  with the serde and error traits.
- `tests/` runs the library against the real outside crates.
