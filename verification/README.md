# backend

The HTTP backend of a security-awareness survey: participants sign up with
an e-mail address, receive an invitation with a personal token, and their
visits to tracking endpoints are recorded; an optional worker asks a breach
service whether their address appears in known leaks.

- `src/` is the library, written in Verus: token generation and hashing,
  the token check of authenticated requests, the sign-up decisions and the
  invitation mail, template rendering, the breach-check worker with its
  back-off and request URL, header collection, TLS client-hello records,
  reading the server's PEM certificate and key, and the small text routines
  they rest on. Calls into `sha2`, `base64`, `rand`, `uuid`,
  `email_address`, `rustls`, `rustls-pemfile`, `rcgen` and `reqwest`'s URL
  type go through wrappers whose contracts are stated next to them.
- `app/` is the server around it: configuration, the HTTP routes, the
  database, SMTP, the TLS listener and the HTTP clients.
- `tests/` exercises the library on concrete values.
