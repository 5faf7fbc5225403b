# larkstack

Lark OAuth login for an admin console: an OAuth 2.0 authorization-code flow with
PKCE, and a signed session cookie. The library is written in Verus; every function
states what it returns, and what holds of the sign-in as a whole is proved.

## Layout

- `src/config.rs` resolves `[console]` and the `[lark-apps]` entry that it binds, and
  derives the scope and the callback address.
- `src/login.rs`, `src/callback.rs` start and finish the handshake. The callback is a
  sequence of steps: each says what to send to Lark and takes what came back.
- `src/lark.rs` makes the requests to Lark and reads the replies.
- `src/session.rs` decides who is signed in, and where the signing key comes from.
- `src/reply.rs` is what a handler answers: cookie changes and a response.
- `src/jar.rs` reads the signed cookies of a request and makes the changes.
- `src/token.rs` makes random tokens and PKCE challenges.
- `src/document.rs`, `src/tree.rs`, `src/text.rs` read TOML and JSON texts, and do the
  text work.
- `src/laws.rs` holds what is proved of all of it together.
- `app/` is the server side: axum handlers, HTTP calls, the JSON in cookies, the key file.
- `tests/` runs the library.

Calls into other crates stand behind small functions whose contracts are taken on
trust; each says above it what it claims. They are in `document.rs`, `jar.rs`,
`login.rs`, `session.rs`, `text.rs` and `token.rs`.
