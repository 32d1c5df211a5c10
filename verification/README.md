# dx_auth

Login flows of a web application, verified with Verus.

Two flows share the code: one backed by the identity provider FerrisKey (passkey, password or a
code by mail), and a self-owned one (passkey or a code by mail, no provider and no password). An
endpoint is a chain of steps. A step is a value that names one piece of outside work, such as a
call to the provider, a lookup in a store or a mail, with everything that the work takes; `resume`
takes how it ended and gives the next step or the reply. What a step decides, and what it does to
the visitor's session, is stated in its contract and proved.

| path | what it holds |
|---|---|
| `src/handlers/session_auth.rs` | the provider-backed flow |
| `src/handlers/local_login.rs` | the self-owned flow |
| `src/handlers/otp.rs` | codes by mail, the resend throttle, the captcha |
| `src/handlers/registration.rs` | who may create an account |
| `src/handlers/opening.rs` | how a session becomes that of a logged-in user |
| `src/handlers/laws.rs` | what holds over any number of requests |
| `src/session.rs` | the login state in a visitor's session |
| `src/interop.rs`, `src/text.rs` | what comes from other crates and from std, with what is trusted of it |
| `src/config.rs`, `src/error.rs`, `src/state.rs`, `src/types.rs` | plain data |
| `app/` | the axum handlers, which run the steps against tower-sessions, reqwest and the application's stores |
