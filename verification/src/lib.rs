//! Lark OAuth login for an admin console.
//!
//! A Lark/Feishu OAuth 2.0 authorization-code flow (PKCE) and a signed session
//! cookie. The OAuth client is one of the entries in the `[lark-apps]` registry,
//! bound via `[console] lark_app = "<name>"`.
//!
//! Bootstrapping: until a Lark app is bound the console is open, so a fresh
//! install can reach its own setup UI. Once bound, every `/api/*` request needs
//! a live session; a non-empty `[console] admins` list then restricts which Lark
//! accounts may sign in (empty means any tenant user).
//!
//! The handlers take what a request brought as plain values and answer with
//! plain values; [`jar`] makes the cookie changes. Reading requests, calling Lark
//! and spelling what a cookie carries is up to the server around them.

pub mod callback;
pub mod config;
pub mod document;
pub mod jar;
pub mod lark;
pub mod laws;
pub mod login;
pub mod reply;
pub mod session;
pub mod text;
pub mod token;
pub mod tree;

pub use callback::{callback, CallbackQuery};
pub use config::{resolve, OAuthConfig};
pub use login::login;
pub use reply::logout;
pub use session::{load_session_key, me, require_session, Me, MeUser};
