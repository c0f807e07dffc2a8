//! Verified core of the Yuban translation-exchange server: access tokens and
//! the cookie that carries them, password records, the rules that decide
//! request outcomes, and the text the server replies with.

pub mod decimal;
pub mod codec;
pub mod http;
pub mod random;
pub mod token;
pub mod login;
pub mod salted;
pub mod dates;
pub mod params;
pub mod replies;
pub mod permissions;
pub mod server;
pub mod store;
