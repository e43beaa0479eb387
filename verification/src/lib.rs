use vstd::prelude::*;

pub mod text;
pub mod json;
pub mod errors;
pub mod music;
pub mod tokens;
pub mod email;
pub mod users;
pub mod friends;
pub mod rooms;
pub mod live;
pub mod auth;
pub mod queue;
pub mod session;

verus! {
}
