//! Record types that share a common prefix of fields, and a verified
//! description of how such records are composed from a base field set.
pub mod compose;
pub mod records;
pub mod render;

pub use compose::{generate, BaseSet, ComposeError, Declaration, FieldDecl, Request, Visibility};
pub use records::{
    message_base, user_base, Message, MessageCreateRequest, MessageUpdateRequest, Profile, User,
};
