//! An authenticated store of short text posts: create, update and delete,
//! with per-field length bounds, author checks and fixed-size storage.
pub mod guard;
pub mod laws;
pub mod layout;
pub mod post;
pub mod store;

pub use guard::{authorize, validate};
pub use layout::{
    post_space, DISCRIMINATOR_LENGTH, MAX_CONTENT_LENGTH, MAX_TOPIC_LENGTH, POST_LEN,
    PUBLIC_KEY_LENGTH, STRING_LENGTH_PREFIX, TIMESTAMP_LENGTH,
};
pub use post::{ErrorCode, Post, Pubkey, MAX_CHARS};
pub use store::{
    delete_post, send_post, update_post, DeletePost, PostAccount, SendPost, Signer, UpdatePost,
};
