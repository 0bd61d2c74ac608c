use vstd::prelude::*;

verus! {

/// Bytes of the tag that marks an account as holding a post.
pub const DISCRIMINATOR_LENGTH: usize = 8;

/// Bytes of the author's public key.
pub const PUBLIC_KEY_LENGTH: usize = 32;

/// Bytes of the creation timestamp.
pub const TIMESTAMP_LENGTH: usize = 8;

/// Bytes of the length prefix stored before each string.
pub const STRING_LENGTH_PREFIX: usize = 4;

/// Worst-case bytes of a topic: fifty scalar values of four UTF-8 bytes each.
pub const MAX_TOPIC_LENGTH: usize = 50 * 4;

/// Worst-case bytes of a content: fifty scalar values of four UTF-8 bytes each.
pub const MAX_CONTENT_LENGTH: usize = 50 * 4;

/// Total bytes reserved for one post: tag, author, timestamp and both strings
/// at their largest.
pub const POST_LEN: usize = DISCRIMINATOR_LENGTH + PUBLIC_KEY_LENGTH + TIMESTAMP_LENGTH
    + STRING_LENGTH_PREFIX + MAX_TOPIC_LENGTH + STRING_LENGTH_PREFIX + MAX_CONTENT_LENGTH;

/// The storage footprint of a post, as a sum of its fields' worst-case sizes.
pub open spec fn spec_post_space() -> nat {
    8 + 32 + 8 + (4 + 50 * 4) + (4 + 50 * 4)
}

/// The number of bytes to reserve for a post; it does not depend on what the
/// post holds.
pub fn post_space() -> (r: usize)
    ensures
        r == spec_post_space(),
        r == 456,
{
    POST_LEN
}

} // verus!
