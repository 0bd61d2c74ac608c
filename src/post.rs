use vstd::prelude::*;

verus! {

/// Largest number of Unicode scalar values in a topic or a content.
pub const MAX_CHARS: usize = 50;

/// A 32-byte public key identifying a principal.
#[derive(Clone, Copy, Debug)]
pub struct Pubkey {
    pub bytes: [u8; 32],
}

impl Pubkey {
    pub fn new(bytes: [u8; 32]) -> (r: Pubkey)
        ensures
            r.bytes@ == bytes@,
    {
        Pubkey { bytes }
    }

    pub fn to_bytes(&self) -> (r: [u8; 32])
        ensures
            r@ == self.bytes@,
    {
        self.bytes
    }
}

impl View for Pubkey {
    type V = Seq<u8>;

    open spec fn view(&self) -> Seq<u8> {
        self.bytes@
    }
}

impl PartialEq for Pubkey {
    fn eq(&self, o: &Pubkey) -> (r: bool)
        ensures
            r == (self@ == o@),
    {
        let mut i: usize = 0;
        while i < 32
            invariant
                0 <= i <= 32,
                self@.len() == 32,
                o@.len() == 32,
                self@.subrange(0, i as int) == o@.subrange(0, i as int),
            decreases 32 - i,
        {
            if self.bytes[i] != o.bytes[i] {
                assert(self@[i as int] != o@[i as int]);
                return false;
            }
            assert(self@.subrange(0, i + 1) == self@.subrange(0, i as int).push(self@[i as int]));
            assert(o@.subrange(0, i + 1) == o@.subrange(0, i as int).push(o@[i as int]));
            i = i + 1;
        }
        assert(self@ == self@.subrange(0, 32));
        assert(o@ == o@.subrange(0, 32));
        true
    }
}

impl vstd::std_specs::cmp::PartialEqSpecImpl for Pubkey {
    open spec fn obeys_eq_spec() -> bool {
        true
    }

    open spec fn eq_spec(&self, o: &Pubkey) -> bool {
        self@ == o@
    }
}

/// A stored post: who wrote it, when, and its two text fields.
pub struct Post {
    pub author: Pubkey,
    pub timestamp: i64,
    pub topic: String,
    pub content: String,
}

impl Post {
    /// Both text fields are within the length bound.
    pub open spec fn wf(&self) -> bool {
        &&& self.topic@.len() <= MAX_CHARS
        &&& self.content@.len() <= MAX_CHARS
    }
}

/// Why an operation on a post was refused.
#[derive(Clone, Copy, Debug, PartialEq, Eq, Structural)]
pub enum ErrorCode {
    /// The topic has more than fifty scalar values.
    TopicTooLong,
    /// The content has more than fifty scalar values.
    ContentTooLong,
    /// The signer is not the post's author.
    AuthorizationFailure,
    /// Storage for a new post could not be reserved: the slot is taken or
    /// the author cannot pay for it.
    AllocationFailure,
    /// No post is stored in the slot.
    PostNotFound,
}

impl ErrorCode {
    /// The text shown to a user for each error.
    pub open spec fn spec_message(self) -> Seq<char> {
        match self {
            ErrorCode::TopicTooLong => "The provided caption should be 50 characters long maximum."@,
            ErrorCode::ContentTooLong => "The provided content should be 50 characters long maximum."@,
            ErrorCode::AuthorizationFailure => "The signer is not the author of this post."@,
            ErrorCode::AllocationFailure => "Storage for the post could not be reserved."@,
            ErrorCode::PostNotFound => "No post is stored here."@,
        }
    }

    /// The message shown to a user for this error.
    pub fn message(&self) -> (r: String)
        ensures
            r@ == self.spec_message(),
    {
        match self {
            ErrorCode::TopicTooLong => String::from_str(
                "The provided caption should be 50 characters long maximum.",
            ),
            ErrorCode::ContentTooLong => String::from_str(
                "The provided content should be 50 characters long maximum.",
            ),
            ErrorCode::AuthorizationFailure => String::from_str(
                "The signer is not the author of this post.",
            ),
            ErrorCode::AllocationFailure => String::from_str(
                "Storage for the post could not be reserved.",
            ),
            ErrorCode::PostNotFound => String::from_str("No post is stored here."),
        }
    }
}

} // verus!
