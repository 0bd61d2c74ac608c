use vstd::prelude::*;
use vstd::string::*;

use crate::post::{ErrorCode, Pubkey, MAX_CHARS};

verus! {

/// The outcome of checking a proposed topic and content: the topic is
/// checked first, then the content.
pub open spec fn validation(topic: Seq<char>, content: Seq<char>) -> Result<(), ErrorCode> {
    if topic.len() > MAX_CHARS {
        Err(ErrorCode::TopicTooLong)
    } else if content.len() > MAX_CHARS {
        Err(ErrorCode::ContentTooLong)
    } else {
        Ok(())
    }
}

/// The outcome of checking that the acting principal is the expected one.
pub open spec fn authorization(expected: Seq<u8>, actual: Seq<u8>) -> Result<(), ErrorCode> {
    if expected == actual {
        Ok(())
    } else {
        Err(ErrorCode::AuthorizationFailure)
    }
}

/// Rejects a topic or a content of more than fifty Unicode scalar values
/// (not bytes).
pub fn validate(topic: &String, content: &String) -> (r: Result<(), ErrorCode>)
    ensures
        r == validation(topic@, content@),
{
    if topic.as_str().unicode_len() > MAX_CHARS {
        return Err(ErrorCode::TopicTooLong);
    }
    if content.as_str().unicode_len() > MAX_CHARS {
        return Err(ErrorCode::ContentTooLong);
    }
    Ok(())
}

/// Accepts only when the acting principal is the recorded author.
pub fn authorize(expected: &Pubkey, actual: &Pubkey) -> (r: Result<(), ErrorCode>)
    ensures
        r == authorization(expected@, actual@),
{
    if *expected == *actual {
        Ok(())
    } else {
        Err(ErrorCode::AuthorizationFailure)
    }
}

} // verus!
