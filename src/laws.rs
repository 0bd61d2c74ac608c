use vstd::prelude::*;

use crate::post::{ErrorCode, MAX_CHARS};
use crate::store::{
    after_delete_post, after_send_post, after_update_post, delete_post_outcome,
    send_post_outcome, update_post_outcome, DeletePost, SendPost, Signer, UpdatePost,
};

verus! {

/// Creating a post with a topic and a content of at most fifty scalar values
/// each, in an empty slot whose author can pay the rent, succeeds, and the
/// stored post holds exactly the given text, the author's key and `now`.
pub proof fn lemma_create_round_trip(
    ctx: SendPost,
    topic: String,
    content: String,
    now: i64,
    rent: u64,
)
    requires
        topic@.len() <= MAX_CHARS,
        content@.len() <= MAX_CHARS,
        ctx.post.data is None,
        ctx.author.lamports >= rent,
    ensures
        send_post_outcome(ctx, topic@, content@, rent) == Ok::<(), ErrorCode>(()),
        after_send_post(ctx, topic, content, now, rent).post.data is Some,
        after_send_post(ctx, topic, content, now, rent).post.data->0.topic@ == topic@,
        after_send_post(ctx, topic, content, now, rent).post.data->0.content@ == content@,
        after_send_post(ctx, topic, content, now, rent).post.data->0.author == ctx.author.key,
        after_send_post(ctx, topic, content, now, rent).post.data->0.timestamp == now,
{
}

/// A topic of more than fifty scalar values makes creation fail with
/// `TopicTooLong`, and so does an update by the post's author; both leave
/// the accounts as they were.
pub proof fn lemma_topic_too_long(
    send: SendPost,
    upd: UpdatePost,
    topic: String,
    content: String,
    now: i64,
    rent: u64,
)
    requires
        topic@.len() > MAX_CHARS,
        upd.post.data is Some,
        upd.post.data->0.author@ == upd.author.key@,
    ensures
        send_post_outcome(send, topic@, content@, rent) == Err::<(), ErrorCode>(
            ErrorCode::TopicTooLong,
        ),
        after_send_post(send, topic, content, now, rent) == send,
        update_post_outcome(upd, topic@, content@) == Err::<(), ErrorCode>(
            ErrorCode::TopicTooLong,
        ),
        after_update_post(upd, topic, content) == upd,
{
}

/// With a topic within bounds, a content of more than fifty scalar values
/// makes creation, and an update by the post's author, fail with
/// `ContentTooLong`; both leave the accounts as they were.
pub proof fn lemma_content_too_long(
    send: SendPost,
    upd: UpdatePost,
    topic: String,
    content: String,
    now: i64,
    rent: u64,
)
    requires
        topic@.len() <= MAX_CHARS,
        content@.len() > MAX_CHARS,
        upd.post.data is Some,
        upd.post.data->0.author@ == upd.author.key@,
    ensures
        send_post_outcome(send, topic@, content@, rent) == Err::<(), ErrorCode>(
            ErrorCode::ContentTooLong,
        ),
        after_send_post(send, topic, content, now, rent) == send,
        update_post_outcome(upd, topic@, content@) == Err::<(), ErrorCode>(
            ErrorCode::ContentTooLong,
        ),
        after_update_post(upd, topic, content) == upd,
{
}

/// An update of a stored post by anyone but its author fails with
/// `AuthorizationFailure`, whatever text it proposes, and changes nothing:
/// topic, content, author and timestamp stay as they were.
pub proof fn lemma_update_by_stranger(ctx: UpdatePost, topic: String, content: String)
    requires
        ctx.post.data is Some,
        ctx.post.data->0.author@ != ctx.author.key@,
    ensures
        update_post_outcome(ctx, topic@, content@) == Err::<(), ErrorCode>(
            ErrorCode::AuthorizationFailure,
        ),
        after_update_post(ctx, topic, content) == ctx,
{
}

/// A deletion of a stored post by anyone but its author fails with
/// `AuthorizationFailure`, and the post is still stored afterwards.
pub proof fn lemma_delete_by_stranger(ctx: DeletePost)
    requires
        ctx.post.data is Some,
        ctx.post.data->0.author@ != ctx.author.key@,
    ensures
        delete_post_outcome(ctx) == Err::<(), ErrorCode>(ErrorCode::AuthorizationFailure),
        after_delete_post(ctx) == ctx,
        after_delete_post(ctx).post.data is Some,
{
}

/// A deletion by the post's author succeeds and empties the slot; any later
/// update or deletion of that slot, by anyone, fails with `PostNotFound`.
pub proof fn lemma_delete_is_final(ctx: DeletePost, later: Signer, topic: String, content: String)
    requires
        ctx.post.data is Some,
        ctx.post.data->0.author@ == ctx.author.key@,
    ensures
        delete_post_outcome(ctx) == Ok::<(), ErrorCode>(()),
        after_delete_post(ctx).post.data is None,
        update_post_outcome(
            UpdatePost { post: after_delete_post(ctx).post, author: later },
            topic@,
            content@,
        ) == Err::<(), ErrorCode>(ErrorCode::PostNotFound),
        delete_post_outcome(DeletePost { post: after_delete_post(ctx).post, author: later })
            == Err::<(), ErrorCode>(ErrorCode::PostNotFound),
{
}

/// Every operation keeps a slot well formed (text within bounds, a full slot
/// reserving exactly the post footprint, an empty one reserving nothing),
/// and an update keeps the author and the timestamp.
pub proof fn lemma_operations_preserve_wf(
    send: SendPost,
    upd: UpdatePost,
    del: DeletePost,
    topic: String,
    content: String,
    now: i64,
    rent: u64,
)
    requires
        send.post.wf(),
        upd.post.wf(),
        del.post.wf(),
    ensures
        after_send_post(send, topic, content, now, rent).post.wf(),
        after_update_post(upd, topic, content).post.wf(),
        upd.post.data is Some ==> {
            &&& after_update_post(upd, topic, content).post.data->0.author
                == upd.post.data->0.author
            &&& after_update_post(upd, topic, content).post.data->0.timestamp
                == upd.post.data->0.timestamp
        },
        after_delete_post(del).post.wf(),
{
}

} // verus!
