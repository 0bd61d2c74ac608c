use vstd::prelude::*;

use crate::guard::{authorization, authorize, validate, validation};
use crate::layout::{post_space, POST_LEN};
use crate::post::{ErrorCode, Post, Pubkey};

verus! {

/// A principal that approved the current operation, with the lamports it holds.
#[derive(Clone, Copy, Debug)]
pub struct Signer {
    pub key: Pubkey,
    pub lamports: u64,
}

/// The storage slot of one post: the post it holds, if any, the bytes
/// reserved for it and the lamports paid for that reservation.
pub struct PostAccount {
    pub data: Option<Post>,
    pub space: usize,
    pub lamports: u64,
}

impl PostAccount {
    /// An empty slot reserves nothing; a full one reserves exactly the
    /// footprint of a post and holds a post within the length bounds.
    pub open spec fn wf(&self) -> bool {
        match self.data {
            None => self.space == 0 && self.lamports == 0,
            Some(p) => self.space == POST_LEN && p.wf(),
        }
    }

    /// A slot that holds no post.
    pub fn empty() -> (r: PostAccount)
        ensures
            r.data is None,
            r.space == 0,
            r.lamports == 0,
            r.wf(),
    {
        PostAccount { data: None, space: 0, lamports: 0 }
    }

    /// Whether a post is stored in the slot.
    pub fn is_active(&self) -> (r: bool)
        ensures
            r == self.data is Some,
    {
        self.data.is_some()
    }
}

/// The slot for a new post and the author who creates and pays for it.
pub struct SendPost {
    pub post: PostAccount,
    pub author: Signer,
}

/// A stored post and the principal asking to change it.
pub struct UpdatePost {
    pub post: PostAccount,
    pub author: Signer,
}

/// A stored post and the principal asking to remove it.
pub struct DeletePost {
    pub post: PostAccount,
    pub author: Signer,
}

/// What creating a post returns: validation first, then the reservation,
/// which fails when the slot is taken or the author holds less than `rent`.
pub open spec fn send_post_outcome(
    ctx: SendPost,
    topic: Seq<char>,
    content: Seq<char>,
    rent: u64,
) -> Result<(), ErrorCode> {
    match validation(topic, content) {
        Err(e) => Err(e),
        Ok(_) => if ctx.post.data is Some || ctx.author.lamports < rent {
            Err(ErrorCode::AllocationFailure)
        } else {
            Ok(())
        },
    }
}

/// The accounts after a successful creation: the author has paid `rent`
/// into the slot, which now holds the new post stamped with `now`.
pub open spec fn created(
    ctx: SendPost,
    topic: String,
    content: String,
    now: i64,
    rent: u64,
) -> SendPost {
    SendPost {
        post: PostAccount {
            data: Some(
                Post { author: ctx.author.key, timestamp: now, topic: topic, content: content },
            ),
            space: POST_LEN,
            lamports: rent,
        },
        author: Signer { key: ctx.author.key, lamports: (ctx.author.lamports - rent) as u64 },
    }
}

/// What updating a post returns: the post must exist, the signer must be
/// its author, and the new text must pass validation, in that order.
pub open spec fn update_post_outcome(
    ctx: UpdatePost,
    topic: Seq<char>,
    content: Seq<char>,
) -> Result<(), ErrorCode> {
    match ctx.post.data {
        None => Err(ErrorCode::PostNotFound),
        Some(p) => match authorization(p.author@, ctx.author.key@) {
            Err(e) => Err(e),
            Ok(_) => validation(topic, content),
        },
    }
}

/// The accounts after a successful update: topic and content replaced,
/// author, timestamp and reservation kept.
pub open spec fn updated(ctx: UpdatePost, topic: String, content: String) -> UpdatePost {
    UpdatePost {
        post: PostAccount {
            data: Some(
                Post {
                    author: ctx.post.data->0.author,
                    timestamp: ctx.post.data->0.timestamp,
                    topic: topic,
                    content: content,
                },
            ),
            space: ctx.post.space,
            lamports: ctx.post.lamports,
        },
        author: ctx.author,
    }
}

/// What deleting a post returns: the post must exist and the signer must be
/// its author.
pub open spec fn delete_post_outcome(ctx: DeletePost) -> Result<(), ErrorCode> {
    match ctx.post.data {
        None => Err(ErrorCode::PostNotFound),
        Some(p) => authorization(p.author@, ctx.author.key@),
    }
}

/// The accounts after a successful deletion: the slot is empty and every
/// lamport it held has gone back to the author.
pub open spec fn deleted(ctx: DeletePost) -> DeletePost {
    DeletePost {
        post: PostAccount { data: None, space: 0, lamports: 0 },
        author: Signer {
            key: ctx.author.key,
            lamports: (ctx.author.lamports + ctx.post.lamports) as u64,
        },
    }
}

/// The accounts after creating a post: `created` on success, unchanged on
/// any error.
pub open spec fn after_send_post(
    ctx: SendPost,
    topic: String,
    content: String,
    now: i64,
    rent: u64,
) -> SendPost {
    if send_post_outcome(ctx, topic@, content@, rent) is Ok {
        created(ctx, topic, content, now, rent)
    } else {
        ctx
    }
}

/// The accounts after updating a post: `updated` on success, unchanged on
/// any error.
pub open spec fn after_update_post(ctx: UpdatePost, topic: String, content: String) -> UpdatePost {
    if update_post_outcome(ctx, topic@, content@) is Ok {
        updated(ctx, topic, content)
    } else {
        ctx
    }
}

/// The accounts after deleting a post: `deleted` on success, unchanged on
/// any error.
pub open spec fn after_delete_post(ctx: DeletePost) -> DeletePost {
    if delete_post_outcome(ctx) is Ok {
        deleted(ctx)
    } else {
        ctx
    }
}

/// Creates a post in an empty slot, charging `rent` to the author for its
/// fixed-size storage and stamping it with `now`. On any error nothing
/// changes.
pub fn send_post(
    ctx: &mut SendPost,
    topic: String,
    content: String,
    now: i64,
    rent: u64,
) -> (r: Result<(), ErrorCode>)
    ensures
        r == send_post_outcome(*old(ctx), topic@, content@, rent),
        *final(ctx) == after_send_post(*old(ctx), topic, content, now, rent),
{
    match validate(&topic, &content) {
        Err(e) => {
            return Err(e);
        },
        Ok(_) => {},
    }
    if ctx.post.data.is_some() || ctx.author.lamports < rent {
        return Err(ErrorCode::AllocationFailure);
    }
    let author = ctx.author.key;
    ctx.author.lamports = ctx.author.lamports - rent;
    ctx.post.lamports = rent;
    ctx.post.space = post_space();
    ctx.post.data = Some(Post { author, timestamp: now, topic, content });
    Ok(())
}

/// Replaces the topic and content of a stored post, if the signer is its
/// author and the new text is within bounds. On any error nothing changes.
pub fn update_post(
    ctx: &mut UpdatePost,
    topic: String,
    content: String,
) -> (r: Result<(), ErrorCode>)
    ensures
        r == update_post_outcome(*old(ctx), topic@, content@),
        *final(ctx) == after_update_post(*old(ctx), topic, content),
{
    let (author, timestamp) = match &ctx.post.data {
        None => {
            return Err(ErrorCode::PostNotFound);
        },
        Some(p) => (p.author, p.timestamp),
    };
    match authorize(&author, &ctx.author.key) {
        Err(e) => {
            return Err(e);
        },
        Ok(_) => {},
    }
    match validate(&topic, &content) {
        Err(e) => {
            return Err(e);
        },
        Ok(_) => {},
    }
    ctx.post.data = Some(Post { author, timestamp, topic, content });
    Ok(())
}

/// Removes a stored post, if the signer is its author, and returns the
/// lamports held by its slot to the author. On any error nothing changes.
pub fn delete_post(ctx: &mut DeletePost) -> (r: Result<(), ErrorCode>)
    requires
        old(ctx).author.lamports + old(ctx).post.lamports <= u64::MAX,
    ensures
        r == delete_post_outcome(*old(ctx)),
        *final(ctx) == after_delete_post(*old(ctx)),
{
    let author = match &ctx.post.data {
        None => {
            return Err(ErrorCode::PostNotFound);
        },
        Some(p) => p.author,
    };
    match authorize(&author, &ctx.author.key) {
        Err(e) => {
            return Err(e);
        },
        Ok(_) => {},
    }
    ctx.author.lamports = ctx.author.lamports + ctx.post.lamports;
    ctx.post.lamports = 0;
    ctx.post.space = 0;
    ctx.post.data = None;
    Ok(())
}

} // verus!
