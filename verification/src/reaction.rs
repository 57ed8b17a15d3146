//! The reaction counter: a peripheral, bounded counter on a parent post,
//! decremented with an underflow guard and an ownership check.
//!
//! A reaction records its author and its kind (like or dislike) against a
//! parent post that keeps one counter per kind. Removing a reaction is
//! permitted only to its author and decrements the matching counter by
//! exactly one; a counter already at zero refuses the removal, so it
//! never underflows. Once removal succeeds, the hosting environment
//! deletes the reaction record and returns any value reserved for its
//! storage to the author — this library only decides and decrements.

use vstd::prelude::*;
use crate::errors::ReactionError;
use crate::state::Identity;

verus! {

/// The kind of a reaction to a post.
#[derive(Clone, Copy, PartialEq, Eq, Structural, Debug)]
pub enum ReactionType {
    Like,
    Dislike,
}

/// A post with its reaction counters.
#[derive(Clone, Copy, PartialEq, Eq, Structural, Debug)]
pub struct Tweet {
    pub likes: u64,
    pub dislikes: u64,
}

/// One author's reaction to a parent post.
#[derive(Clone, Copy, PartialEq, Eq, Structural, Debug)]
pub struct Reaction {
    /// Who placed the reaction; only this identity may remove it.
    pub reaction_author: Identity,
    /// The address of the post the reaction counts against.
    pub parent_tweet: Identity,
    /// Which counter the reaction counts in.
    pub reaction: ReactionType,
}

/// The accounts a removal touches: the caller, the reaction to remove,
/// and the post whose counter it counts in.
#[derive(Clone, Copy, PartialEq, Eq, Structural, Debug)]
pub struct RemoveReactionContext {
    pub reaction_author: Identity,
    pub tweet_reaction: Reaction,
    pub tweet: Tweet,
}

/// Why removing the reaction in `ctx` fails, or `None` when it succeeds:
/// the caller must be the reaction's author, and the counter selected by
/// the reaction's kind must not already be zero.
pub open spec fn remove_reaction_error(ctx: RemoveReactionContext) -> Option<ReactionError> {
    if ctx.tweet_reaction.reaction_author != ctx.reaction_author {
        Some(ReactionError::NotAuthorized)
    } else {
        match ctx.tweet_reaction.reaction {
            ReactionType::Like => if ctx.tweet.likes == 0 {
                Some(ReactionError::MinLikesReached)
            } else {
                None
            },
            ReactionType::Dislike => if ctx.tweet.dislikes == 0 {
                Some(ReactionError::MinDislikesReached)
            } else {
                None
            },
        }
    }
}

/// The accounts after a successful removal: the counter selected by the
/// reaction's kind is one less, and nothing else has changed.
pub open spec fn remove_reaction_post(ctx: RemoveReactionContext) -> RemoveReactionContext
    recommends
        remove_reaction_error(ctx) is None,
{
    match ctx.tweet_reaction.reaction {
        ReactionType::Like => RemoveReactionContext {
            tweet: Tweet { likes: (ctx.tweet.likes - 1) as u64, ..ctx.tweet },
            ..ctx
        },
        ReactionType::Dislike => RemoveReactionContext {
            tweet: Tweet { dislikes: (ctx.tweet.dislikes - 1) as u64, ..ctx.tweet },
            ..ctx
        },
    }
}

/// Removes the caller's reaction from its parent post.
///
/// Succeeds exactly when the caller is the reaction's author and the
/// counter selected by the reaction's kind is not already zero; then that
/// counter is exactly one less and the caller may go on to delete the
/// reaction record and refund its storage. On failure every field is
/// exactly as it was.
pub fn remove_reaction(ctx: &mut RemoveReactionContext) -> (r: Result<(), ReactionError>)
    ensures
        match r {
            Ok(_) => {
                &&& remove_reaction_error(*old(ctx)) is None
                &&& *final(ctx) == remove_reaction_post(*old(ctx))
            },
            Err(e) => {
                &&& remove_reaction_error(*old(ctx)) == Some(e)
                &&& *final(ctx) == *old(ctx)
            },
        },
{
    if ctx.tweet_reaction.reaction_author != ctx.reaction_author {
        return Err(ReactionError::NotAuthorized);
    }
    match ctx.tweet_reaction.reaction {
        ReactionType::Like => {
            if ctx.tweet.likes == 0 {
                return Err(ReactionError::MinLikesReached);
            }
            ctx.tweet.likes = ctx.tweet.likes - 1;
        },
        ReactionType::Dislike => {
            if ctx.tweet.dislikes == 0 {
                return Err(ReactionError::MinDislikesReached);
            }
            ctx.tweet.dislikes = ctx.tweet.dislikes - 1;
        },
    }
    Ok(())
}

/// Underflow boundary: for the reaction's own author removing a like, a
/// post with no likes refuses with `MinLikesReached`, while a post with
/// exactly one like accepts and is left with none; and likewise for a
/// dislike.
pub proof fn lemma_underflow_boundary(ctx: RemoveReactionContext)
    requires
        ctx.tweet_reaction.reaction_author == ctx.reaction_author,
    ensures
        ctx.tweet_reaction.reaction is Like && ctx.tweet.likes == 0
            ==> remove_reaction_error(ctx) == Some(ReactionError::MinLikesReached),
        ctx.tweet_reaction.reaction is Like && ctx.tweet.likes == 1 ==> {
            &&& remove_reaction_error(ctx) is None
            &&& remove_reaction_post(ctx).tweet.likes == 0
        },
        ctx.tweet_reaction.reaction is Dislike && ctx.tweet.dislikes == 0
            ==> remove_reaction_error(ctx) == Some(ReactionError::MinDislikesReached),
        ctx.tweet_reaction.reaction is Dislike && ctx.tweet.dislikes == 1 ==> {
            &&& remove_reaction_error(ctx) is None
            &&& remove_reaction_post(ctx).tweet.dislikes == 0
        },
{
}

} // verus!
