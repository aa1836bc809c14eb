//! The mathematical model of the scoring ledger and the effect of each step
//! on it.
use crate::smoothing::smooth;
use crate::types::{ActionWeights, Error, Post, PostExtension, ReactionKind, RecordKey, ReputationChanged, ScoringAction, Space};
use vstd::prelude::*;

verus! {

/// What the ledger holds, as maps.
pub struct Ledger {
    pub weights: ActionWeights,
    pub posts: Map<u64, Post>,
    pub spaces: Map<u64, Space>,
    pub reputations: Map<u64, u32>,
    /// (scorer, scored account, action) to the reputation change it made.
    pub reputation_diffs: Map<RecordKey, i16>,
    /// (scorer, post, action) to the score change it made.
    pub post_scores: Map<RecordKey, i16>,
    pub events: Seq<ReputationChanged>,
}

/// An account's reputation; one for an account without a profile.
pub open spec fn reputation_of(m: Ledger, account: u64) -> u32 {
    if m.reputations.contains_key(account) {
        m.reputations[account]
    } else {
        1
    }
}

/// The invariant: valid weights, and no reputation under one.
pub open spec fn ledger_wf(m: Ledger) -> bool {
    &&& m.weights.valid()
    &&& forall|a: u64| #[trigger] m.reputations.contains_key(a) ==> m.reputations[a] >= 1
    &&& forall|k: RecordKey| #[trigger]
        m.reputation_diffs.contains_key(k) ==> m.reputation_diffs[k] > i16::MIN
    &&& forall|k: RecordKey| #[trigger]
        m.post_scores.contains_key(k) ==> m.post_scores[k] > i16::MIN
}

/// The score change of an action by an account of the given reputation.
pub open spec fn score_diff(w: ActionWeights, reputation: u32, action: ScoringAction) -> i16 {
    (smooth(reputation) * w.weight(action)) as i16
}

/// Gives the account a profile (reputation one) unless it has one.
pub open spec fn touch(m: Ledger, account: u64) -> Ledger {
    if m.reputations.contains_key(account) {
        m
    } else {
        Ledger { reputations: m.reputations.insert(account, 1), ..m }
    }
}

/// Inserts the record when absent, removes it when present.
pub open spec fn toggle(t: Map<RecordKey, i16>, k: RecordKey, v: i16) -> Map<RecordKey, i16> {
    if t.contains_key(k) {
        t.remove(k)
    } else {
        t.insert(k, v)
    }
}

pub open spec fn in_i32(x: int) -> bool {
    i32::MIN <= x <= i32::MAX
}

pub open spec fn set_post_score(m: Ledger, id: u64, score: int) -> Ledger {
    Ledger { posts: m.posts.insert(id, Post { score: score as i32, ..m.posts[id] }), ..m }
}

pub open spec fn set_space_score(m: Ledger, id: u64, score: int) -> Ledger {
    Ledger { spaces: m.spaces.insert(id, Space { score: score as i32, ..m.spaces[id] }), ..m }
}

/// Changes `account`'s reputation by `score_diff` on behalf of `scorer`: a
/// change that would leave it at one or below sets it to one and counts as
/// zero; the (scorer, account, action) record is then removed if present and
/// inserted with the counted change if not; a notification is appended.
pub open spec fn reputation_change(
    m: Ledger,
    account: u64,
    scorer: u64,
    score_diff: i16,
    action: ScoringAction,
) -> Result<Ledger, Error> {
    let current = reputation_of(m, account) as int;
    let clamped = current + score_diff <= 1;
    let diff: int = if clamped {
        0
    } else {
        score_diff as int
    };
    let updated: int = if clamped {
        1
    } else {
        current + diff
    };
    if updated > u32::MAX {
        Err(Error::ReputationOverflow)
    } else if updated < 0 {
        Err(Error::ReputationUnderflow)
    } else {
        let key = RecordKey { account: scorer, target: account, action };
        Ok(
            Ledger {
                reputations: m.reputations.insert(account, updated as u32),
                reputation_diffs: toggle(m.reputation_diffs, key, diff as i16),
                events: m.events.push(
                    ReputationChanged { account, action, reputation: updated as u32 },
                ),
                ..m
            },
        )
    }
}

/// The vote that a post vote cancels.
pub open spec fn opposite_post_action(action: ScoringAction) -> Option<ScoringAction> {
    match action {
        ScoringAction::UpvotePost => Some(ScoringAction::DownvotePost),
        ScoringAction::DownvotePost => Some(ScoringAction::UpvotePost),
        _ => None,
    }
}

/// The vote that a comment vote cancels.
pub open spec fn opposite_comment_action(action: ScoringAction) -> Option<ScoringAction> {
    match action {
        ScoringAction::UpvoteComment => Some(ScoringAction::DownvoteComment),
        ScoringAction::DownvoteComment => Some(ScoringAction::UpvoteComment),
        _ => None,
    }
}

/// Records the score change of a fresh action on a post.
pub open spec fn with_post_score(m: Ledger, key: RecordKey, diff: i16) -> Ledger {
    Ledger { post_scores: m.post_scores.insert(key, diff), ..m }
}

/// Forgets the score change of an action on a post.
pub open spec fn without_post_score(m: Ledger, key: RecordKey) -> Ledger {
    Ledger { post_scores: m.post_scores.remove(key), ..m }
}

/// Takes back what `account` did by `action` to a top-level post in space
/// `space_id`: the recorded score change leaves the post and the space, and
/// the recorded reputation change leaves the owner.
pub open spec fn post_reversal(
    m: Ledger,
    account: u64,
    post_id: u64,
    space_id: u64,
    action: ScoringAction,
) -> Result<Ledger, Error> {
    let post = m.posts[post_id];
    let space = m.spaces[space_id];
    let key = RecordKey { account, target: post_id, action };
    let diff_key = RecordKey { account, target: post.owner, action };
    let sd = m.post_scores[key];
    if !m.reputation_diffs.contains_key(diff_key) {
        Err(Error::ReputationDiffNotFound)
    } else if !in_i32(post.score - sd) {
        Err(Error::PostScoreUnderflow)
    } else if !in_i32(space.score - sd) {
        Err(Error::SpaceScoreUnderflow)
    } else {
        let m1 = set_space_score(set_post_score(m, post_id, post.score - sd), space_id, space.score - sd);
        match reputation_change(m1, post.owner, account, (-m.reputation_diffs[diff_key]) as i16, action) {
            Ok(m2) => Ok(without_post_score(m2, key)),
            Err(e) => Err(e),
        }
    }
}

/// Applies a fresh `action` by `account` (of the given reputation) to a
/// top-level post in space `space_id`: its score change goes to the post,
/// the space and the owner's reputation, and is recorded.
pub open spec fn post_addition(
    m: Ledger,
    account: u64,
    post_id: u64,
    space_id: u64,
    action: ScoringAction,
    reputation: u32,
) -> Result<Ledger, Error> {
    let post = m.posts[post_id];
    let space = m.spaces[space_id];
    let key = RecordKey { account, target: post_id, action };
    let sd = score_diff(m.weights, reputation, action);
    if !in_i32(post.score + sd) {
        Err(Error::PostScoreOverflow)
    } else if !in_i32(space.score + sd) {
        Err(Error::SpaceScoreOverflow)
    } else {
        let m1 = set_space_score(set_post_score(m, post_id, post.score + sd), space_id, space.score + sd);
        match reputation_change(m1, post.owner, account, sd, action) {
            Ok(m2) => Ok(with_post_score(m2, key, sd)),
            Err(e) => Err(e),
        }
    }
}

/// `action` by `account` on a top-level post: refused for a missing post or
/// a comment; no change to scores for a post outside a space or the owner's
/// own post; a reversal when the same action is outstanding; else first the
/// reversal of an outstanding opposite vote, then the fresh action.
pub open spec fn post_effect(m: Ledger, account: u64, post_id: u64, action: ScoringAction) -> Result<Ledger, Error> {
    if !m.posts.contains_key(post_id) {
        Err(Error::PostNotFound)
    } else if m.posts[post_id].spec_is_comment() {
        Err(Error::PostIsAComment)
    } else {
        let post = m.posts[post_id];
        let m0 = touch(m, account);
        match post.space_id {
            None => Ok(m0),
            Some(space_id) => {
                if !m0.spaces.contains_key(space_id) {
                    Err(Error::SpaceNotFound)
                } else if post.owner == account {
                    Ok(m0)
                } else if m0.post_scores.contains_key(RecordKey { account, target: post_id, action }) {
                    post_reversal(m0, account, post_id, space_id, action)
                } else {
                    let reputation = reputation_of(m0, account);
                    match opposite_post_action(action) {
                        Some(opp) if m0.post_scores.contains_key(
                            RecordKey { account, target: post_id, action: opp },
                        ) => match post_reversal(m0, account, post_id, space_id, opp) {
                            Ok(m1) => post_addition(m1, account, post_id, space_id, action, reputation),
                            Err(e) => Err(e),
                        },
                        _ => post_addition(m0, account, post_id, space_id, action, reputation),
                    }
                }
            },
        }
    }
}

/// Takes back what `account` did by `action` to a comment.
pub open spec fn comment_reversal(m: Ledger, account: u64, comment_id: u64, action: ScoringAction) -> Result<Ledger, Error> {
    let comment = m.posts[comment_id];
    let key = RecordKey { account, target: comment_id, action };
    let diff_key = RecordKey { account, target: comment.owner, action };
    let sd = m.post_scores[key];
    if !m.reputation_diffs.contains_key(diff_key) {
        Err(Error::ReputationDiffNotFound)
    } else if !in_i32(comment.score - sd) {
        Err(Error::CommentScoreUnderflow)
    } else {
        let m1 = set_post_score(m, comment_id, comment.score - sd);
        match reputation_change(m1, comment.owner, account, (-m.reputation_diffs[diff_key]) as i16, action) {
            Ok(m2) => Ok(without_post_score(m2, key)),
            Err(e) => Err(e),
        }
    }
}

/// Applies a fresh `action` by `account` to a comment.
pub open spec fn comment_addition(
    m: Ledger,
    account: u64,
    comment_id: u64,
    action: ScoringAction,
    reputation: u32,
) -> Result<Ledger, Error> {
    let comment = m.posts[comment_id];
    let key = RecordKey { account, target: comment_id, action };
    let sd = score_diff(m.weights, reputation, action);
    if !in_i32(comment.score + sd) {
        Err(Error::CommentScoreOverflow)
    } else {
        let m1 = set_post_score(m, comment_id, comment.score + sd);
        match reputation_change(m1, comment.owner, account, sd, action) {
            Ok(m2) => Ok(with_post_score(m2, key, sd)),
            Err(e) => Err(e),
        }
    }
}

/// The root post of a comment.
pub open spec fn root_post_id(p: Post) -> u64 {
    match p.extension {
        PostExtension::Comment(c) => c.root_post_id,
        _ => p.id,
    }
}

/// `action` by `account` on a comment: as on a post, without a space; a
/// fresh comment creation is first applied to the comment's root post.
pub open spec fn comment_effect(m: Ledger, account: u64, comment_id: u64, action: ScoringAction) -> Result<Ledger, Error> {
    if !m.posts.contains_key(comment_id) {
        Err(Error::PostNotFound)
    } else if !m.posts[comment_id].spec_is_comment() {
        Err(Error::PostIsNotAComment)
    } else {
        let comment = m.posts[comment_id];
        let m0 = touch(m, account);
        if comment.owner == account {
            Ok(m0)
        } else if m0.post_scores.contains_key(RecordKey { account, target: comment_id, action }) {
            comment_reversal(m0, account, comment_id, action)
        } else {
            let reputation = reputation_of(m0, account);
            let first = match opposite_comment_action(action) {
                Some(opp) if m0.post_scores.contains_key(
                    RecordKey { account, target: comment_id, action: opp },
                ) => comment_reversal(m0, account, comment_id, opp),
                _ => if action == ScoringAction::CreateComment {
                    post_effect(m0, account, root_post_id(comment), action)
                } else {
                    Ok(m0)
                },
            };
            match first {
                Ok(m1) => comment_addition(m1, account, comment_id, action, reputation),
                Err(e) => Err(e),
            }
        }
    }
}

/// `action` by `account` on post `post_id`, by the comment path or the post
/// path as the post is a comment or not.
pub open spec fn action_effect(m: Ledger, account: u64, post_id: u64, action: ScoringAction) -> Result<Ledger, Error> {
    if !m.posts.contains_key(post_id) {
        Err(Error::PostNotFound)
    } else if m.posts[post_id].spec_is_comment() {
        comment_effect(m, account, post_id, action)
    } else {
        post_effect(m, account, post_id, action)
    }
}

/// The scoring action of a reaction: an upvote or a downvote, of posts or
/// of comments as the content is a comment or not; taking a reaction back
/// gives the opposite vote.
pub open spec fn reaction_action(extension: PostExtension, kind: ReactionKind, reverse: bool) -> ScoringAction {
    let up = (kind == ReactionKind::Upvote) != reverse;
    if extension is Comment {
        if up { ScoringAction::UpvoteComment } else { ScoringAction::DownvoteComment }
    } else {
        if up { ScoringAction::UpvotePost } else { ScoringAction::DownvotePost }
    }
}

} // verus!
