//! The scoring engine: a store of posts, spaces and reputations, and the
//! actions that move their scores.
use crate::model::{
    action_effect, comment_addition, comment_effect, comment_reversal, ledger_wf,
    opposite_comment_action, opposite_post_action, post_addition, post_effect, post_reversal,
    reaction_action, reputation_change, reputation_of, score_diff, touch, Ledger,
};
use crate::smoothing::{smooth, smooth_reputation};
use crate::table::Table;
use crate::types::{
    ActionWeights, Error, Post, PostExtension, ReactionKind, RecordKey, ReputationChanged,
    ScoringAction, Space,
};
use vstd::prelude::*;

verus! {

/// The scoring engine and the records it keeps.
pub struct Module {
    weights: ActionWeights,
    posts: Table<u64, Post>,
    spaces: Table<u64, Space>,
    reputations: Table<u64, u32>,
    reputation_diffs: Table<RecordKey, i16>,
    post_scores: Table<RecordKey, i16>,
    events: Vec<ReputationChanged>,
}

impl Module {
    pub closed spec fn view(&self) -> Ledger {
        Ledger {
            weights: self.weights,
            posts: self.posts@,
            spaces: self.spaces@,
            reputations: self.reputations@,
            reputation_diffs: self.reputation_diffs@,
            post_scores: self.post_scores@,
            events: self.events@,
        }
    }

    pub closed spec fn wf(&self) -> bool {
        &&& self.posts.wf()
        &&& self.spaces.wf()
        &&& self.reputations.wf()
        &&& self.reputation_diffs.wf()
        &&& self.post_scores.wf()
        &&& ledger_wf(self@)
    }

    pub proof fn lemma_wf_floor(&self, account: u64)
        requires
            self.wf(),
        ensures
            reputation_of(self@, account) >= 1,
    {
        if self@.reputations.contains_key(account) {
            assert(self@.reputations[account] >= 1);
        }
    }

    /// An empty store with the given weights.
    pub fn new(weights: ActionWeights) -> (r: Module)
        requires
            weights.valid(),
        ensures
            r.wf(),
            r@.weights == weights,
            r@.posts.is_empty(),
            r@.spaces.is_empty(),
            r@.reputations.is_empty(),
            r@.reputation_diffs.is_empty(),
            r@.post_scores.is_empty(),
            r@.events.len() == 0,
    {
        Module {
            weights,
            posts: Table::new(),
            spaces: Table::new(),
            reputations: Table::new(),
            reputation_diffs: Table::new(),
            post_scores: Table::new(),
            events: Vec::new(),
        }
    }

    /// The weight of an action.
    pub fn weight_of_scoring_action(&self, action: ScoringAction) -> (r: i16)
        ensures
            r == self@.weights.weight(action),
    {
        match action {
            ScoringAction::UpvotePost => self.weights.upvote_post,
            ScoringAction::DownvotePost => self.weights.downvote_post,
            ScoringAction::SharePost => self.weights.share_post,
            ScoringAction::CreateComment => self.weights.create_comment,
            ScoringAction::UpvoteComment => self.weights.upvote_comment,
            ScoringAction::DownvoteComment => self.weights.downvote_comment,
            ScoringAction::ShareComment => self.weights.share_comment,
            ScoringAction::FollowSpace => self.weights.follow_space,
            ScoringAction::FollowAccount => self.weights.follow_account,
        }
    }

    /// The score change of `action` by an account of reputation `reputation`:
    /// its level times the action's weight.
    pub fn score_diff_for_action(&self, reputation: u32, action: ScoringAction) -> (r: i16)
        requires
            self.wf(),
        ensures
            r == score_diff(self@.weights, reputation, action),
            r as int == smooth(reputation) as int * self@.weights.weight(action) as int,
            -32 * 1023 <= r <= 32 * 1023,
    {
        let level = smooth_reputation(reputation);
        let w = self.weight_of_scoring_action(action);
        assert(self@.weights.valid());
        assert(-1023 <= self@.weights.weight(action) <= 1023);
        assert(-32 * 1023 <= level as int * w as int <= 32 * 1023) by (nonlinear_arith)
            requires
                1 <= level <= 32,
                -1023 <= w <= 1023,
        ;
        level as i16 * w
    }

    /// The reputation of an account; one for an account without a profile.
    pub fn reputation(&self, account: u64) -> (r: u32)
        requires
            self.wf(),
        ensures
            r == reputation_of(self@, account),
            r >= 1,
    {
        match self.reputations.get(&account) {
            Some(r) => {
                assert(self@.reputations.contains_key(account));
                r
            },
            None => 1,
        }
    }

    /// Gives `account` a profile with reputation one unless it has one.
    fn touch_account(&mut self, account: u64)
        requires
            old(self).wf(),
        ensures
            final(self).wf(),
            final(self)@ == touch(old(self)@, account),
    {
        if !self.reputations.contains(&account) {
            self.reputations.insert(account, 1);
            assert forall|a: u64| #[trigger] self@.reputations.contains_key(a) implies self@.reputations[a] >= 1 by {
                if a != account {
                    assert(old(self)@.reputations.contains_key(a));
                }
            }
            assert(self@.weights.valid());
            assert(self@.reputation_diffs == old(self)@.reputation_diffs);
            assert(self@.post_scores == old(self)@.post_scores);
            assert(ledger_wf(self@));
        }
    }

    /// Changes the reputation of `account` by `score_diff` on behalf of
    /// `scorer`, and toggles the (scorer, account, action) record (see
    /// `reputation_change`). On an error nothing changes.
    pub fn change_social_account_reputation(
        &mut self,
        account: u64,
        scorer: u64,
        score_diff: i16,
        action: ScoringAction,
    ) -> (r: Result<(), Error>)
        requires
            old(self).wf(),
            score_diff > i16::MIN,
        ensures
            final(self).wf(),
            match r {
                Ok(()) => reputation_change(old(self)@, account, scorer, score_diff, action) == Ok::<
                    Ledger,
                    Error,
                >(final(self)@),
                Err(e) => reputation_change(old(self)@, account, scorer, score_diff, action)
                    == Err::<Ledger, Error>(e) && *final(self) == *old(self),
            },
    {
        let mut reputation = self.reputation(account);
        let mut diff = score_diff;
        if reputation as i64 + score_diff as i64 <= 1 {
            reputation = 1;
            diff = 0;
        }
        if diff > 0 {
            match reputation.checked_add(diff as u32) {
                Some(v) => reputation = v,
                None => return Err(Error::ReputationOverflow),
            }
        } else if diff < 0 {
            match reputation.checked_sub((-diff) as u32) {
                Some(v) => reputation = v,
                None => return Err(Error::ReputationUnderflow),
            }
        }
        let key = RecordKey { account: scorer, target: account, action };
        if self.reputation_diffs.contains(&key) {
            self.reputation_diffs.remove(&key);
        } else {
            self.reputation_diffs.insert(key, diff);
        }
        self.reputations.insert(account, reputation);
        self.events.push(ReputationChanged { account, action, reputation });
        Ok(())
    }

    /// Takes back `account`'s outstanding `action` on a top-level post in
    /// space `space_id` (see `post_reversal`).
    fn reverse_post_score(&mut self, account: u64, post_id: u64, space_id: u64, action: ScoringAction) -> (r: Result<(), Error>)
        requires
            old(self).wf(),
            old(self)@.posts.contains_key(post_id),
            old(self)@.spaces.contains_key(space_id),
            old(self)@.post_scores.contains_key(RecordKey { account, target: post_id, action }),
        ensures
            final(self).wf(),
            match r {
                Ok(()) => post_reversal(old(self)@, account, post_id, space_id, action) == Ok::<Ledger, Error>(final(self)@),
                Err(e) => post_reversal(old(self)@, account, post_id, space_id, action) == Err::<Ledger, Error>(e),
            },
            r is Ok ==> final(self)@.posts.dom() == old(self)@.posts.dom(),
            r is Ok ==> final(self)@.spaces.dom() == old(self)@.spaces.dom(),
    {
        let mut post = self.posts.get(&post_id).unwrap();
        let mut space = self.spaces.get(&space_id).unwrap();
        let key = RecordKey { account, target: post_id, action };
        let score_diff = self.post_scores.get(&key).unwrap();
        let diff_key = RecordKey { account, target: post.owner, action };
        let reputation_diff = match self.reputation_diffs.get(&diff_key) {
            Some(d) => d,
            None => return Err(Error::ReputationDiffNotFound),
        };
        post.score = match post.score.checked_sub(score_diff as i32) {
            Some(s) => s,
            None => return Err(Error::PostScoreUnderflow),
        };
        space.score = match space.score.checked_sub(score_diff as i32) {
            Some(s) => s,
            None => return Err(Error::SpaceScoreUnderflow),
        };
        self.posts.insert(post_id, post);
        self.spaces.insert(space_id, space);
        match self.change_social_account_reputation(post.owner, account, -reputation_diff, action) {
            Ok(()) => {},
            Err(e) => return Err(e),
        }
        self.post_scores.remove(&key);
        assert(self@.posts.dom() =~= old(self)@.posts.dom());
        assert(self@.spaces.dom() =~= old(self)@.spaces.dom());
        Ok(())
    }

    /// Applies a fresh `action` by `account`, of reputation `reputation`, to
    /// a top-level post in space `space_id` (see `post_addition`).
    fn add_post_score(
        &mut self,
        account: u64,
        post_id: u64,
        space_id: u64,
        action: ScoringAction,
        reputation: u32,
    ) -> (r: Result<(), Error>)
        requires
            old(self).wf(),
            old(self)@.posts.contains_key(post_id),
            old(self)@.spaces.contains_key(space_id),
        ensures
            final(self).wf(),
            match r {
                Ok(()) => post_addition(old(self)@, account, post_id, space_id, action, reputation) == Ok::<Ledger, Error>(final(self)@),
                Err(e) => post_addition(old(self)@, account, post_id, space_id, action, reputation) == Err::<Ledger, Error>(e),
            },
            r is Ok ==> final(self)@.posts.dom() == old(self)@.posts.dom(),
    {
        let mut post = self.posts.get(&post_id).unwrap();
        let mut space = self.spaces.get(&space_id).unwrap();
        let key = RecordKey { account, target: post_id, action };
        let score_diff = self.score_diff_for_action(reputation, action);
        post.score = match post.score.checked_add(score_diff as i32) {
            Some(s) => s,
            None => return Err(Error::PostScoreOverflow),
        };
        space.score = match space.score.checked_add(score_diff as i32) {
            Some(s) => s,
            None => return Err(Error::SpaceScoreOverflow),
        };
        self.posts.insert(post_id, post);
        self.spaces.insert(space_id, space);
        match self.change_social_account_reputation(post.owner, account, score_diff, action) {
            Ok(()) => {},
            Err(e) => return Err(e),
        }
        self.post_scores.insert(key, score_diff);
        assert(self@.posts.dom() =~= old(self)@.posts.dom());
        Ok(())
    }

    /// `action` by `account` on a top-level post (see `post_effect`).
    fn change_post_score(&mut self, account: u64, post_id: u64, action: ScoringAction) -> (r: Result<(), Error>)
        requires
            old(self).wf(),
        ensures
            final(self).wf(),
            match r {
                Ok(()) => post_effect(old(self)@, account, post_id, action) == Ok::<Ledger, Error>(final(self)@),
                Err(e) => post_effect(old(self)@, account, post_id, action) == Err::<Ledger, Error>(e),
            },
            r is Ok ==> final(self)@.posts.dom() == old(self)@.posts.dom(),
    {
        let post = match self.posts.get(&post_id) {
            Some(p) => p,
            None => return Err(Error::PostNotFound),
        };
        if post.is_comment() {
            return Err(Error::PostIsAComment);
        }
        self.touch_account(account);
        match post.space_id {
            None => Ok(()),
            Some(space_id) => {
                if !self.spaces.contains(&space_id) {
                    return Err(Error::SpaceNotFound);
                }
                if post.owner == account {
                    return Ok(());
                }
                let key = RecordKey { account, target: post_id, action };
                if self.post_scores.contains(&key) {
                    return self.reverse_post_score(account, post_id, space_id, action);
                }
                let reputation = self.reputation(account);
                match opposite_post_vote(action) {
                    Some(opp) => {
                        if self.post_scores.contains(&RecordKey { account, target: post_id, action: opp }) {
                            match self.reverse_post_score(account, post_id, space_id, opp) {
                                Ok(()) => {},
                                Err(e) => return Err(e),
                            }
                        }
                    },
                    None => {},
                }
                self.add_post_score(account, post_id, space_id, action, reputation)
            },
        }
    }

    /// Takes back `account`'s outstanding `action` on a comment (see
    /// `comment_reversal`).
    fn reverse_comment_score(&mut self, account: u64, comment_id: u64, action: ScoringAction) -> (r: Result<(), Error>)
        requires
            old(self).wf(),
            old(self)@.posts.contains_key(comment_id),
            old(self)@.post_scores.contains_key(RecordKey { account, target: comment_id, action }),
        ensures
            final(self).wf(),
            match r {
                Ok(()) => comment_reversal(old(self)@, account, comment_id, action) == Ok::<Ledger, Error>(final(self)@),
                Err(e) => comment_reversal(old(self)@, account, comment_id, action) == Err::<Ledger, Error>(e),
            },
            r is Ok ==> final(self)@.posts.dom() == old(self)@.posts.dom(),
    {
        let mut comment = self.posts.get(&comment_id).unwrap();
        let key = RecordKey { account, target: comment_id, action };
        let score_diff = self.post_scores.get(&key).unwrap();
        let diff_key = RecordKey { account, target: comment.owner, action };
        let reputation_diff = match self.reputation_diffs.get(&diff_key) {
            Some(d) => d,
            None => return Err(Error::ReputationDiffNotFound),
        };
        comment.score = match comment.score.checked_sub(score_diff as i32) {
            Some(s) => s,
            None => return Err(Error::CommentScoreUnderflow),
        };
        self.posts.insert(comment_id, comment);
        match self.change_social_account_reputation(comment.owner, account, -reputation_diff, action) {
            Ok(()) => {},
            Err(e) => return Err(e),
        }
        self.post_scores.remove(&key);
        assert(self@.posts.dom() =~= old(self)@.posts.dom());
        Ok(())
    }

    /// Applies a fresh `action` by `account`, of reputation `reputation`, to
    /// a comment (see `comment_addition`).
    fn add_comment_score(
        &mut self,
        account: u64,
        comment_id: u64,
        action: ScoringAction,
        reputation: u32,
    ) -> (r: Result<(), Error>)
        requires
            old(self).wf(),
            old(self)@.posts.contains_key(comment_id),
        ensures
            final(self).wf(),
            match r {
                Ok(()) => comment_addition(old(self)@, account, comment_id, action, reputation) == Ok::<Ledger, Error>(final(self)@),
                Err(e) => comment_addition(old(self)@, account, comment_id, action, reputation) == Err::<Ledger, Error>(e),
            },
    {
        let mut comment = self.posts.get(&comment_id).unwrap();
        let key = RecordKey { account, target: comment_id, action };
        let score_diff = self.score_diff_for_action(reputation, action);
        comment.score = match comment.score.checked_add(score_diff as i32) {
            Some(s) => s,
            None => return Err(Error::CommentScoreOverflow),
        };
        self.posts.insert(comment_id, comment);
        match self.change_social_account_reputation(comment.owner, account, score_diff, action) {
            Ok(()) => {},
            Err(e) => return Err(e),
        }
        self.post_scores.insert(key, score_diff);
        Ok(())
    }

    /// `action` by `account` on a comment (see `comment_effect`).
    fn change_comment_score(&mut self, account: u64, comment_id: u64, action: ScoringAction) -> (r: Result<(), Error>)
        requires
            old(self).wf(),
        ensures
            final(self).wf(),
            match r {
                Ok(()) => comment_effect(old(self)@, account, comment_id, action) == Ok::<Ledger, Error>(final(self)@),
                Err(e) => comment_effect(old(self)@, account, comment_id, action) == Err::<Ledger, Error>(e),
            },
    {
        let comment = match self.posts.get(&comment_id) {
            Some(p) => p,
            None => return Err(Error::PostNotFound),
        };
        let root_post_id = match comment.extension {
            PostExtension::Comment(c) => c.root_post_id,
            _ => return Err(Error::PostIsNotAComment),
        };
        self.touch_account(account);
        if comment.owner == account {
            return Ok(());
        }
        let key = RecordKey { account, target: comment_id, action };
        if self.post_scores.contains(&key) {
            return self.reverse_comment_score(account, comment_id, action);
        }
        let reputation = self.reputation(account);
        let opposite_held = match opposite_comment_vote(action) {
            Some(opp) => self.post_scores.contains(&RecordKey { account, target: comment_id, action: opp }),
            None => false,
        };
        if opposite_held {
            let opp = opposite_comment_vote(action).unwrap();
            match self.reverse_comment_score(account, comment_id, opp) {
                Ok(()) => {},
                Err(e) => return Err(e),
            }
        } else if action == ScoringAction::CreateComment {
            match self.change_post_score(account, root_post_id, action) {
                Ok(()) => {},
                Err(e) => return Err(e),
            }
        }
        self.add_comment_score(account, comment_id, action, reputation)
    }

    /// An exact copy of the store.
    fn copy(&self) -> (r: Module)
        requires
            self.wf(),
        ensures
            r.wf(),
            r@ == self@,
    {
        let mut events: Vec<ReputationChanged> = Vec::new();
        let mut i: usize = 0;
        while i < self.events.len()
            invariant
                i <= self.events@.len(),
                events@ == self.events@.subrange(0, i as int),
            decreases self.events@.len() - i,
        {
            events.push(self.events[i]);
            i = i + 1;
        }
        assert(events@ =~= self.events@);
        Module {
            weights: self.weights,
            posts: self.posts.copy(),
            spaces: self.spaces.copy(),
            reputations: self.reputations.copy(),
            reputation_diffs: self.reputation_diffs.copy(),
            post_scores: self.post_scores.copy(),
            events,
        }
    }

    /// Applies `action` by `account` to post `post_id`, by the comment path
    /// or the post path as the post is a comment or not (see
    /// `action_effect`). The action is applied whole, nested reversals and
    /// the forwarding to a root post included, or not at all: on an error
    /// nothing changes.
    pub fn change_post_score_by_extension(&mut self, account: u64, post_id: u64, action: ScoringAction) -> (r: Result<(), Error>)
        requires
            old(self).wf(),
        ensures
            final(self).wf(),
            match r {
                Ok(()) => action_effect(old(self)@, account, post_id, action) == Ok::<Ledger, Error>(final(self)@),
                Err(e) => action_effect(old(self)@, account, post_id, action) == Err::<Ledger, Error>(e)
                    && *final(self) == *old(self),
            },
    {
        let mut work = self.copy();
        let is_comment = match self.posts.get(&post_id) {
            Some(p) => p.is_comment(),
            None => return Err(Error::PostNotFound),
        };
        let r = if is_comment {
            work.change_comment_score(account, post_id, action)
        } else {
            work.change_post_score(account, post_id, action)
        };
        if r.is_ok() {
            *self = work;
        }
        r
    }

    /// Stores a post or a comment under its id, replacing any with that id.
    pub fn put_post(&mut self, post: Post)
        requires
            old(self).wf(),
        ensures
            final(self).wf(),
            final(self)@ == (Ledger { posts: old(self)@.posts.insert(post.id, post), ..old(self)@ }),
    {
        self.posts.insert(post.id, post);
    }

    /// Stores a space under its id, replacing any with that id.
    pub fn put_space(&mut self, space: Space)
        requires
            old(self).wf(),
        ensures
            final(self).wf(),
            final(self)@ == (Ledger { spaces: old(self)@.spaces.insert(space.id, space), ..old(self)@ }),
    {
        self.spaces.insert(space.id, space);
    }

    /// Stores an account's profile with the given reputation.
    pub fn put_reputation(&mut self, account: u64, reputation: u32)
        requires
            old(self).wf(),
            reputation >= 1,
        ensures
            final(self).wf(),
            final(self)@ == (Ledger { reputations: old(self)@.reputations.insert(account, reputation), ..old(self)@ }),
    {
        self.reputations.insert(account, reputation);
        assert forall|a: u64| #[trigger] self@.reputations.contains_key(a) implies self@.reputations[a] >= 1 by {
            if a != account {
                assert(old(self)@.reputations.contains_key(a));
            }
        }
    }

    /// The post or comment with this id.
    pub fn post(&self, post_id: u64) -> (r: Option<Post>)
        requires
            self.wf(),
        ensures
            r == (if self@.posts.contains_key(post_id) { Some(self@.posts[post_id]) } else { None }),
    {
        self.posts.get(&post_id)
    }

    /// The space with this id.
    pub fn space(&self, space_id: u64) -> (r: Option<Space>)
        requires
            self.wf(),
        ensures
            r == (if self@.spaces.contains_key(space_id) { Some(self@.spaces[space_id]) } else { None }),
    {
        self.spaces.get(&space_id)
    }

    /// The outstanding reputation change that `scorer` made to `account` by
    /// `action`.
    pub fn account_reputation_diff_by_account(&self, scorer: u64, account: u64, action: ScoringAction) -> (r: Option<i16>)
        requires
            self.wf(),
        ensures
            ({
                let k = RecordKey { account: scorer, target: account, action };
                r == (if self@.reputation_diffs.contains_key(k) { Some(self@.reputation_diffs[k]) } else { None })
            }),
    {
        self.reputation_diffs.get(&RecordKey { account: scorer, target: account, action })
    }

    /// The outstanding score change that `account` made to post `post_id` by
    /// `action`.
    pub fn post_score_by_account(&self, account: u64, post_id: u64, action: ScoringAction) -> (r: Option<i16>)
        requires
            self.wf(),
        ensures
            ({
                let k = RecordKey { account, target: post_id, action };
                r == (if self@.post_scores.contains_key(k) { Some(self@.post_scores[k]) } else { None })
            }),
    {
        self.post_scores.get(&RecordKey { account, target: post_id, action })
    }

    /// The number of reputation notifications so far.
    pub fn event_count(&self) -> (r: usize)
        ensures
            r == self@.events.len(),
    {
        self.events.len()
    }

    /// The notification at position `i`, oldest first.
    pub fn event(&self, i: usize) -> (r: ReputationChanged)
        requires
            i < self@.events.len(),
        ensures
            r == self@.events[i as int],
    {
        self.events[i]
    }

    /// The scoring action that a reaction stands for: a vote of the
    /// reaction's kind on a post or a comment, or the opposite vote when
    /// the reaction is taken back.
    pub fn scoring_action_by_post_extension(
        extension: PostExtension,
        reaction_kind: ReactionKind,
        reverse: bool,
    ) -> (r: ScoringAction)
        ensures
            r == reaction_action(extension, reaction_kind, reverse),
    {
        match extension {
            PostExtension::RegularPost | PostExtension::SharedPost(_) => match reaction_kind {
                ReactionKind::Upvote => if reverse {
                    ScoringAction::DownvotePost
                } else {
                    ScoringAction::UpvotePost
                },
                ReactionKind::Downvote => if reverse {
                    ScoringAction::UpvotePost
                } else {
                    ScoringAction::DownvotePost
                },
            },
            PostExtension::Comment(_) => match reaction_kind {
                ReactionKind::Upvote => if reverse {
                    ScoringAction::DownvoteComment
                } else {
                    ScoringAction::UpvoteComment
                },
                ReactionKind::Downvote => if reverse {
                    ScoringAction::UpvoteComment
                } else {
                    ScoringAction::DownvoteComment
                },
            },
        }
    }
}

/// The vote that a post vote cancels.
fn opposite_post_vote(action: ScoringAction) -> (r: Option<ScoringAction>)
    ensures
        r == opposite_post_action(action),
{
    match action {
        ScoringAction::UpvotePost => Some(ScoringAction::DownvotePost),
        ScoringAction::DownvotePost => Some(ScoringAction::UpvotePost),
        _ => None,
    }
}

/// The vote that a comment vote cancels.
fn opposite_comment_vote(action: ScoringAction) -> (r: Option<ScoringAction>)
    ensures
        r == opposite_comment_action(action),
{
    match action {
        ScoringAction::UpvoteComment => Some(ScoringAction::DownvoteComment),
        ScoringAction::DownvoteComment => Some(ScoringAction::UpvoteComment),
        _ => None,
    }
}

} // verus!
