//! The values that the scoring engine reads and writes.
use crate::table::TableKey;
use vstd::prelude::*;

verus! {

/// A social action that moves scores and reputation.
#[derive(Clone, Copy, Debug, PartialEq, Eq, Structural)]
pub enum ScoringAction {
    UpvotePost,
    DownvotePost,
    SharePost,
    CreateComment,
    UpvoteComment,
    DownvoteComment,
    ShareComment,
    FollowSpace,
    FollowAccount,
}

impl Default for ScoringAction {
    fn default() -> (r: Self)
        ensures
            r == ScoringAction::FollowAccount,
    {
        ScoringAction::FollowAccount
    }
}

/// The kind of a reaction on a post or a comment.
#[derive(Clone, Copy, Debug, PartialEq, Eq, Structural)]
pub enum ReactionKind {
    Upvote,
    Downvote,
}

/// Where a comment hangs: its direct parent, if it answers another comment,
/// and the top-level post of its thread.
#[derive(Clone, Copy, Debug, PartialEq, Eq, Structural)]
pub struct Comment {
    pub parent_id: Option<u64>,
    pub root_post_id: u64,
}

/// What a post is: a regular post, a comment, or a share of another post.
#[derive(Clone, Copy, Debug, PartialEq, Eq, Structural)]
pub enum PostExtension {
    RegularPost,
    Comment(Comment),
    SharedPost(u64),
}

/// A post or a comment, with the account that created it.
#[derive(Clone, Copy, Debug, PartialEq, Eq, Structural)]
pub struct Post {
    pub id: u64,
    pub owner: u64,
    pub space_id: Option<u64>,
    pub extension: PostExtension,
    pub score: i32,
}

impl Post {
    pub open spec fn spec_is_comment(&self) -> bool {
        self.extension is Comment
    }

    pub fn is_comment(&self) -> (r: bool)
        ensures
            r == self.spec_is_comment(),
    {
        match self.extension {
            PostExtension::Comment(_) => true,
            _ => false,
        }
    }
}

/// A space that holds posts.
#[derive(Clone, Copy, Debug, PartialEq, Eq, Structural)]
pub struct Space {
    pub id: u64,
    pub score: i32,
}

/// The key of an outstanding record: who scored, what was scored (an
/// account or a post), and by which action.
#[derive(Clone, Copy, Debug, PartialEq, Eq, Structural)]
pub struct RecordKey {
    pub account: u64,
    pub target: u64,
    pub action: ScoringAction,
}

impl TableKey for RecordKey {
    fn same_key(&self, other: &RecordKey) -> (r: bool) {
        self.account == other.account && self.target == other.target && self.action
            == other.action
    }
}

/// The notification of a changed reputation: the account, the action that
/// changed it, and the new reputation.
#[derive(Clone, Copy, Debug, PartialEq, Eq, Structural)]
pub struct ReputationChanged {
    pub account: u64,
    pub action: ScoringAction,
    pub reputation: u32,
}

/// Why an action was refused.
#[derive(Clone, Copy, Debug, PartialEq, Eq, Structural)]
pub enum Error {
    /// Scored account reputation difference by account and action not found.
    ReputationDiffNotFound,
    /// Post extension is a comment.
    PostIsAComment,
    /// Post extension is not a comment.
    PostIsNotAComment,
    /// Out of bounds increasing a space score.
    SpaceScoreOverflow,
    /// Out of bounds decreasing a space score.
    SpaceScoreUnderflow,
    /// Out of bounds increasing a post score.
    PostScoreOverflow,
    /// Out of bounds decreasing a post score.
    PostScoreUnderflow,
    /// Out of bounds increasing a comment score.
    CommentScoreOverflow,
    /// Out of bounds decreasing a comment score.
    CommentScoreUnderflow,
    /// Out of bounds increasing a reputation of a social account.
    ReputationOverflow,
    /// Out of bounds decreasing a reputation of a social account.
    ReputationUnderflow,
    /// No post or comment has this id.
    PostNotFound,
    /// No space has this id.
    SpaceNotFound,
}

/// The weight of each action, fixed when the engine is made.
#[derive(Clone, Copy, Debug, PartialEq, Eq, Structural)]
pub struct ActionWeights {
    pub follow_space: i16,
    pub follow_account: i16,
    pub share_post: i16,
    pub upvote_post: i16,
    pub downvote_post: i16,
    pub create_comment: i16,
    pub share_comment: i16,
    pub upvote_comment: i16,
    pub downvote_comment: i16,
}

/// The largest weight magnitude for which a level (at most 32) times the
/// weight fits in 16 bits, with room to negate it.
pub const MAX_WEIGHT: i16 = 1023;

impl ActionWeights {
    pub open spec fn weight(&self, action: ScoringAction) -> i16 {
        match action {
            ScoringAction::UpvotePost => self.upvote_post,
            ScoringAction::DownvotePost => self.downvote_post,
            ScoringAction::SharePost => self.share_post,
            ScoringAction::CreateComment => self.create_comment,
            ScoringAction::UpvoteComment => self.upvote_comment,
            ScoringAction::DownvoteComment => self.downvote_comment,
            ScoringAction::ShareComment => self.share_comment,
            ScoringAction::FollowSpace => self.follow_space,
            ScoringAction::FollowAccount => self.follow_account,
        }
    }

    /// Every weight lies within `-MAX_WEIGHT ..= MAX_WEIGHT`.
    pub open spec fn valid(&self) -> bool {
        forall|a: ScoringAction|
            -MAX_WEIGHT <= #[trigger] self.weight(a) <= MAX_WEIGHT
    }

    /// Checks that every weight lies within `-MAX_WEIGHT ..= MAX_WEIGHT`.
    pub fn is_valid(&self) -> (r: bool)
        ensures
            r == self.valid(),
    {
        let ws: [i16; 9] = [
            self.follow_space,
            self.follow_account,
            self.share_post,
            self.upvote_post,
            self.downvote_post,
            self.create_comment,
            self.share_comment,
            self.upvote_comment,
            self.downvote_comment,
        ];
        let mut ok = true;
        let mut i: usize = 0;
        while i < 9
            invariant
                i <= 9,
                ws@ == seq![
                    self.follow_space,
                    self.follow_account,
                    self.share_post,
                    self.upvote_post,
                    self.downvote_post,
                    self.create_comment,
                    self.share_comment,
                    self.upvote_comment,
                    self.downvote_comment,
                ],
                ok == (forall|j: int| 0 <= j < i ==> -MAX_WEIGHT <= #[trigger] ws@[j] <= MAX_WEIGHT),
            decreases 9 - i,
        {
            if ws[i] < -MAX_WEIGHT || ws[i] > MAX_WEIGHT {
                ok = false;
            }
            i = i + 1;
        }
        proof {
            if ok {
                assert forall|a: ScoringAction|
                    -MAX_WEIGHT <= #[trigger] self.weight(a) <= MAX_WEIGHT by {
                    match a {
                        ScoringAction::FollowSpace => assert(ws@[0] == self.weight(a)),
                        ScoringAction::FollowAccount => assert(ws@[1] == self.weight(a)),
                        ScoringAction::SharePost => assert(ws@[2] == self.weight(a)),
                        ScoringAction::UpvotePost => assert(ws@[3] == self.weight(a)),
                        ScoringAction::DownvotePost => assert(ws@[4] == self.weight(a)),
                        ScoringAction::CreateComment => assert(ws@[5] == self.weight(a)),
                        ScoringAction::ShareComment => assert(ws@[6] == self.weight(a)),
                        ScoringAction::UpvoteComment => assert(ws@[7] == self.weight(a)),
                        ScoringAction::DownvoteComment => assert(ws@[8] == self.weight(a)),
                    }
                }
            } else {
                let j = choose|j: int| 0 <= j < 9 && !(-MAX_WEIGHT <= #[trigger] ws@[j] <= MAX_WEIGHT);
                if j == 0 { assert(!(-MAX_WEIGHT <= self.weight(ScoringAction::FollowSpace) <= MAX_WEIGHT)); }
                else if j == 1 { assert(!(-MAX_WEIGHT <= self.weight(ScoringAction::FollowAccount) <= MAX_WEIGHT)); }
                else if j == 2 { assert(!(-MAX_WEIGHT <= self.weight(ScoringAction::SharePost) <= MAX_WEIGHT)); }
                else if j == 3 { assert(!(-MAX_WEIGHT <= self.weight(ScoringAction::UpvotePost) <= MAX_WEIGHT)); }
                else if j == 4 { assert(!(-MAX_WEIGHT <= self.weight(ScoringAction::DownvotePost) <= MAX_WEIGHT)); }
                else if j == 5 { assert(!(-MAX_WEIGHT <= self.weight(ScoringAction::CreateComment) <= MAX_WEIGHT)); }
                else if j == 6 { assert(!(-MAX_WEIGHT <= self.weight(ScoringAction::ShareComment) <= MAX_WEIGHT)); }
                else if j == 7 { assert(!(-MAX_WEIGHT <= self.weight(ScoringAction::UpvoteComment) <= MAX_WEIGHT)); }
                else { assert(!(-MAX_WEIGHT <= self.weight(ScoringAction::DownvoteComment) <= MAX_WEIGHT)); }
            }
        }
        ok
    }
}

} // verus!
