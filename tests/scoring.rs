use reputation_ledger::scores::Module;
use reputation_ledger::smoothing::{log_2, smooth_reputation};
use reputation_ledger::types::{
    ActionWeights, Comment, Error, Post, PostExtension, ReactionKind, ScoringAction, Space,
};

const X: u64 = 10;
const O: u64 = 20;
const A: u64 = 30;
const SPACE: u64 = 1;
const P: u64 = 100;
const P2: u64 = 101;
const K: u64 = 200;

fn weights() -> ActionWeights {
    ActionWeights {
        follow_space: 1,
        follow_account: 2,
        share_post: 4,
        upvote_post: 5,
        downvote_post: -3,
        create_comment: 2,
        share_comment: 3,
        upvote_comment: 4,
        downvote_comment: -2,
    }
}

fn post(id: u64, owner: u64) -> Post {
    Post { id, owner, space_id: Some(SPACE), extension: PostExtension::RegularPost, score: 0 }
}

fn comment(id: u64, owner: u64, root: u64) -> Post {
    Post {
        id,
        owner,
        space_id: None,
        extension: PostExtension::Comment(Comment { parent_id: None, root_post_id: root }),
        score: 0,
    }
}

fn store() -> Module {
    let mut m = Module::new(weights());
    m.put_space(Space { id: SPACE, score: 0 });
    m.put_post(post(P, O));
    m.put_post(post(P2, O));
    m.put_post(comment(K, A, P));
    m
}

#[test]
fn smooth_levels() {
    assert_eq!(smooth_reputation(0), 1);
    assert_eq!(smooth_reputation(1), 1);
    assert_eq!(smooth_reputation(2), 2);
    assert_eq!(smooth_reputation(3), 2);
    assert_eq!(smooth_reputation(4), 3);
    assert_eq!(smooth_reputation(7), 3);
    assert_eq!(smooth_reputation(1024), 11);
    assert_eq!(smooth_reputation(u32::MAX), 32);
}

#[test]
fn log_2_values() {
    assert_eq!(log_2(0), None);
    assert_eq!(log_2(1), Some(0));
    assert_eq!(log_2(5), Some(2));
    assert_eq!(log_2(u32::MAX), Some(31));
}

#[test]
fn score_diff_is_level_times_weight() {
    let m = store();
    assert_eq!(m.score_diff_for_action(1, ScoringAction::UpvotePost), 5);
    assert_eq!(m.score_diff_for_action(8, ScoringAction::UpvotePost), 20);
    assert_eq!(m.score_diff_for_action(8, ScoringAction::DownvotePost), -12);
    assert_eq!(m.weight_of_scoring_action(ScoringAction::ShareComment), 3);
}

#[test]
fn upvote_then_repeat_scenario() {
    let mut m = store();
    assert_eq!(m.reputation(X), 1);
    assert_eq!(m.change_post_score_by_extension(X, P, ScoringAction::UpvotePost), Ok(()));
    assert_eq!(m.post(P).unwrap().score, 5);
    assert_eq!(m.space(SPACE).unwrap().score, 5);
    assert_eq!(m.reputation(O), 6);
    assert_eq!(m.post_score_by_account(X, P, ScoringAction::UpvotePost), Some(5));
    assert_eq!(m.account_reputation_diff_by_account(X, O, ScoringAction::UpvotePost), Some(5));

    assert_eq!(m.change_post_score_by_extension(X, P, ScoringAction::UpvotePost), Ok(()));
    assert_eq!(m.post(P).unwrap().score, 0);
    assert_eq!(m.space(SPACE).unwrap().score, 0);
    assert_eq!(m.reputation(O), 1);
    assert_eq!(m.post_score_by_account(X, P, ScoringAction::UpvotePost), None);
    assert_eq!(m.account_reputation_diff_by_account(X, O, ScoringAction::UpvotePost), None);
}

#[test]
fn reputation_overflow_changes_nothing() {
    let mut m = store();
    m.put_reputation(O, u32::MAX - 2);
    let events = m.event_count();
    assert_eq!(
        m.change_post_score_by_extension(X, P, ScoringAction::UpvotePost),
        Err(Error::ReputationOverflow)
    );
    assert_eq!(m.reputation(O), u32::MAX - 2);
    assert_eq!(m.post(P).unwrap().score, 0);
    assert_eq!(m.space(SPACE).unwrap().score, 0);
    assert_eq!(m.post_score_by_account(X, P, ScoringAction::UpvotePost), None);
    assert_eq!(m.account_reputation_diff_by_account(X, O, ScoringAction::UpvotePost), None);
    assert_eq!(m.event_count(), events);
    assert_eq!(
        m.change_social_account_reputation(O, X, 5, ScoringAction::FollowAccount),
        Err(Error::ReputationOverflow)
    );
    assert_eq!(m.reputation(O), u32::MAX - 2);
}

#[test]
fn downvote_replaces_upvote() {
    let mut m = store();
    m.change_post_score_by_extension(X, P, ScoringAction::UpvotePost).unwrap();
    assert_eq!(m.change_post_score_by_extension(X, P, ScoringAction::DownvotePost), Ok(()));
    assert_eq!(m.post(P).unwrap().score, -3);
    assert_eq!(m.space(SPACE).unwrap().score, -3);
    assert_eq!(m.reputation(O), 1);
    assert_eq!(m.post_score_by_account(X, P, ScoringAction::UpvotePost), None);
    assert_eq!(m.post_score_by_account(X, P, ScoringAction::DownvotePost), Some(-3));
    assert_eq!(m.account_reputation_diff_by_account(X, O, ScoringAction::UpvotePost), None);
    assert_eq!(m.account_reputation_diff_by_account(X, O, ScoringAction::DownvotePost), Some(0));

    let mut clean = store();
    clean.change_post_score_by_extension(X, P, ScoringAction::DownvotePost).unwrap();
    assert_eq!(clean.post(P), m.post(P));
    assert_eq!(clean.space(SPACE), m.space(SPACE));
    assert_eq!(clean.reputation(O), m.reputation(O));
}

#[test]
fn comment_downvote_replaces_upvote() {
    let mut m = store();
    m.put_reputation(A, 10);
    m.change_post_score_by_extension(X, K, ScoringAction::UpvoteComment).unwrap();
    assert_eq!(m.post(K).unwrap().score, 4);
    assert_eq!(m.reputation(A), 14);
    m.change_post_score_by_extension(X, K, ScoringAction::DownvoteComment).unwrap();
    assert_eq!(m.post(K).unwrap().score, -2);
    assert_eq!(m.reputation(A), 8);
    assert_eq!(m.post_score_by_account(X, K, ScoringAction::UpvoteComment), None);
    assert_eq!(m.post_score_by_account(X, K, ScoringAction::DownvoteComment), Some(-2));
}

#[test]
fn self_action_changes_nothing() {
    let mut m = store();
    assert_eq!(m.change_post_score_by_extension(O, P, ScoringAction::UpvotePost), Ok(()));
    assert_eq!(m.post(P).unwrap().score, 0);
    assert_eq!(m.space(SPACE).unwrap().score, 0);
    assert_eq!(m.reputation(O), 1);
    assert_eq!(m.post_score_by_account(O, P, ScoringAction::UpvotePost), None);
    assert_eq!(m.event_count(), 0);
    assert_eq!(m.change_post_score_by_extension(A, K, ScoringAction::CreateComment), Ok(()));
    assert_eq!(m.post(K).unwrap().score, 0);
    assert_eq!(m.post(P).unwrap().score, 0);
}

#[test]
fn comment_creation_reaches_root_post() {
    let mut m = store();
    m.put_reputation(X, 4);
    assert_eq!(m.change_post_score_by_extension(X, K, ScoringAction::CreateComment), Ok(()));
    assert_eq!(m.post(K).unwrap().score, 6);
    assert_eq!(m.post(P).unwrap().score, 6);
    assert_eq!(m.space(SPACE).unwrap().score, 6);
    assert_eq!(m.reputation(A), 7);
    assert_eq!(m.reputation(O), 7);
    assert_eq!(m.post_score_by_account(X, K, ScoringAction::CreateComment), Some(6));
    assert_eq!(m.post_score_by_account(X, P, ScoringAction::CreateComment), Some(6));
    assert_eq!(m.event_count(), 2);
}

#[test]
fn repeated_comment_vote_restores() {
    let mut m = store();
    m.put_reputation(A, 3);
    m.change_post_score_by_extension(X, K, ScoringAction::ShareComment).unwrap();
    assert_eq!(m.post(K).unwrap().score, 3);
    assert_eq!(m.reputation(A), 6);
    m.change_post_score_by_extension(X, K, ScoringAction::ShareComment).unwrap();
    assert_eq!(m.post(K).unwrap().score, 0);
    assert_eq!(m.reputation(A), 3);
    assert_eq!(m.post_score_by_account(X, K, ScoringAction::ShareComment), None);
    assert_eq!(m.account_reputation_diff_by_account(X, A, ScoringAction::ShareComment), None);
}

#[test]
fn reputation_never_below_one() {
    let mut m = store();
    m.put_reputation(O, 2);
    assert_eq!(m.change_social_account_reputation(O, X, -100, ScoringAction::FollowAccount), Ok(()));
    assert_eq!(m.reputation(O), 1);
    assert_eq!(m.account_reputation_diff_by_account(X, O, ScoringAction::FollowAccount), Some(0));
    assert_eq!(m.change_social_account_reputation(O, X, 0, ScoringAction::FollowAccount), Ok(()));
    assert_eq!(m.reputation(O), 1);
    assert_eq!(m.account_reputation_diff_by_account(X, O, ScoringAction::FollowAccount), None);
    m.change_post_score_by_extension(X, P, ScoringAction::DownvotePost).unwrap();
    assert_eq!(m.reputation(O), 1);
}

#[test]
fn follow_toggles_reputation_record() {
    let mut m = store();
    assert_eq!(m.change_social_account_reputation(O, X, 2, ScoringAction::FollowAccount), Ok(()));
    assert_eq!(m.reputation(O), 3);
    assert_eq!(m.account_reputation_diff_by_account(X, O, ScoringAction::FollowAccount), Some(2));
    let e = m.event(0);
    assert_eq!((e.account, e.action, e.reputation), (O, ScoringAction::FollowAccount, 3));
    assert_eq!(m.change_social_account_reputation(O, X, -2, ScoringAction::FollowAccount), Ok(()));
    assert_eq!(m.reputation(O), 1);
    assert_eq!(m.account_reputation_diff_by_account(X, O, ScoringAction::FollowAccount), None);
    assert_eq!(m.event_count(), 2);
}

#[test]
fn missing_post_or_space_is_refused() {
    let mut m = store();
    assert_eq!(
        m.change_post_score_by_extension(X, 999, ScoringAction::UpvotePost),
        Err(Error::PostNotFound)
    );
    let mut lone = post(300, O);
    lone.space_id = Some(77);
    m.put_post(lone);
    assert_eq!(
        m.change_post_score_by_extension(X, 300, ScoringAction::UpvotePost),
        Err(Error::SpaceNotFound)
    );
    m.put_post(comment(400, A, 999));
    assert_eq!(
        m.change_post_score_by_extension(X, 400, ScoringAction::CreateComment),
        Err(Error::PostNotFound)
    );
    assert_eq!(m.post(400).unwrap().score, 0);
}

#[test]
fn comment_under_comment_root_is_refused() {
    let mut m = store();
    m.put_post(comment(401, A, K));
    assert_eq!(
        m.change_post_score_by_extension(X, 401, ScoringAction::CreateComment),
        Err(Error::PostIsAComment)
    );
}

#[test]
fn shared_reputation_record_gives_diff_not_found() {
    let mut m = store();
    m.change_post_score_by_extension(X, P, ScoringAction::UpvotePost).unwrap();
    m.change_post_score_by_extension(X, P2, ScoringAction::UpvotePost).unwrap();
    assert_eq!(m.account_reputation_diff_by_account(X, O, ScoringAction::UpvotePost), None);
    let before = m.post(P);
    assert_eq!(
        m.change_post_score_by_extension(X, P, ScoringAction::UpvotePost),
        Err(Error::ReputationDiffNotFound)
    );
    assert_eq!(m.post(P), before);
}

#[test]
fn score_bounds_are_checked() {
    let mut m = store();
    let mut high = post(P, O);
    high.score = i32::MAX - 1;
    m.put_post(high);
    assert_eq!(
        m.change_post_score_by_extension(X, P, ScoringAction::UpvotePost),
        Err(Error::PostScoreOverflow)
    );
    m.put_post(post(P, O));
    m.put_space(Space { id: SPACE, score: i32::MAX - 1 });
    assert_eq!(
        m.change_post_score_by_extension(X, P, ScoringAction::UpvotePost),
        Err(Error::SpaceScoreOverflow)
    );
    let mut k = comment(K, A, P);
    k.score = i32::MAX;
    m.put_post(k);
    assert_eq!(
        m.change_post_score_by_extension(X, K, ScoringAction::UpvoteComment),
        Err(Error::CommentScoreOverflow)
    );
}

#[test]
fn score_underflow_on_reversal() {
    let mut m = store();
    m.change_post_score_by_extension(X, P, ScoringAction::UpvotePost).unwrap();
    let mut low = m.post(P).unwrap();
    low.score = i32::MIN + 2;
    m.put_post(low);
    assert_eq!(
        m.change_post_score_by_extension(X, P, ScoringAction::UpvotePost),
        Err(Error::PostScoreUnderflow)
    );
    m.put_post(post(P, O));
    m.put_space(Space { id: SPACE, score: i32::MIN });
    assert_eq!(
        m.change_post_score_by_extension(X, P, ScoringAction::UpvotePost),
        Err(Error::SpaceScoreUnderflow)
    );
    m.change_post_score_by_extension(X, K, ScoringAction::UpvoteComment).unwrap();
    let mut kl = m.post(K).unwrap();
    kl.score = i32::MIN;
    m.put_post(kl);
    assert_eq!(
        m.change_post_score_by_extension(X, K, ScoringAction::UpvoteComment),
        Err(Error::CommentScoreUnderflow)
    );
}

#[test]
fn reaction_maps_to_action() {
    let c = PostExtension::Comment(Comment { parent_id: None, root_post_id: P });
    let f = Module::scoring_action_by_post_extension;
    assert_eq!(f(PostExtension::RegularPost, ReactionKind::Upvote, false), ScoringAction::UpvotePost);
    assert_eq!(f(PostExtension::RegularPost, ReactionKind::Upvote, true), ScoringAction::DownvotePost);
    assert_eq!(f(PostExtension::SharedPost(P), ReactionKind::Downvote, false), ScoringAction::DownvotePost);
    assert_eq!(f(PostExtension::SharedPost(P), ReactionKind::Downvote, true), ScoringAction::UpvotePost);
    assert_eq!(f(c, ReactionKind::Upvote, false), ScoringAction::UpvoteComment);
    assert_eq!(f(c, ReactionKind::Upvote, true), ScoringAction::DownvoteComment);
    assert_eq!(f(c, ReactionKind::Downvote, false), ScoringAction::DownvoteComment);
    assert_eq!(f(c, ReactionKind::Downvote, true), ScoringAction::UpvoteComment);
}

#[test]
fn default_action_is_follow_account() {
    assert_eq!(ScoringAction::default(), ScoringAction::FollowAccount);
}

#[test]
fn weights_validity() {
    assert!(weights().is_valid());
    let mut w = weights();
    w.downvote_comment = -1024;
    assert!(!w.is_valid());
    w.downvote_comment = 1023;
    assert!(w.is_valid());
}
