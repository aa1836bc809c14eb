//! Laws of the scoring engine, proved over the model.
use crate::model::{
    action_effect, comment_addition, comment_reversal, ledger_wf, opposite_comment_action,
    opposite_post_action, post_addition, post_reversal, reputation_change, reputation_of,
    root_post_id, score_diff, set_post_score, set_space_score, touch, with_post_score, Ledger,
};
use crate::scores::Module;
use crate::smoothing::{lemma_smooth_bounds, smooth};
use crate::types::{ActionWeights, Error, RecordKey, ScoringAction};
use vstd::prelude::*;

verus! {

/// Every account's reputation is at least one in every well-formed store;
/// every operation of `Module` that changes the store keeps it well formed.
pub proof fn lemma_reputation_at_least_one(store: &Module, account: u64)
    requires
        store.wf(),
    ensures
        reputation_of(store@, account) >= 1,
{
    store.lemma_wf_floor(account);
}

/// An owner's action on their own post or comment changes no score, no
/// record and no reputation (a post whose space is missing is refused).
pub proof fn lemma_self_action_no_op(m: Ledger, account: u64, post_id: u64, action: ScoringAction)
    requires
        m.posts.contains_key(post_id),
        m.posts[post_id].owner == account,
    ensures
        match action_effect(m, account, post_id, action) {
            Ok(m2) => {
                &&& m2.posts == m.posts
                &&& m2.spaces == m.spaces
                &&& m2.post_scores == m.post_scores
                &&& m2.reputation_diffs == m.reputation_diffs
                &&& m2.events == m.events
                &&& forall|a: u64| reputation_of(m2, a) == reputation_of(m, a)
            },
            Err(e) => e == Error::SpaceNotFound,
        },
{
}

/// A vote on a post that holds the same account's opposite vote first takes
/// that vote back and then applies the new one as on a post without it: the
/// result is that of taking the old vote back (by repeating it) and then
/// voting, and no opposite vote stays outstanding.
pub proof fn lemma_opposite_post_vote_replaced(m: Ledger, account: u64, post_id: u64, action: ScoringAction)
    requires
        m.posts.contains_key(post_id),
        !m.posts[post_id].spec_is_comment(),
        opposite_post_action(action) is Some,
        m.post_scores.contains_key(
            RecordKey { account, target: post_id, action: opposite_post_action(action)->Some_0 },
        ),
        !m.post_scores.contains_key(RecordKey { account, target: post_id, action }),
    ensures
        ({
            let opp = opposite_post_action(action)->Some_0;
            action_effect(m, account, post_id, action) == match action_effect(m, account, post_id, opp) {
                Ok(m1) => action_effect(m1, account, post_id, action),
                Err(e) => Err(e),
            }
        }),
        ({
            let opp = opposite_post_action(action)->Some_0;
            match action_effect(m, account, post_id, opp) {
                Ok(m1) => m.posts[post_id].owner != account && m.posts[post_id].space_id is Some
                    ==> !m1.post_scores.contains_key(RecordKey { account, target: post_id, action: opp }),
                Err(_) => true,
            }
        }),
{
}

/// A vote on a comment that holds the same account's opposite vote first
/// takes that vote back and then applies the new one, as on posts.
pub proof fn lemma_opposite_comment_vote_replaced(m: Ledger, account: u64, comment_id: u64, action: ScoringAction)
    requires
        m.posts.contains_key(comment_id),
        m.posts[comment_id].spec_is_comment(),
        opposite_comment_action(action) is Some,
        m.post_scores.contains_key(
            RecordKey { account, target: comment_id, action: opposite_comment_action(action)->Some_0 },
        ),
        !m.post_scores.contains_key(RecordKey { account, target: comment_id, action }),
    ensures
        ({
            let opp = opposite_comment_action(action)->Some_0;
            action_effect(m, account, comment_id, action) == match action_effect(m, account, comment_id, opp) {
                Ok(m1) => action_effect(m1, account, comment_id, action),
                Err(e) => Err(e),
            }
        }),
        ({
            let opp = opposite_comment_action(action)->Some_0;
            match action_effect(m, account, comment_id, opp) {
                Ok(m1) => m.posts[comment_id].owner != account
                    ==> !m1.post_scores.contains_key(RecordKey { account, target: comment_id, action: opp }),
                Err(_) => true,
            }
        }),
{
}

/// A fresh comment creation by a stranger to both the comment and its root
/// post raises the comment's score, its root post's score and that post's
/// space's score, each by the level of the creator's reputation times the
/// weight of comment creation.
pub proof fn lemma_comment_creation_reaches_root(m: Ledger, account: u64, comment_id: u64)
    requires
        m.posts.contains_key(comment_id),
        m.posts[comment_id].spec_is_comment(),
        m.posts.contains_key(root_post_id(m.posts[comment_id])),
        !m.posts[root_post_id(m.posts[comment_id])].spec_is_comment(),
        m.posts[root_post_id(m.posts[comment_id])].space_id is Some,
        m.spaces.contains_key(m.posts[root_post_id(m.posts[comment_id])].space_id->Some_0),
        m.posts[comment_id].owner != account,
        m.posts[root_post_id(m.posts[comment_id])].owner != account,
        !m.post_scores.contains_key(
            RecordKey { account, target: comment_id, action: ScoringAction::CreateComment },
        ),
        !m.post_scores.contains_key(
            RecordKey {
                account,
                target: root_post_id(m.posts[comment_id]),
                action: ScoringAction::CreateComment,
            },
        ),
    ensures
        match action_effect(m, account, comment_id, ScoringAction::CreateComment) {
            Ok(m2) => {
                let root = root_post_id(m.posts[comment_id]);
                let space_id = m.posts[root].space_id->Some_0;
                let sd = score_diff(m.weights, reputation_of(m, account), ScoringAction::CreateComment);
                &&& m2.posts[comment_id].score == m.posts[comment_id].score + sd
                &&& m2.posts[root].score == m.posts[root].score + sd
                &&& m2.spaces[space_id].score == m.spaces[space_id].score + sd
            },
            Err(_) => true,
        },
{
    let root = root_post_id(m.posts[comment_id]);
    assert(root != comment_id);
}

/// Repeating an action undoes it: applied once to a post or comment where
/// the account has no outstanding record of it, no outstanding opposite
/// vote and no outstanding reputation record on the owner for it, and then
/// once more, it leaves every post, space, record and reputation as it
/// found them. This holds for actions of non-negative weight other than
/// comment creation (whose forwarding to the root post is not repeated).
pub proof fn lemma_repeat_restores(m: Ledger, account: u64, post_id: u64, action: ScoringAction)
    requires
        ledger_wf(m),
        m.posts.contains_key(post_id),
        action != ScoringAction::CreateComment,
        m.weights.weight(action) >= 0,
        !m.post_scores.contains_key(RecordKey { account, target: post_id, action }),
        opposite_post_action(action) is Some ==> !m.post_scores.contains_key(
            RecordKey { account, target: post_id, action: opposite_post_action(action)->Some_0 },
        ),
        opposite_comment_action(action) is Some ==> !m.post_scores.contains_key(
            RecordKey { account, target: post_id, action: opposite_comment_action(action)->Some_0 },
        ),
        !m.reputation_diffs.contains_key(RecordKey { account, target: m.posts[post_id].owner, action }),
    ensures
        match action_effect(m, account, post_id, action) {
            Ok(m1) => match action_effect(m1, account, post_id, action) {
                Ok(m2) => restored(m, m2),
                Err(_) => false,
            },
            Err(_) => true,
        },
{
    let post = m.posts[post_id];
    let m0 = touch(m, account);
    let rep = reputation_of(m0, account);
    lemma_score_diff_bounds(m.weights, rep, action);
    assert(ledger_wf(m0));
    assert(forall|a: u64| reputation_of(m0, a) == reputation_of(m, a));
    if post.owner == account {
        lemma_self_action_no_op(m, account, post_id, action);
        if let Ok(m1) = action_effect(m, account, post_id, action) {
            lemma_self_action_no_op(m1, account, post_id, action);
        }
    } else if post.spec_is_comment() {
        assert(action_effect(m, account, post_id, action) == comment_addition(m0, account, post_id, action, rep));
        if let Ok(m1) = comment_addition(m0, account, post_id, action, rep) {
            lemma_comment_step_undone(m0, account, post_id, action, rep);
            assert(m1.posts.contains_key(post_id) && m1.posts[post_id].spec_is_comment());
            assert(action_effect(m1, account, post_id, action) == comment_reversal(m1, account, post_id, action));
        }
    } else {
        match post.space_id {
            None => {},
            Some(space_id) => {
                if m0.spaces.contains_key(space_id) {
                    assert(action_effect(m, account, post_id, action) == post_addition(m0, account, post_id, space_id, action, rep));
                    if let Ok(m1) = post_addition(m0, account, post_id, space_id, action, rep) {
                        lemma_post_step_undone(m0, account, post_id, space_id, action, rep);
                        assert(m1.posts.contains_key(post_id) && !m1.posts[post_id].spec_is_comment());
                        assert(m1.posts[post_id].space_id == Some(space_id));
                        assert(action_effect(m1, account, post_id, action) == post_reversal(m1, account, post_id, space_id, action));
                    }
                }
            },
        }
    }
}

/// Two ledgers that agree on every post, space, record and reputation.
pub open spec fn restored(m: Ledger, m2: Ledger) -> bool {
    &&& m2.posts == m.posts
    &&& m2.spaces == m.spaces
    &&& m2.post_scores == m.post_scores
    &&& m2.reputation_diffs == m.reputation_diffs
    &&& forall|a: u64| reputation_of(m2, a) == reputation_of(m, a)
}

proof fn lemma_reputation_step_undone(m: Ledger, owner: u64, scorer: u64, d: i16, action: ScoringAction)
    requires
        ledger_wf(m),
        0 <= d <= 32 * 1023,
        !m.reputation_diffs.contains_key(RecordKey { account: scorer, target: owner, action }),
        reputation_change(m, owner, scorer, d, action) is Ok,
    ensures
        ({
            let m1 = reputation_change(m, owner, scorer, d, action)->Ok_0;
            let key = RecordKey { account: scorer, target: owner, action };
            &&& m1.reputation_diffs.contains_key(key)
            &&& 0 <= m1.reputation_diffs[key] <= d
            &&& reputation_change(m1, owner, scorer, (-m1.reputation_diffs[key]) as i16, action) is Ok
            &&& restored_reputation(m, reputation_change(m1, owner, scorer, (-m1.reputation_diffs[key]) as i16, action)->Ok_0)
        }),
{
    let m1 = reputation_change(m, owner, scorer, d, action)->Ok_0;
    let key = RecordKey { account: scorer, target: owner, action };
    if m.reputations.contains_key(owner) {
        assert(m.reputations[owner] >= 1);
    }
    let m2 = reputation_change(m1, owner, scorer, (-m1.reputation_diffs[key]) as i16, action)->Ok_0;
    assert(m2.reputation_diffs =~= m.reputation_diffs);
    assert forall|a: u64| reputation_of(m2, a) == reputation_of(m, a) by {
        if m.reputations.contains_key(a) {
            assert(m.reputations[a] >= 1);
        }
    }
}

/// Two ledgers that agree on every reputation and reputation record.
pub open spec fn restored_reputation(m: Ledger, m2: Ledger) -> bool {
    &&& m2.reputation_diffs == m.reputation_diffs
    &&& forall|a: u64| reputation_of(m2, a) == reputation_of(m, a)
}

proof fn lemma_post_step_undone(m: Ledger, account: u64, post_id: u64, space_id: u64, action: ScoringAction, rep: u32)
    requires
        ledger_wf(m),
        m.posts.contains_key(post_id),
        m.spaces.contains_key(space_id),
        m.weights.weight(action) >= 0,
        !m.post_scores.contains_key(RecordKey { account, target: post_id, action }),
        !m.reputation_diffs.contains_key(RecordKey { account, target: m.posts[post_id].owner, action }),
        post_addition(m, account, post_id, space_id, action, rep) is Ok,
    ensures
        ({
            let m1 = post_addition(m, account, post_id, space_id, action, rep)->Ok_0;
            &&& m1.posts.dom() == m.posts.dom()
            &&& m1.posts[post_id].extension == m.posts[post_id].extension
            &&& m1.posts[post_id].space_id == m.posts[post_id].space_id
            &&& m1.posts[post_id].owner == m.posts[post_id].owner
            &&& m1.spaces.dom() == m.spaces.dom()
            &&& m1.post_scores.contains_key(RecordKey { account, target: post_id, action })
            &&& m.reputations.contains_key(account) ==> m1.reputations.contains_key(account)
            &&& post_reversal(m1, account, post_id, space_id, action) is Ok
            &&& restored(m, post_reversal(m1, account, post_id, space_id, action)->Ok_0)
        }),
{
    let post = m.posts[post_id];
    let space = m.spaces[space_id];
    let sd = score_diff(m.weights, rep, action);
    lemma_score_diff_bounds(m.weights, rep, action);
    let ma = set_space_score(set_post_score(m, post_id, post.score + sd), space_id, space.score + sd);
    assert(ledger_wf(ma));
    lemma_reputation_step_undone(ma, post.owner, account, sd, action);
    let mr = reputation_change(ma, post.owner, account, sd, action)->Ok_0;
    let m1 = post_addition(m, account, post_id, space_id, action, rep)->Ok_0;
    let key = RecordKey { account, target: post_id, action };
    let dkey = RecordKey { account, target: post.owner, action };
    assert(m1 == with_post_score(mr, key, sd));
    assert(m1.posts.dom() =~= m.posts.dom());
    assert(m1.spaces.dom() =~= m.spaces.dom());
    assert(m1.post_scores[key] == sd);
    assert(m1.posts[post_id].score == post.score + sd);
    assert(m1.spaces[space_id].score == space.score + sd);
    let mb = set_space_score(set_post_score(m1, post_id, post.score as int), space_id, space.score as int);
    assert(mb.reputations == mr.reputations && mb.reputation_diffs == mr.reputation_diffs);
    assert(reputation_change(mb, post.owner, account, (-m1.reputation_diffs[dkey]) as i16, action) is Ok);
    assert(post_reversal(m1, account, post_id, space_id, action) is Ok);
    let m2 = post_reversal(m1, account, post_id, space_id, action)->Ok_0;
    let m2r = reputation_change(mr, post.owner, account, (-mr.reputation_diffs[dkey]) as i16, action)->Ok_0;
    assert(m2.reputations == m2r.reputations && m2.reputation_diffs == m2r.reputation_diffs);
    assert(m2.posts =~= m.posts);
    assert(m2.spaces =~= m.spaces);
    assert(m2.post_scores =~= m.post_scores);
}

proof fn lemma_comment_step_undone(m: Ledger, account: u64, comment_id: u64, action: ScoringAction, rep: u32)
    requires
        ledger_wf(m),
        m.posts.contains_key(comment_id),
        m.weights.weight(action) >= 0,
        !m.post_scores.contains_key(RecordKey { account, target: comment_id, action }),
        !m.reputation_diffs.contains_key(RecordKey { account, target: m.posts[comment_id].owner, action }),
        comment_addition(m, account, comment_id, action, rep) is Ok,
    ensures
        ({
            let m1 = comment_addition(m, account, comment_id, action, rep)->Ok_0;
            &&& m1.posts.dom() == m.posts.dom()
            &&& m1.posts[comment_id].extension == m.posts[comment_id].extension
            &&& m1.posts[comment_id].owner == m.posts[comment_id].owner
            &&& m1.post_scores.contains_key(RecordKey { account, target: comment_id, action })
            &&& m.reputations.contains_key(account) ==> m1.reputations.contains_key(account)
            &&& comment_reversal(m1, account, comment_id, action) is Ok
            &&& restored(m, comment_reversal(m1, account, comment_id, action)->Ok_0)
        }),
{
    let comment = m.posts[comment_id];
    let sd = score_diff(m.weights, rep, action);
    lemma_score_diff_bounds(m.weights, rep, action);
    let ma = set_post_score(m, comment_id, comment.score + sd);
    assert(ledger_wf(ma));
    lemma_reputation_step_undone(ma, comment.owner, account, sd, action);
    let mr = reputation_change(ma, comment.owner, account, sd, action)->Ok_0;
    let m1 = comment_addition(m, account, comment_id, action, rep)->Ok_0;
    let key = RecordKey { account, target: comment_id, action };
    let dkey = RecordKey { account, target: comment.owner, action };
    assert(m1 == with_post_score(mr, key, sd));
    assert(m1.posts.dom() =~= m.posts.dom());
    assert(m1.post_scores[key] == sd);
    assert(m1.posts[comment_id].score == comment.score + sd);
    let mb = set_post_score(m1, comment_id, comment.score as int);
    assert(mb.reputations == mr.reputations && mb.reputation_diffs == mr.reputation_diffs);
    assert(reputation_change(mb, comment.owner, account, (-m1.reputation_diffs[dkey]) as i16, action) is Ok);
    assert(comment_reversal(m1, account, comment_id, action) is Ok);
    let m2 = comment_reversal(m1, account, comment_id, action)->Ok_0;
    let m2r = reputation_change(mr, comment.owner, account, (-mr.reputation_diffs[dkey]) as i16, action)->Ok_0;
    assert(m2.reputations == m2r.reputations && m2.reputation_diffs == m2r.reputation_diffs);
    assert(m2.posts =~= m.posts);
    assert(m2.post_scores =~= m.post_scores);
}

/// A level times a weight in bounds fits 16 bits; it is non-negative for a
/// non-negative weight.
pub proof fn lemma_score_diff_bounds(w: ActionWeights, reputation: u32, action: ScoringAction)
    requires
        w.valid(),
    ensures
        score_diff(w, reputation, action) as int == smooth(reputation) as int * w.weight(action) as int,
        w.weight(action) >= 0 ==> score_diff(w, reputation, action) >= 0,
        score_diff(w, reputation, action) > i16::MIN,
        -32 * 1023 <= score_diff(w, reputation, action) <= 32 * 1023,
{
    lemma_smooth_bounds(reputation);
    let l = smooth(reputation) as int;
    let x = w.weight(action) as int;
    assert(-1023 <= x <= 1023);
    assert(-32 * 1023 <= l * x <= 32 * 1023) by (nonlinear_arith)
        requires
            1 <= l <= 32,
            -1023 <= x <= 1023,
    ;
    assert(x >= 0 ==> l * x >= 0) by (nonlinear_arith)
        requires
            1 <= l,
    ;
}

} // verus!
