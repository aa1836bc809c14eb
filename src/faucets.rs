//! A faucet registry: accounts allowed to drip bounded amounts of tokens to
//! recipients, per drop and per period. Balances and transfers belong to the
//! caller; this module keeps the settings and the drip records and decides
//! what is allowed.
use crate::table::{Table, TableKey};
use vstd::prelude::*;

verus! {

/// How much a faucet may give: per period (`None`: no period, the limit is
/// for all time) and per drop.
#[derive(Clone, Copy, Debug, PartialEq, Eq, Structural)]
pub struct FaucetSettings {
    pub period: Option<u64>,
    pub period_limit: u128,
    pub drop_limit: u128,
}

/// New values for some of a faucet's settings.
#[derive(Clone, Copy, Debug, PartialEq, Eq, Structural)]
pub struct FaucetSettingsUpdate {
    pub period: Option<Option<u64>>,
    pub period_limit: Option<u128>,
    pub drop_limit: Option<u128>,
}

/// What a recipient has been given in the current period, and when the
/// period was last restarted.
#[derive(Clone, Copy, Debug, PartialEq, Eq, Structural)]
pub struct Drop {
    pub id: u64,
    pub last_drop_at: u64,
    pub total_dropped: u128,
}

impl Drop {
    /// A drop with nothing given yet, started at block `now`.
    pub fn new(id: u64, now: u64) -> (r: Drop)
        ensures
            r == (Drop { id, last_drop_at: now, total_dropped: 0 }),
    {
        Drop { id, last_drop_at: now, total_dropped: 0 }
    }
}

/// Why a faucet operation was refused.
#[derive(Clone, Copy, Debug, PartialEq, Eq, Structural)]
pub enum FaucetError {
    FaucetNotFound,
    FaucetAlreadyAdded,
    FaucetLimitReached,
    NoFaucetsProvided,
    NoFreeBalanceOnAccount,
    NothingToUpdate,
    ZeroAmount,
    DropAmountLimit,
}

/// A (faucet, recipient) pair.
#[derive(Clone, Copy, Debug, PartialEq, Eq, Structural)]
pub struct DropPair {
    pub faucet: u64,
    pub recipient: u64,
}

impl TableKey for DropPair {
    fn same_key(&self, other: &DropPair) -> (r: bool) {
        self.faucet == other.faucet && self.recipient == other.recipient
    }
}

/// The faucet records, as maps.
pub struct FaucetLedger {
    pub next_drop_id: u64,
    pub drops: Map<u64, Drop>,
    pub drop_id_by_recipient: Map<u64, u64>,
    pub settings: Map<u64, FaucetSettings>,
    pub totals: Map<DropPair, u128>,
}

pub open spec fn sat_sub_u64(a: u64, b: u64) -> u64 {
    if a >= b { (a - b) as u64 } else { 0 }
}

pub open spec fn sat_sub_u128(a: u128, b: u128) -> u128 {
    if a >= b { (a - b) as u128 } else { 0 }
}

pub open spec fn sat_add_u128(a: u128, b: u128) -> u128 {
    if a + b > u128::MAX { u128::MAX } else { (a + b) as u128 }
}

/// The recipient's drop, if it has one.
pub open spec fn recipient_drop(s: FaucetLedger, recipient: u64) -> Option<Drop> {
    if s.drop_id_by_recipient.contains_key(recipient) && s.drops.contains_key(
        s.drop_id_by_recipient[recipient],
    ) {
        Some(s.drops[s.drop_id_by_recipient[recipient]])
    } else {
        None
    }
}

/// What `faucet` has given `recipient` in all.
pub open spec fn total_of(s: FaucetLedger, faucet: u64, recipient: u64) -> u128 {
    let k = DropPair { faucet, recipient };
    if s.totals.contains_key(k) { s.totals[k] } else { 0 }
}

/// The recipient's drop as it stands before `amount` is added at block
/// `now`, or why the drip is refused: a zero amount, an unknown faucet, an
/// amount over the drop limit, or an amount over what is left of the period
/// limit. A new recipient gets a new drop; an old one whose period has
/// passed restarts it, with the total cleared when the faucet has a period.
pub open spec fn planned_drop(
    s: FaucetLedger,
    faucet: u64,
    amount: u128,
    recipient: u64,
    now: u64,
) -> Result<Drop, FaucetError> {
    if amount == 0 {
        Err(FaucetError::ZeroAmount)
    } else if !s.settings.contains_key(faucet) {
        Err(FaucetError::FaucetNotFound)
    } else if amount > s.settings[faucet].drop_limit {
        Err(FaucetError::DropAmountLimit)
    } else {
        let st = s.settings[faucet];
        let d = match recipient_drop(s, recipient) {
            None => Drop { id: s.next_drop_id, last_drop_at: now, total_dropped: 0 },
            Some(d0) => {
                let period = match st.period {
                    Some(p) => p,
                    None => 0,
                };
                if sat_sub_u64(now, period) >= d0.last_drop_at {
                    Drop {
                        last_drop_at: now,
                        total_dropped: if st.period is Some { 0 } else { d0.total_dropped },
                        ..d0
                    }
                } else {
                    d0
                }
            },
        };
        if sat_sub_u128(st.period_limit, d.total_dropped) < amount {
            Err(FaucetError::FaucetLimitReached)
        } else {
            Ok(d)
        }
    }
}

/// The records after `faucet` gave `amount` to `recipient` on drop `d`.
pub open spec fn dripped(s: FaucetLedger, faucet: u64, amount: u128, recipient: u64, d: Drop) -> FaucetLedger {
    FaucetLedger {
        next_drop_id: if recipient_drop(s, recipient) is None { (s.next_drop_id + 1) as u64 } else { s.next_drop_id },
        drops: s.drops.insert(d.id, Drop { total_dropped: sat_add_u128(d.total_dropped, amount), ..d }),
        drop_id_by_recipient: s.drop_id_by_recipient.insert(recipient, d.id),
        settings: s.settings,
        totals: s.totals.insert(DropPair { faucet, recipient }, sat_add_u128(total_of(s, faucet, recipient), amount)),
    }
}

/// The settings after an update, and whether any of them changed.
pub open spec fn updated_settings(st: FaucetSettings, u: FaucetSettingsUpdate) -> (FaucetSettings, bool) {
    let period = match u.period { Some(p) => p, None => st.period };
    let period_limit = match u.period_limit { Some(p) => p, None => st.period_limit };
    let drop_limit = match u.drop_limit { Some(p) => p, None => st.drop_limit };
    let changed = period != st.period || period_limit != st.period_limit || drop_limit != st.drop_limit;
    (FaucetSettings { period, period_limit, drop_limit }, changed)
}

/// `v` lists the registered faucets among `faucets`, each once, in
/// ascending order.
pub open spec fn removal_list(s: FaucetLedger, faucets: Seq<u64>, v: Seq<u64>) -> bool {
    &&& forall|a: int, b: int| 0 <= a < b < v.len() ==> v[a] < v[b]
    &&& forall|x: u64| v.contains(x) <==> (faucets.contains(x) && s.settings.contains_key(x))
}

/// `t` is `s` without the settings of the faucets listed.
pub open spec fn settings_removed(s: FaucetLedger, t: FaucetLedger, faucets: Seq<u64>) -> bool {
    &&& t.next_drop_id == s.next_drop_id
    &&& t.drops == s.drops
    &&& t.drop_id_by_recipient == s.drop_id_by_recipient
    &&& t.totals == s.totals
    &&& forall|f: u64| #[trigger] t.settings.contains_key(f) <==> s.settings.contains_key(f) && !faucets.contains(f)
    &&& forall|f: u64| #[trigger] t.settings.contains_key(f) ==> t.settings[f] == s.settings[f]
}

/// A prefix one longer holds what the shorter one holds and the next item.
pub proof fn lemma_prefix_contains(s: Seq<u64>, i: int)
    requires
        0 <= i < s.len(),
    ensures
        forall|x: u64| #![trigger s.subrange(0, i + 1).contains(x)] #![trigger s.subrange(0, i).contains(x)]
            s.subrange(0, i + 1).contains(x) <==> (s.subrange(0, i).contains(x) || x == s[i]),
{
    assert forall|x: u64| s.subrange(0, i + 1).contains(x) <==> (s.subrange(0, i).contains(x) || x == s[i]) by {
        if s.subrange(0, i + 1).contains(x) {
            let k = choose|k: int| 0 <= k < i + 1 && #[trigger] s.subrange(0, i + 1)[k] == x;
            if k < i {
                assert(s.subrange(0, i)[k] == x);
            }
        }
        if s.subrange(0, i).contains(x) {
            let k = choose|k: int| 0 <= k < i && #[trigger] s.subrange(0, i)[k] == x;
            assert(s.subrange(0, i + 1)[k] == x);
        }
        if x == s[i] {
            assert(s.subrange(0, i + 1)[i] == x);
        }
    }
}

/// The faucet registry and its drip records.
pub struct Module {
    next_drop_id: u64,
    drops: Table<u64, Drop>,
    drop_id_by_recipient: Table<u64, u64>,
    settings: Table<u64, FaucetSettings>,
    totals: Table<DropPair, u128>,
}

impl Module {
    pub closed spec fn view(&self) -> FaucetLedger {
        FaucetLedger {
            next_drop_id: self.next_drop_id,
            drops: self.drops@,
            drop_id_by_recipient: self.drop_id_by_recipient@,
            settings: self.settings@,
            totals: self.totals@,
        }
    }

    pub closed spec fn wf(&self) -> bool {
        &&& self.drops.wf()
        &&& self.drop_id_by_recipient.wf()
        &&& self.settings.wf()
        &&& self.totals.wf()
    }

    /// An empty registry whose first drop gets id one.
    pub fn new() -> (r: Module)
        ensures
            r.wf(),
            r@.next_drop_id == 1,
            r@.drops.is_empty(),
            r@.drop_id_by_recipient.is_empty(),
            r@.settings.is_empty(),
            r@.totals.is_empty(),
    {
        Module {
            next_drop_id: 1,
            drops: Table::new(),
            drop_id_by_recipient: Table::new(),
            settings: Table::new(),
            totals: Table::new(),
        }
    }

    /// The settings of a faucet, or `FaucetNotFound`.
    pub fn require_faucet_settings(&self, faucet: u64) -> (r: Result<FaucetSettings, FaucetError>)
        requires
            self.wf(),
        ensures
            r == (if self@.settings.contains_key(faucet) {
                Ok(self@.settings[faucet])
            } else {
                Err(FaucetError::FaucetNotFound)
            }),
    {
        match self.settings.get(&faucet) {
            Some(s) => Ok(s),
            None => Err(FaucetError::FaucetNotFound),
        }
    }

    /// Registers a faucet whose free balance (`free_balance`) is at least
    /// the existential minimum (`minimum_balance`).
    pub fn add_faucet(
        &mut self,
        faucet: u64,
        settings: FaucetSettings,
        free_balance: u128,
        minimum_balance: u128,
    ) -> (r: Result<(), FaucetError>)
        requires
            old(self).wf(),
        ensures
            final(self).wf(),
            old(self)@.settings.contains_key(faucet) ==> r == Err::<(), FaucetError>(FaucetError::FaucetAlreadyAdded),
            !old(self)@.settings.contains_key(faucet) && free_balance < minimum_balance
                ==> r == Err::<(), FaucetError>(FaucetError::NoFreeBalanceOnAccount),
            !old(self)@.settings.contains_key(faucet) && free_balance >= minimum_balance ==> r is Ok,
            r is Ok ==> final(self)@ == (FaucetLedger {
                settings: old(self)@.settings.insert(faucet, settings),
                ..old(self)@
            }),
            r is Err ==> *final(self) == *old(self),
    {
        if self.settings.contains(&faucet) {
            return Err(FaucetError::FaucetAlreadyAdded);
        }
        if free_balance < minimum_balance {
            return Err(FaucetError::NoFreeBalanceOnAccount);
        }
        self.settings.insert(faucet, settings);
        Ok(())
    }

    /// Changes the settings that `update` names; refused when it names
    /// none, when the faucet is unknown, or when nothing would change.
    pub fn update_faucet(&mut self, faucet: u64, update: FaucetSettingsUpdate) -> (r: Result<(), FaucetError>)
        requires
            old(self).wf(),
        ensures
            final(self).wf(),
            r == (if update.period is None && update.period_limit is None && update.drop_limit is None {
                Err(FaucetError::NothingToUpdate)
            } else if !old(self)@.settings.contains_key(faucet) {
                Err(FaucetError::FaucetNotFound)
            } else if !updated_settings(old(self)@.settings[faucet], update).1 {
                Err(FaucetError::NothingToUpdate)
            } else {
                Ok(())
            }),
            r is Ok ==> final(self)@ == (FaucetLedger {
                settings: old(self)@.settings.insert(faucet, updated_settings(old(self)@.settings[faucet], update).0),
                ..old(self)@
            }),
            r is Err ==> *final(self) == *old(self),
    {
        if update.period.is_none() && update.period_limit.is_none() && update.drop_limit.is_none() {
            return Err(FaucetError::NothingToUpdate);
        }
        let mut settings = match self.require_faucet_settings(faucet) {
            Ok(s) => s,
            Err(e) => return Err(e),
        };
        let mut should_update = false;
        if let Some(period) = update.period {
            if period != settings.period {
                settings.period = period;
                should_update = true;
            }
        }
        if let Some(period_limit) = update.period_limit {
            if period_limit != settings.period_limit {
                settings.period_limit = period_limit;
                should_update = true;
            }
        }
        if let Some(drop_limit) = update.drop_limit {
            if drop_limit != settings.drop_limit {
                settings.drop_limit = drop_limit;
                should_update = true;
            }
        }
        if should_update {
            self.settings.insert(faucet, settings);
            return Ok(());
        }
        Err(FaucetError::NothingToUpdate)
    }

    /// The recipient's drop as it stands before `amount` is added at block
    /// `now`, or why `faucet` may not give `amount` (see `planned_drop`).
    /// Nothing changes; the transfer is to be made only when this is `Ok`.
    pub fn plan_drip(&self, faucet: u64, amount: u128, recipient: u64, now: u64) -> (r: Result<Drop, FaucetError>)
        requires
            self.wf(),
        ensures
            r == planned_drop(self@, faucet, amount, recipient, now),
    {
        if amount == 0 {
            return Err(FaucetError::ZeroAmount);
        }
        let settings = match self.require_faucet_settings(faucet) {
            Ok(s) => s,
            Err(e) => return Err(e),
        };
        if amount > settings.drop_limit {
            return Err(FaucetError::DropAmountLimit);
        }
        let maybe_drop = match self.drop_id_by_recipient.get(&recipient) {
            Some(id) => self.drops.get(&id),
            None => None,
        };
        let drop = match maybe_drop {
            None => Drop::new(self.next_drop_id, now),
            Some(d0) => {
                let mut d = d0;
                let period = match settings.period {
                    Some(p) => p,
                    None => 0,
                };
                let last_period_update = now.saturating_sub(period);
                if last_period_update >= d.last_drop_at {
                    d.last_drop_at = now;
                    if settings.period.is_some() {
                        d.total_dropped = 0;
                    }
                }
                d
            },
        };
        let amount_allowed = settings.period_limit.saturating_sub(drop.total_dropped);
        if amount_allowed < amount {
            return Err(FaucetError::FaucetLimitReached);
        }
        Ok(drop)
    }

    /// Records that `faucet` gave `amount` to `recipient` at block `now`, or
    /// refuses as `plan_drip` does (then nothing changes).
    pub fn drip(&mut self, faucet: u64, amount: u128, recipient: u64, now: u64) -> (r: Result<(), FaucetError>)
        requires
            old(self).wf(),
            old(self)@.next_drop_id < u64::MAX,
        ensures
            final(self).wf(),
            match planned_drop(old(self)@, faucet, amount, recipient, now) {
                Ok(d) => r is Ok && final(self)@ == dripped(old(self)@, faucet, amount, recipient, d),
                Err(e) => r == Err::<(), FaucetError>(e) && *final(self) == *old(self),
            },
    {
        let is_new_drop = match self.drop_id_by_recipient.get(&recipient) {
            Some(id) => !self.drops.contains(&id),
            None => true,
        };
        let mut drop = match self.plan_drip(faucet, amount, recipient, now) {
            Ok(d) => d,
            Err(e) => return Err(e),
        };
        drop.total_dropped = drop.total_dropped.saturating_add(amount);
        let pair = DropPair { faucet, recipient };
        let total = match self.totals.get(&pair) {
            Some(t) => t,
            None => 0,
        };
        self.totals.insert(pair, total.saturating_add(amount));
        self.drop_id_by_recipient.insert(recipient, drop.id);
        self.drops.insert(drop.id, drop);
        if is_new_drop {
            self.next_drop_id = self.next_drop_id + 1;
        }
        Ok(())
    }

    /// The registered faucets among `faucets`, each once, in ascending
    /// order: the ones whose balances go back to the root account and whose
    /// settings `remove_faucets` deletes. Refused for an empty list.
    pub fn faucets_to_remove(&self, faucets: &Vec<u64>) -> (r: Result<Vec<u64>, FaucetError>)
        requires
            self.wf(),
        ensures
            faucets@.len() == 0 <==> r == Err::<Vec<u64>, FaucetError>(FaucetError::NoFaucetsProvided),
            r is Err ==> r == Err::<Vec<u64>, FaucetError>(FaucetError::NoFaucetsProvided),
            r is Ok ==> removal_list(self@, faucets@, r->Ok_0@),
    {
        if faucets.len() == 0 {
            return Err(FaucetError::NoFaucetsProvided);
        }
        let mut out: Vec<u64> = Vec::new();
        let mut i: usize = 0;
        while i < faucets.len()
            invariant
                self.wf(),
                i <= faucets@.len(),
                forall|a: int, b: int| 0 <= a < b < out@.len() ==> out@[a] < out@[b],
                forall|x: u64|
                    out@.contains(x) <==> (faucets@.subrange(0, i as int).contains(x)
                        && self@.settings.contains_key(x)),
            decreases faucets@.len() - i,
        {
            let f = faucets[i];
            let ghost before = out@;
            proof {
                lemma_prefix_contains(faucets@, i as int);
            }
            if self.settings.contains(&f) {
                let mut j: usize = 0;
                while j < out.len() && out[j] < f
                    invariant
                        j <= out@.len(),
                        out@ == before,
                        i < faucets@.len(),
                        f == faucets@[i as int],
                        self@.settings.contains_key(f),
                        forall|a: int| 0 <= a < j ==> out@[a] < f,
                    decreases out@.len() - j,
                {
                    j = j + 1;
                }
                if j == out.len() || out[j] != f {
                    let ghost prev = out@;
                    out.insert(j, f);
                    assert forall|a: int, b: int| 0 <= a < b < out@.len() implies out@[a] < out@[b] by {
                        if b < j {
                        } else if b == j {
                        } else if a < j {
                            assert(out@[b] == prev[b - 1]);
                        } else if a == j {
                            assert(out@[b] == prev[b - 1]);
                            if j < prev.len() {
                                assert(prev[j as int] > f);
                                if b - 1 > j {
                                    assert(prev[j as int] < prev[b - 1]);
                                }
                            }
                        } else {
                            assert(out@[a] == prev[a - 1]);
                            assert(out@[b] == prev[b - 1]);
                        }
                    }
                    assert forall|x: u64| out@.contains(x) <==> (prev.contains(x) || x == f) by {
                        if out@.contains(x) {
                            let k = choose|k: int| 0 <= k < out@.len() && out@[k] == x;
                            if k < j {
                                assert(prev[k] == x);
                            } else if k > j {
                                assert(prev[k - 1] == x);
                            }
                        }
                        if prev.contains(x) {
                            let k = choose|k: int| 0 <= k < prev.len() && prev[k] == x;
                            if k < j {
                                assert(out@[k] == x);
                            } else {
                                assert(out@[k + 1] == x);
                            }
                        }
                        if x == f {
                            assert(out@[j as int] == x);
                        }
                    }
                } else {
                    assert(out@[j as int] == f);
                    assert(out@.contains(f));
                    assert forall|x: u64| out@.contains(x) <==> (before.contains(x) || x == f) by {}
                }
            }
            proof {
                lemma_prefix_contains(faucets@, i as int);
            }
            assert forall|x: u64|
                out@.contains(x) <==> (faucets@.subrange(0, i + 1).contains(x)
                    && self@.settings.contains_key(x)) by {
                assert(f == faucets@[i as int]);
                lemma_prefix_contains(faucets@, i as int);
                assert(before.contains(x) <==> (faucets@.subrange(0, i as int).contains(x) && self@.settings.contains_key(x)));
                if self@.settings.contains_key(f) {
                    assert(out@.contains(x) <==> (before.contains(x) || x == f));
                } else {
                    assert(out@ == before);
                }
                assert(faucets@.subrange(0, i + 1).contains(x) <==> (faucets@.subrange(0, i as int).contains(x) || x == f));
            }
            i = i + 1;
        }
        assert(faucets@.subrange(0, faucets@.len() as int) =~= faucets@);
        Ok(out)
    }

    /// Deletes the settings of the registered faucets among `faucets` and
    /// returns them as `faucets_to_remove` does; refused for an empty list.
    pub fn remove_faucets(&mut self, faucets: &Vec<u64>) -> (r: Result<Vec<u64>, FaucetError>)
        requires
            old(self).wf(),
        ensures
            final(self).wf(),
            faucets@.len() == 0 <==> r == Err::<Vec<u64>, FaucetError>(FaucetError::NoFaucetsProvided),
            r is Err ==> r == Err::<Vec<u64>, FaucetError>(FaucetError::NoFaucetsProvided) && *final(self) == *old(self),
            r is Ok ==> removal_list(old(self)@, faucets@, r->Ok_0@) && settings_removed(old(self)@, final(self)@, faucets@),
    {
        let list = match self.faucets_to_remove(faucets) {
            Ok(l) => l,
            Err(e) => return Err(e),
        };
        let ghost start = self@;
        let mut i: usize = 0;
        while i < faucets.len()
            invariant
                self.wf(),
                i <= faucets@.len(),
                settings_removed(start, self@, faucets@.subrange(0, i as int)),
            decreases faucets@.len() - i,
        {
            proof {
                lemma_prefix_contains(faucets@, i as int);
            }
            let ghost mid = self@;
            self.settings.remove(&faucets[i]);
            proof {
                let f = faucets@[i as int];
                assert forall|g: u64| #[trigger] self@.settings.contains_key(g) <==> start.settings.contains_key(g)
                    && !faucets@.subrange(0, i + 1).contains(g) by {
                    assert(faucets@.subrange(0, i + 1).contains(g) <==> (faucets@.subrange(0, i as int).contains(g) || g == f));
                    assert(mid.settings.contains_key(g) <==> start.settings.contains_key(g) && !faucets@.subrange(0, i as int).contains(g));
                }
                assert forall|g: u64| #[trigger] self@.settings.contains_key(g) implies self@.settings[g] == start.settings[g] by {
                    assert(mid.settings.contains_key(g));
                }
            }
            i = i + 1;
        }
        proof {
            assert(faucets@.subrange(0, faucets@.len() as int) =~= faucets@);
        }
        Ok(list)
    }

    /// The id that the next new drop gets.
    pub fn next_drop_id(&self) -> (r: u64)
        ensures
            r == self@.next_drop_id,
    {
        self.next_drop_id
    }

    /// The drop with this id.
    pub fn drop_by_id(&self, id: u64) -> (r: Option<Drop>)
        requires
            self.wf(),
        ensures
            r == (if self@.drops.contains_key(id) { Some(self@.drops[id]) } else { None }),
    {
        self.drops.get(&id)
    }

    /// The id of the recipient's drop.
    pub fn drop_id_by_recipient(&self, recipient: u64) -> (r: Option<u64>)
        requires
            self.wf(),
        ensures
            r == (if self@.drop_id_by_recipient.contains_key(recipient) {
                Some(self@.drop_id_by_recipient[recipient])
            } else {
                None
            }),
    {
        self.drop_id_by_recipient.get(&recipient)
    }

    /// What `faucet` has given `recipient` in all.
    pub fn total_faucet_drops_by_account(&self, recipient: u64, faucet: u64) -> (r: u128)
        requires
            self.wf(),
        ensures
            r == total_of(self@, faucet, recipient),
    {
        match self.totals.get(&DropPair { faucet, recipient }) {
            Some(t) => t,
            None => 0,
        }
    }
}

} // verus!
