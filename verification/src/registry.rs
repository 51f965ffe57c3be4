//! The worker registry and router: a mapping from model name to the ordered
//! list of workers loaded for that model, built once at startup, and a
//! strict round-robin selection among a model's workers on every route.
//!
//! Fairness of the policy is a proved law: over any `m` sequential routes
//! for one model with `n` workers, every worker slot is picked at least
//! `m / n` times.

use vstd::prelude::*;
use vstd::arithmetic::div_mod::{
    lemma_basic_div,
    lemma_div_plus_one,
    lemma_fundamental_div_mod,
    lemma_mod_bound,
    lemma_mod_multiples_vanish,
    lemma_small_mod,
};

verus! {

/// The workers registered under one model name, and the round-robin cursor
/// pointing at the slot the next request for this model goes to.
#[derive(Debug)]
pub struct RegistryEntry {
    pub name: String,
    pub workers: Vec<usize>,
    pub cursor: usize,
}

/// The registry: one entry per model name, built during startup and read
/// (except for the cursors) ever after.
#[derive(Debug)]
pub struct Registry {
    pub entries: Vec<RegistryEntry>,
}

/// The entry with its cursor advanced one step, wrapping around the worker
/// list.
pub open spec fn spec_advanced(e: RegistryEntry) -> RegistryEntry {
    RegistryEntry {
        cursor: (((e.cursor + 1) as int % e.workers@.len() as int) as usize),
        ..e
    }
}

impl Registry {
    /// Model names are distinct, every entry has at least one worker, and
    /// every cursor points at a worker slot.
    pub open spec fn wf(&self) -> bool {
        &&& forall|i: int, j: int| 0 <= i < j < self.entries@.len()
            ==> (#[trigger] self.entries@[i]).name@ != (#[trigger] self.entries@[j]).name@
        &&& forall|i: int| 0 <= i < self.entries@.len()
            ==> (#[trigger] self.entries@[i]).workers@.len() >= 1
        &&& forall|i: int| 0 <= i < self.entries@.len()
            ==> (#[trigger] self.entries@[i]).cursor < self.entries@[i].workers@.len()
    }

    /// Is some worker registered under this model name?
    pub open spec fn has_model(&self, name: Seq<char>) -> bool {
        exists|i: int| 0 <= i < self.entries@.len()
            && (#[trigger] self.entries@[i]).name@ == name
    }

    /// The index of the entry registered under this model name.
    pub open spec fn entry_index(&self, name: Seq<char>) -> int {
        choose|i: int| 0 <= i < self.entries@.len()
            && (#[trigger] self.entries@[i]).name@ == name
    }

    /// An empty registry.
    pub fn new() -> (r: Registry)
        ensures
            r.entries@.len() == 0,
            r.wf(),
    {
        Registry { entries: Vec::new() }
    }

    /// Registers one worker under a model name, appending to the model's
    /// list when the name is already present and opening a fresh entry
    /// otherwise. Called once per successfully initialized worker, during
    /// startup only.
    pub fn register(&mut self, name: String, worker: usize)
        requires
            old(self).wf(),
        ensures
            final(self).wf(),
            final(self).has_model(name@),
            old(self).has_model(name@) ==> {
                let i = old(self).entry_index(name@);
                &&& final(self).entries@.len() == old(self).entries@.len()
                &&& forall|k: int| 0 <= k < old(self).entries@.len() && k != i
                    ==> final(self).entries@[k] == old(self).entries@[k]
                &&& final(self).entries@[i].name@ == old(self).entries@[i].name@
                &&& final(self).entries@[i].workers@
                    =~= old(self).entries@[i].workers@.push(worker)
                &&& final(self).entries@[i].cursor == old(self).entries@[i].cursor
            },
            !old(self).has_model(name@) ==> {
                &&& final(self).entries@.len() == old(self).entries@.len() + 1
                &&& final(self).entries@.subrange(0, old(self).entries@.len() as int)
                    =~= old(self).entries@
                &&& final(self).entries@.last().name@ == name@
                &&& final(self).entries@.last().workers@ =~= seq![worker]
                &&& final(self).entries@.last().cursor == 0
            },
    {
        let n = self.entries.len();
        let mut j: usize = 0;
        while j < n
            invariant
                *self == *old(self),
                old(self).wf(),
                n == self.entries@.len(),
                j <= n,
                forall|k: int| 0 <= k < j ==> (#[trigger] self.entries@[k]).name@ != name@,
        decreases n - j,
        {
            if self.entries[j].name == name {
                proof {
                    assert(self.entries@[j as int].name@ == name@);
                    assert(old(self).has_model(name@));
                    assert(old(self).entry_index(name@) == j as int);
                }
                let mut e = self.entries.remove(j);
                e.workers.push(worker);
                self.entries.insert(j, e);
                proof {
                    assert(forall|k: int| 0 <= k < old(self).entries@.len() && k != j as int
                        ==> self.entries@[k] == old(self).entries@[k]);
                    assert(self.entries@[j as int].name@ == name@);
                }
                return;
            }
            j = j + 1;
        }
        let mut ws: Vec<usize> = Vec::new();
        ws.push(worker);
        self.entries.push(RegistryEntry { name, workers: ws, cursor: 0 });
        proof {
            assert(self.entries@.last().workers@ =~= seq![worker]);
            assert(self.entries@.subrange(0, old(self).entries@.len() as int)
                =~= old(self).entries@);
            assert(self.entries@.last().name@ == name@);
        }
    }

    /// Routes one request: picks the worker the model's cursor points at and
    /// advances the cursor one step, wrapping around the list, so that
    /// sequential requests for one model fan out over its workers in strict
    /// round-robin order. An unknown model name yields no worker and changes
    /// nothing.
    pub fn route(&mut self, name: &String) -> (r: Option<usize>)
        requires
            old(self).wf(),
        ensures
            final(self).wf(),
            r is Some <==> old(self).has_model(name@),
            !old(self).has_model(name@) ==> *final(self) == *old(self),
            old(self).has_model(name@) ==> {
                let i = old(self).entry_index(name@);
                let e = old(self).entries@[i];
                &&& r == Some(e.workers@[e.cursor as int])
                &&& final(self).entries@ =~= old(self).entries@.update(i, spec_advanced(e))
            },
    {
        let n = self.entries.len();
        let mut j: usize = 0;
        while j < n
            invariant
                *self == *old(self),
                n == self.entries@.len(),
                j <= n,
                forall|k: int| 0 <= k < j ==> (#[trigger] self.entries@[k]).name@ != name@,
                self.wf(),
        decreases n - j,
        {
            if self.entries[j].name == *name {
                proof {
                    assert(self.entries@[j as int].name@ == name@);
                    assert(old(self).has_model(name@));
                    assert(old(self).entry_index(name@) == j as int);
                }
                let e = self.entries.remove(j);
                let count = e.workers.len();
                let sel = e.workers[e.cursor];
                let next = (e.cursor + 1) % count;
                let moved = RegistryEntry { cursor: next, ..e };
                self.entries.insert(j, moved);
                proof {
                    assert(self.entries@ =~= old(self).entries@.update(
                        j as int,
                        spec_advanced(old(self).entries@[j as int]),
                    ));
                }
                return Some(sel);
            }
            j = j + 1;
        }
        None
    }
}

/// The worker slot the `k`-th of a run of sequential routes picks, when the
/// cursor stood at `start` and the model has `n` workers.
pub open spec fn rr_pick(start: nat, k: nat, n: nat) -> nat {
    (start + k) % n
}

/// How many of the first `m` picks of a round-robin run starting at `start`
/// land on worker slot `i`, out of `n` slots.
pub open spec fn rr_hits(start: nat, m: nat, n: nat, i: nat) -> nat
    decreases m,
{
    if m == 0 {
        0
    } else {
        rr_hits(start, (m - 1) as nat, n, i)
            + (if rr_pick(start, (m - 1) as nat, n) == i { 1nat } else { 0nat })
    }
}

/// The cursor after `k` routes for one model, starting from `start` and
/// advancing one wrapping step per route, as `route` does.
pub open spec fn cursor_after(start: nat, k: nat, n: nat) -> nat
    decreases k,
{
    if k == 0 {
        start
    } else {
        (cursor_after(start, (k - 1) as nat, n) + 1) % n
    }
}

/// Sequential routes follow the round-robin picks: starting from a cursor
/// `start < n`, the cursor standing before the `k`-th route — the worker
/// slot that route picks — is exactly `rr_pick(start, k, n)`.
pub proof fn lemma_route_follows_rr(start: nat, k: nat, n: nat)
    requires
        n >= 1,
        start < n,
    ensures
        cursor_after(start, k, n) == rr_pick(start, k, n),
    decreases k,
{
    if k == 0 {
        lemma_small_mod(start, n);
    } else {
        lemma_route_follows_rr(start, (k - 1) as nat, n);
        let a = (start + k - 1) as int;
        let q = a / (n as int);
        let r = a % (n as int);
        lemma_mod_bound(a, n as int);
        lemma_fundamental_div_mod(a, n as int);
        lemma_mod_multiples_vanish(q, r + 1, n as int);
    }
}

/// Counting hits over a run is the same as counting over its two halves.
proof fn lemma_rr_hits_split(start: nat, a: nat, b: nat, n: nat, i: nat)
    ensures
        rr_hits(start, a + b, n, i) == rr_hits(start, a, n, i) + rr_hits(start + a, b, n, i),
    decreases b,
{
    if b > 0 {
        lemma_rr_hits_split(start, a, (b - 1) as nat, n, i);
        assert(rr_pick(start, (a + b - 1) as nat, n) == rr_pick(start + a, (b - 1) as nat, n));
    }
}

/// A run that contains a pick of slot `i` counts at least one hit on it.
proof fn lemma_rr_hit_at(start: nat, m: nat, n: nat, i: nat, off: nat)
    requires
        off < m,
        rr_pick(start, off, n) == i,
    ensures
        rr_hits(start, m, n, i) >= 1,
    decreases m,
{
    if off < m - 1 {
        lemma_rr_hit_at(start, (m - 1) as nat, n, i, off);
    }
}

/// Any `n` consecutive picks over `n` slots land on every slot at least
/// once.
proof fn lemma_rr_window(start: nat, n: nat, i: nat)
    requires
        n >= 1,
        i < n,
    ensures
        rr_hits(start, n, n, i) >= 1,
{
    lemma_mod_bound(start as int, n as int);
    let r = (start % n) as nat;
    let q = start as int / n as int;
    lemma_fundamental_div_mod(start as int, n as int);
    let off = if i >= r { (i - r) as nat } else { (n + i - r) as nat };
    assert(off < n);
    if i >= r {
        assert(start + off == n as int * q + i);
        lemma_mod_multiples_vanish(q, i as int, n as int);
    } else {
        assert(n as int * (q + 1) == n as int * q + n as int) by (nonlinear_arith);
        assert(start + off == n as int * (q + 1) + i);
        lemma_mod_multiples_vanish(q + 1, i as int, n as int);
    }
    lemma_small_mod(i, n);
    assert(rr_pick(start, off, n) == i);
    lemma_rr_hit_at(start, n, n, i, off);
}

/// Round-robin routing is fair: over any `m` sequential routes for a model
/// with `n` workers, every worker slot `i` is picked at least `m / n`
/// times, wherever the cursor `start` stood when the run began.
pub proof fn lemma_round_robin_fair(start: nat, m: nat, n: nat, i: nat)
    requires
        n >= 1,
        i < n,
    ensures
        rr_hits(start, m, n, i) >= m / n,
    decreases m,
{
    if m < n {
        assert(m / n == 0) by {
            lemma_basic_div(m as int, n as int);
        }
    } else {
        lemma_rr_hits_split(start, n, (m - n) as nat, n, i);
        lemma_rr_window(start, n, i);
        lemma_round_robin_fair(start + n, (m - n) as nat, n, i);
        assert(m / n == (m - n) as nat / n + 1) by {
            lemma_div_plus_one((m - n) as int, n as int);
        }
    }
}

} // verus!
