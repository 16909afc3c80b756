//! The transition table and the state machine engine: transition lookup,
//! the legality checks (underflow, capacity, guards), and the atomic
//! commit of a legal transition.

use crate::vector::sum_of;
use crate::vector::sum_ok;
use crate::vector::vadd;
use crate::vector::within_capacity;
use vstd::prelude::*;

verus! {

/// Errors that a caller-usage fault surfaces. A transition rejected by
/// the validation checks is not an error: it is the `false` outcome of
/// `transform`.
#[derive(Clone, Copy, Debug, PartialEq, Eq, Structural)]
pub enum MachineError {
    /// A transition name absent from the table was looked up.
    UnknownTransition,
    /// State, capacity, delta and guard vectors of one machine do not
    /// all share one length.
    DimensionMismatch,
}

/// A named, atomic state-update rule: a delta vector added elementwise
/// to the state, an informational role tag, and zero or more guard
/// vectors keyed by name. Guard names carry no semantics and never
/// influence evaluation; only the vectors matter.
pub struct Transition {
    /// Which actor class may invoke the transition; informational for
    /// the caller, not enforced by the engine.
    pub role: String,
    /// Added elementwise to the state on a successful transform.
    pub delta: Vec<i64>,
    /// Each guard vector is checked against the current state: the
    /// transition is rejected if any `state + guard` entry is negative.
    pub guards: Vec<(String, Vec<i64>)>,
}

/// An immutable mapping from transition name to its definition, built
/// once at machine-construction time. Lookup is by exact name; where a
/// name occurs twice, the first entry is the mapping's value.
pub struct Machine {
    pub transitions: Vec<(String, Transition)>,
}

/// The index of the first entry of `entries` whose name is `name`, or
/// `-1` where no entry has that name.
pub open spec fn find_idx(entries: Seq<(String, Transition)>, name: Seq<char>) -> int
    decreases entries.len(),
{
    if entries.len() == 0 {
        -1
    } else if entries[0].0@ == name {
        0
    } else {
        let r = find_idx(entries.subrange(1, entries.len() as int), name);
        if r < 0 {
            -1
        } else {
            r + 1
        }
    }
}

/// A scan that found no match before position `k`, and a match at `k`
/// where one exists, pins down `find_idx`.
proof fn lemma_find_idx_first(entries: Seq<(String, Transition)>, name: Seq<char>, k: int)
    requires
        0 <= k <= entries.len(),
        forall|j: int| 0 <= j < k ==> (#[trigger] entries[j].0)@ != name,
        k < entries.len() ==> entries[k].0@ == name,
    ensures
        k < entries.len() ==> find_idx(entries, name) == k,
        k == entries.len() ==> find_idx(entries, name) == -1,
    decreases k,
{
    if entries.len() == 0 {
    } else if k == 0 {
    } else {
        let rest = entries.subrange(1, entries.len() as int);
        assert(entries[0].0@ != name);
        assert(forall|j: int| 0 <= j < k - 1 ==> (#[trigger] rest[j].0)@ != name) by {
            assert(forall|j: int| 0 <= j < k - 1 ==> rest[j] == entries[j + 1]);
        }
        assert(k - 1 < rest.len() ==> rest[k - 1].0@ == name);
        lemma_find_idx_first(rest, name, k - 1);
    }
}

/// A non-negative `find_idx` result is a position of `entries`, and the
/// entry there bears the looked-up name.
pub proof fn lemma_find_idx_bounds(entries: Seq<(String, Transition)>, name: Seq<char>)
    ensures
        find_idx(entries, name) >= 0 ==> find_idx(entries, name) < entries.len() && entries[
            find_idx(entries, name)].0@ == name,
    decreases entries.len(),
{
    if entries.len() == 0 {
    } else if entries[0].0@ == name {
    } else {
        lemma_find_idx_bounds(entries.subrange(1, entries.len() as int), name);
    }
}

/// Every guard of `t` passes against `state`: no `state + guard` entry
/// is negative (or out of machine range).
pub open spec fn guards_ok(state: Seq<i64>, t: Transition) -> bool {
    forall|g: int| 0 <= g < t.guards@.len() ==> sum_ok(state, (#[trigger] t.guards@[g].1)@)
}

/// The transition `t` is legal in `state` under `cap`: its delta drives
/// no place negative (nor out of machine range), the resulting state
/// respects every positive capacity, and every guard passes against the
/// current state.
pub open spec fn enabled(state: Seq<i64>, cap: Seq<i64>, t: Transition) -> bool {
    &&& sum_ok(state, t.delta@)
    &&& within_capacity(sum_of(state, t.delta@), cap)
    &&& guards_ok(state, t)
}

/// A guard whose sum with the current state has a negative entry blocks
/// the transition, whatever its delta would have done.
pub proof fn lemma_guard_blocks(state: Seq<i64>, cap: Seq<i64>, t: Transition, g: int, i: int)
    requires
        0 <= g < t.guards@.len(),
        0 <= i < state.len(),
        state[i] + t.guards@[g].1@[i] < 0,
    ensures
        !enabled(state, cap, t),
{
    assert(!sum_ok(state, t.guards@[g].1@)) by {
        assert(state[i] + t.guards@[g].1@[i] < 0);
    }
}

impl Transition {
    /// The transition's vectors all have the machine's place count `n`.
    pub open spec fn wf(&self, n: int) -> bool {
        &&& self.delta@.len() == n
        &&& forall|g: int| 0 <= g < self.guards@.len() ==> (#[trigger] self.guards@[g].1)@.len()
            == n
    }
}

impl Machine {
    /// Every transition of the table is sized for `n` places.
    pub open spec fn wf(&self, n: int) -> bool {
        forall|k: int| 0 <= k < self.transitions@.len() ==> (#[trigger] self.transitions@[k].1).wf(
            n,
        )
    }

    /// Exact-match lookup of a transition definition: the first entry
    /// named `key`, or `UnknownTransition` where no entry has that name.
    pub fn action(&self, key: &String) -> (r: Result<&Transition, MachineError>)
        ensures
            ({
                let f = find_idx(self.transitions@, key@);
                &&& f >= 0 ==> (r matches Ok(t) && *t == self.transitions@[f].1)
                &&& f < 0 ==> (r matches Err(e) && e == MachineError::UnknownTransition)
            }),
    {
        let mut k: usize = 0;
        while k < self.transitions.len()
            invariant
                k <= self.transitions@.len(),
                forall|j: int| 0 <= j < k ==> (#[trigger] self.transitions@[j].0)@ != key@,
            decreases self.transitions@.len() - k,
        {
            if self.transitions[k].0 == *key {
                proof {
                    lemma_find_idx_first(self.transitions@, key@, k as int);
                }
                return Ok(&self.transitions[k].1);
            }
            k = k + 1;
        }
        proof {
            lemma_find_idx_first(self.transitions@, key@, self.transitions@.len() as int);
        }
        Err(MachineError::UnknownTransition)
    }
}

/// Optional, informational metadata for one machine instance: a schema
/// tag and a mapping from place name to place index. It never takes part
/// in validation; it exists for diagnostics and hosts alone.
pub struct PlaceMap {
    pub schema: String,
    pub map: Vec<(String, i64)>,
}

/// The capacity vector and every vector of the transition table are
/// sized for `n` places.
pub open spec fn dims_ok(n: int, capacity: Seq<i64>, machine: Machine) -> bool {
    &&& capacity.len() == n
    &&& machine.wf(n)
}

/// One sequential token machine: the mutable state vector, the fixed
/// capacity vector, and the immutable transition table. The state is
/// replaced wholesale on a successful `transform` and never otherwise.
pub struct StateMachine {
    state: Vec<i64>,
    capacity: Vec<i64>,
    machine: Machine,
    /// Informational place metadata; never read by validation.
    pub places: PlaceMap,
}

impl StateMachine {
    /// The current state vector, as a sequence.
    pub closed spec fn spec_state(&self) -> Seq<i64> {
        self.state@
    }

    /// The capacity vector, as a sequence.
    pub closed spec fn spec_capacity(&self) -> Seq<i64> {
        self.capacity@
    }

    /// The transition table.
    pub closed spec fn spec_machine(&self) -> Machine {
        self.machine
    }

    /// The attached place metadata.
    pub closed spec fn spec_places(&self) -> PlaceMap {
        self.places
    }

    /// The machine's invariant: all vectors share one length, every
    /// committed place value is non-negative, and every place with a
    /// positive capacity is at or below it.
    pub open spec fn wf(&self) -> bool {
        &&& self.spec_capacity().len() == self.spec_state().len()
        &&& self.spec_machine().wf(self.spec_state().len() as int)
        &&& forall|i: int| 0 <= i < self.spec_state().len() ==> 0 <= #[trigger] self.spec_state()[i]
        &&& within_capacity(self.spec_state(), self.spec_capacity())
    }

    /// Builds a machine from an initial state, a capacity vector and a
    /// transition table, with empty place metadata. Vectors of differing
    /// lengths are a usage error, reported as `DimensionMismatch`; the
    /// initial state must already respect the invariant.
    #[verifier::loop_isolation(false)]
    pub fn create(state: Vec<i64>, capacity: Vec<i64>, machine: Machine) -> (r: Result<
        StateMachine,
        MachineError,
    >)
        requires
            forall|i: int| 0 <= i < state@.len() ==> 0 <= #[trigger] state@[i],
            within_capacity(state@, capacity@),
        ensures
            ({
                let ok = dims_ok(state@.len() as int, capacity@, machine);
                &&& ok ==> (r matches Ok(sm) && sm.wf() && sm.spec_state() == state@
                    && sm.spec_capacity() == capacity@ && sm.spec_machine() == machine
                    && sm.spec_places().schema@.len() == 0 && sm.spec_places().map@.len() == 0)
                &&& !ok ==> r == Err::<StateMachine, MachineError>(MachineError::DimensionMismatch)
            }),
    {
        if capacity.len() != state.len() {
            return Err(MachineError::DimensionMismatch);
        }
        let n = state.len();
        let mut k: usize = 0;
        while k < machine.transitions.len()
            invariant
                k <= machine.transitions@.len(),
                forall|j: int| 0 <= j < k ==> (#[trigger] machine.transitions@[j].1).wf(n as int),
            decreases machine.transitions@.len() - k,
        {
            let tr = &machine.transitions[k].1;
            if tr.delta.len() != n {
                proof {
                    assert(!machine.transitions@[k as int].1.wf(n as int));
                }
                return Err(MachineError::DimensionMismatch);
            }
            let mut g: usize = 0;
            while g < tr.guards.len()
                invariant
                    g <= tr.guards@.len(),
                    forall|h: int| 0 <= h < g ==> (#[trigger] tr.guards@[h].1)@.len() == n,
                decreases tr.guards@.len() - g,
            {
                if tr.guards[g].1.len() != n {
                    proof {
                        assert(!machine.transitions@[k as int].1.wf(n as int));
                    }
                    return Err(MachineError::DimensionMismatch);
                }
                g = g + 1;
            }
            k = k + 1;
        }
        Ok(
            StateMachine {
                state,
                capacity,
                machine,
                places: PlaceMap { schema: String::new(), map: Vec::new() },
            },
        )
    }

    /// The same machine with the given place metadata attached; state,
    /// capacity and transition table are untouched.
    pub fn with_places(self, places: PlaceMap) -> (r: StateMachine)
        ensures
            r.spec_state() == self.spec_state(),
            r.spec_capacity() == self.spec_capacity(),
            r.spec_machine() == self.spec_machine(),
            r.spec_places() == places,
    {
        StateMachine { places, ..self }
    }

    /// The machine's transition table, read-only.
    pub fn machine(&self) -> (r: &Machine)
        ensures
            *r == self.spec_machine(),
    {
        &self.machine
    }

    /// A copy of the current state vector; never a live alias.
    #[verifier::loop_isolation(false)]
    pub fn get_state(&self) -> (r: Vec<i64>)
        ensures
            r@ == self.spec_state(),
    {
        let mut out: Vec<i64> = Vec::new();
        let mut k: usize = 0;
        while k < self.state.len()
            invariant
                k <= self.state@.len(),
                out@.len() == k,
                forall|j: int| 0 <= j < k ==> #[trigger] out@[j] == self.state@[j],
            decreases self.state@.len() - k,
        {
            out.push(self.state[k]);
            k = k + 1;
        }
        proof {
            assert(out@ =~= self.state@);
        }
        out
    }

    /// The role tag of the named transition, or `UnknownTransition` for
    /// a name absent from the table. Read-only.
    pub fn get_role(&self, txn: String) -> (r: Result<String, MachineError>)
        ensures
            ({
                let f = find_idx(self.spec_machine().transitions@, txn@);
                &&& f >= 0 ==> (r matches Ok(role) && role@ == self.spec_machine().transitions@[
                    f].1.role@)
                &&& f < 0 ==> (r matches Err(e) && e == MachineError::UnknownTransition)
            }),
    {
        match self.machine.action(&txn) {
            Ok(t) => Ok(t.role.clone()),
            Err(e) => Err(e),
        }
    }

    /// Validates the named transition against the current state and, if
    /// it is legal, atomically commits the summed state. The result is
    /// `Ok(true)` exactly where the transition was enabled, `Ok(false)`
    /// where underflow, capacity or a guard rejected it — with the state
    /// observably unchanged — and `UnknownTransition` for a name absent
    /// from the table, which is a usage error, not a rejection.
    #[verifier::loop_isolation(false)]
    pub fn transform(&mut self, txn: String) -> (r: Result<bool, MachineError>)
        requires
            old(self).wf(),
        ensures
            final(self).wf(),
            final(self).spec_capacity() == old(self).spec_capacity(),
            final(self).spec_machine() == old(self).spec_machine(),
            final(self).spec_places() == old(self).spec_places(),
            ({
                let entries = old(self).spec_machine().transitions@;
                let f = find_idx(entries, txn@);
                &&& f < 0 ==> r == Err::<bool, MachineError>(MachineError::UnknownTransition)
                &&& f < 0 ==> final(self).spec_state() == old(self).spec_state()
                &&& f >= 0 ==> r == Ok::<bool, MachineError>(
                    enabled(old(self).spec_state(), old(self).spec_capacity(), entries[f].1),
                )
                &&& f >= 0 && enabled(old(self).spec_state(), old(self).spec_capacity(), entries[f].1)
                    ==> final(self).spec_state() == sum_of(
                    old(self).spec_state(),
                    entries[f].1.delta@,
                )
                &&& f >= 0 && !enabled(old(self).spec_state(), old(self).spec_capacity(), entries[f].1)
                    ==> final(self).spec_state() == old(self).spec_state()
            }),
    {
        let tr = match self.machine.action(&txn) {
            Ok(t) => t,
            Err(e) => {
                return Err(e);
            },
        };
        proof {
            let entries = self.machine.transitions@;
            let f = find_idx(entries, txn@);
            assert(f >= 0);
            lemma_find_idx_bounds(entries, txn@);
            assert(entries[f].1.wf(self.state@.len() as int));
            assert(tr.delta@.len() == self.state@.len());
        }
        let (out, ok) = vadd(&self.state, &tr.delta);
        if !ok {
            return Ok(false);
        }
        let mut i: usize = 0;
        while i < self.capacity.len()
            invariant
                i <= self.capacity@.len(),
                forall|j: int| 0 <= j < i && 0 < #[trigger] self.capacity@[j] ==> out@[j]
                    <= self.capacity@[j],
            decreases self.capacity@.len() - i,
        {
            if self.capacity[i] > 0 && out[i] > self.capacity[i] {
                proof {
                    assert(!within_capacity(sum_of(self.state@, tr.delta@), self.capacity@)) by {
                        assert(sum_of(self.state@, tr.delta@)[i as int] == out@[i as int]);
                    }
                }
                return Ok(false);
            }
            i = i + 1;
        }
        let mut g: usize = 0;
        while g < tr.guards.len()
            invariant
                g <= tr.guards@.len(),
                forall|h: int| 0 <= h < g ==> sum_ok(self.state@, (#[trigger] tr.guards@[h].1)@),
            decreases tr.guards@.len() - g,
        {
            proof {
                assert(tr.guards@[g as int].1@.len() == self.state@.len());
            }
            let (_chk, gok) = vadd(&self.state, &tr.guards[g].1);
            if !gok {
                proof {
                    assert(!guards_ok(self.state@, *tr)) by {
                        assert(!sum_ok(self.state@, tr.guards@[g as int].1@));
                    }
                }
                return Ok(false);
            }
            g = g + 1;
        }
        proof {
            assert(within_capacity(sum_of(self.state@, tr.delta@), self.capacity@)) by {
                assert forall|j: int|
                    0 <= j < self.capacity@.len() && 0 < #[trigger] self.capacity@[j] implies sum_of(
                    self.state@,
                    tr.delta@,
                )[j] <= self.capacity@[j] by {
                    assert(sum_of(self.state@, tr.delta@)[j] == out@[j]);
                }
            }
            assert(enabled(self.state@, self.capacity@, *tr));
        }
        self.state = out;
        proof {
            assert forall|j: int|
                0 <= j < self.state@.len() implies 0 <= #[trigger] self.state@[j] by {
                assert(self.state@[j] == old(self).spec_state()[j] + tr.delta@[j]);
            }
        }
        Ok(true)
    }
}

/// No reachable, well-formed machine holds a negative place value.
pub proof fn lemma_no_underflow(sm: StateMachine)
    requires
        sm.wf(),
    ensures
        forall|i: int| 0 <= i < sm.spec_state().len() ==> 0 <= #[trigger] sm.spec_state()[i],
{
}

/// Every reachable, well-formed machine respects its capacities: a
/// place with a positive capacity never exceeds it.
pub proof fn lemma_capacity_invariant(sm: StateMachine)
    requires
        sm.wf(),
    ensures
        forall|i: int|
            0 <= i < sm.spec_capacity().len() && 0 < #[trigger] sm.spec_capacity()[i]
                ==> sm.spec_state()[i] <= sm.spec_capacity()[i],
{
}

} // verus!
