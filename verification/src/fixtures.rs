//! Construction of the example machines: the two-role on/off machine
//! and the three-place counter machine, exactly as hosts embed them.

use crate::machine::Machine;
use crate::machine::PlaceMap;
use crate::machine::StateMachine;
use crate::machine::Transition;
use vstd::pervasive::unreached;
use vstd::prelude::*;
use vstd::string::StringExecFns;

verus! {

/// A three-entry place vector with the given values.
fn vec3(a: i64, b: i64, c: i64) -> (r: Vec<i64>)
    ensures
        r@ == seq![a, b, c],
{
    let mut v: Vec<i64> = Vec::new();
    v.push(a);
    v.push(b);
    v.push(c);
    proof {
        assert(v@ =~= seq![a, b, c]);
    }
    v
}

/// A transition with the given role and delta and no guards.
fn make_transition(role: &str, delta: Vec<i64>) -> (t: Transition)
    ensures
        t.role@ == role@,
        t.delta@ == delta@,
        t.guards@.len() == 0,
{
    Transition { role: String::from_str(role), delta, guards: Vec::new() }
}

/// A transition with the given role and delta and a single named guard.
fn make_guarded(role: &str, delta: Vec<i64>, guard_name: &str, guard: Vec<i64>) -> (t: Transition)
    ensures
        t.role@ == role@,
        t.delta@ == delta@,
        t.guards@.len() == 1,
        t.guards@[0].0@ == guard_name@,
        t.guards@[0].1@ == guard@,
{
    let mut guards: Vec<(String, Vec<i64>)> = Vec::new();
    guards.push((String::from_str(guard_name), guard));
    Transition { role: String::from_str(role), delta, guards }
}

/// The two-role on/off machine: three places starting at `[0, 0, 1]`,
/// all unbounded, with increment and decrement transitions for the two
/// counters — the increments guarded on the third place — and an on/off
/// pair for the third place itself.
pub fn new() -> (r: StateMachine)
    ensures
        r.wf(),
        r.spec_state() == seq![0i64, 0i64, 1i64],
        r.spec_capacity() == seq![0i64, 0i64, 0i64],
        ({
            let ts = r.spec_machine().transitions@;
            &&& ts.len() == 6
            &&& ts[0].0@ == "INC0"@ && ts[0].1.role@ == "role0"@ && ts[0].1.delta@ == seq![
                1i64,
                0i64,
                0i64,
            ] && ts[0].1.guards@.len() == 1 && ts[0].1.guards@[0].1@ == seq![0i64, 0i64, -1i64]
            &&& ts[1].0@ == "INC1"@ && ts[1].1.role@ == "role1"@ && ts[1].1.delta@ == seq![
                0i64,
                1i64,
                0i64,
            ] && ts[1].1.guards@.len() == 1 && ts[1].1.guards@[0].1@ == seq![0i64, 0i64, -1i64]
            &&& ts[2].0@ == "DEC0"@ && ts[2].1.role@ == "role0"@ && ts[2].1.delta@ == seq![
                -1i64,
                0i64,
                0i64,
            ] && ts[2].1.guards@.len() == 0
            &&& ts[3].0@ == "DEC1"@ && ts[3].1.role@ == "role1"@ && ts[3].1.delta@ == seq![
                0i64,
                -1i64,
                0i64,
            ] && ts[3].1.guards@.len() == 0
            &&& ts[4].0@ == "OFF"@ && ts[4].1.role@ == "default"@ && ts[4].1.delta@ == seq![
                0i64,
                0i64,
                1i64,
            ] && ts[4].1.guards@.len() == 0
            &&& ts[5].0@ == "ON"@ && ts[5].1.role@ == "default"@ && ts[5].1.delta@ == seq![
                0i64,
                0i64,
                -1i64,
            ] && ts[5].1.guards@.len() == 0
        }),
{
    let mut ts: Vec<(String, Transition)> = Vec::new();
    ts.push((String::from_str("INC0"), make_guarded("role0", vec3(1, 0, 0), "CHECK", vec3(0, 0, -1))));
    ts.push((String::from_str("INC1"), make_guarded("role1", vec3(0, 1, 0), "CHECK", vec3(0, 0, -1))));
    ts.push((String::from_str("DEC0"), make_transition("role0", vec3(-1, 0, 0))));
    ts.push((String::from_str("DEC1"), make_transition("role1", vec3(0, -1, 0))));
    ts.push((String::from_str("OFF"), make_transition("default", vec3(0, 0, 1))));
    ts.push((String::from_str("ON"), make_transition("default", vec3(0, 0, -1))));
    let machine = Machine { transitions: ts };
    let state = vec3(0, 0, 1);
    let capacity = vec3(0, 0, 0);
    proof {
        assert(machine.wf(3)) by {
            assert forall|k: int| 0 <= k < machine.transitions@.len() implies (
            #[trigger] machine.transitions@[k].1).wf(3) by {
                assert(machine.transitions@[k].1.delta@.len() == 3);
            }
        }
    }
    match StateMachine::create(state, capacity, machine) {
        Ok(sm) => sm,
        Err(_) => unreached(),
    }
}

/// The three-place counter machine: all places start at zero and are
/// unbounded, with one increment and one decrement transition for each
/// place, all carrying the default role and no guards, and place
/// metadata naming the places `p0`, `p1`, `p2`.
pub fn counter_machine() -> (r: StateMachine)
    ensures
        r.wf(),
        r.spec_state() == seq![0i64, 0i64, 0i64],
        r.spec_capacity() == seq![0i64, 0i64, 0i64],
        ({
            let ts = r.spec_machine().transitions@;
            &&& ts.len() == 6
            &&& ts[0].0@ == "inc0"@ && ts[0].1.role@ == "default"@ && ts[0].1.delta@ == seq![
                1i64,
                0i64,
                0i64,
            ] && ts[0].1.guards@.len() == 0
            &&& ts[1].0@ == "inc1"@ && ts[1].1.role@ == "default"@ && ts[1].1.delta@ == seq![
                0i64,
                1i64,
                0i64,
            ] && ts[1].1.guards@.len() == 0
            &&& ts[2].0@ == "inc2"@ && ts[2].1.role@ == "default"@ && ts[2].1.delta@ == seq![
                0i64,
                0i64,
                1i64,
            ] && ts[2].1.guards@.len() == 0
            &&& ts[3].0@ == "dec0"@ && ts[3].1.role@ == "default"@ && ts[3].1.delta@ == seq![
                -1i64,
                0i64,
                0i64,
            ] && ts[3].1.guards@.len() == 0
            &&& ts[4].0@ == "dec1"@ && ts[4].1.role@ == "default"@ && ts[4].1.delta@ == seq![
                0i64,
                -1i64,
                0i64,
            ] && ts[4].1.guards@.len() == 0
            &&& ts[5].0@ == "dec2"@ && ts[5].1.role@ == "default"@ && ts[5].1.delta@ == seq![
                0i64,
                0i64,
                -1i64,
            ] && ts[5].1.guards@.len() == 0
        }),
        r.spec_places().schema@ == "counter"@,
        ({
            let pm = r.spec_places().map@;
            &&& pm.len() == 3
            &&& pm[0].0@ == "p0"@ && pm[0].1 == 0
            &&& pm[1].0@ == "p1"@ && pm[1].1 == 1
            &&& pm[2].0@ == "p2"@ && pm[2].1 == 2
        }),
{
    let mut ts: Vec<(String, Transition)> = Vec::new();
    ts.push((String::from_str("inc0"), make_transition("default", vec3(1, 0, 0))));
    ts.push((String::from_str("inc1"), make_transition("default", vec3(0, 1, 0))));
    ts.push((String::from_str("inc2"), make_transition("default", vec3(0, 0, 1))));
    ts.push((String::from_str("dec0"), make_transition("default", vec3(-1, 0, 0))));
    ts.push((String::from_str("dec1"), make_transition("default", vec3(0, -1, 0))));
    ts.push((String::from_str("dec2"), make_transition("default", vec3(0, 0, -1))));
    let machine = Machine { transitions: ts };
    let state = vec3(0, 0, 0);
    let capacity = vec3(0, 0, 0);
    proof {
        assert(machine.wf(3)) by {
            assert forall|k: int| 0 <= k < machine.transitions@.len() implies (
            #[trigger] machine.transitions@[k].1).wf(3) by {
                assert(machine.transitions@[k].1.delta@.len() == 3);
            }
        }
    }
    let sm = match StateMachine::create(state, capacity, machine) {
        Ok(sm) => sm,
        Err(_) => unreached(),
    };
    let mut pm: Vec<(String, i64)> = Vec::new();
    pm.push((String::from_str("p0"), 0));
    pm.push((String::from_str("p1"), 1));
    pm.push((String::from_str("p2"), 2));
    sm.with_places(PlaceMap { schema: String::from_str("counter"), map: pm })
}

} // verus!
