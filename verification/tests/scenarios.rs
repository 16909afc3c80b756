use petrinet::counter_machine;
use petrinet::Machine;
use petrinet::MachineError;
use petrinet::StateMachine;
use petrinet::Transition;

fn plain(role: &str, delta: Vec<i64>) -> Transition {
    Transition {
        role: role.to_string(),
        delta,
        guards: Vec::new(),
    }
}

fn guarded(role: &str, delta: Vec<i64>, guards: Vec<(String, Vec<i64>)>) -> Transition {
    Transition {
        role: role.to_string(),
        delta,
        guards,
    }
}

// The counter machine with a ceiling of one token on place 2 and a guard
// on inc0 demanding a token on place 0.
fn guarded_counter(initial: Vec<i64>) -> StateMachine {
    let transitions = vec![
        (
            "inc0".to_string(),
            guarded(
                "default",
                vec![1, 0, 0],
                vec![("has_p0".to_string(), vec![-1, 0, 0])],
            ),
        ),
        ("inc1".to_string(), plain("default", vec![0, 1, 0])),
        ("inc2".to_string(), plain("default", vec![0, 0, 1])),
        ("dec0".to_string(), plain("default", vec![-1, 0, 0])),
        ("dec1".to_string(), plain("default", vec![0, -1, 0])),
        ("dec2".to_string(), plain("default", vec![0, 0, -1])),
    ];
    StateMachine::create(initial, vec![0, 0, 1], Machine { transitions }).unwrap()
}

#[test]
fn scenario_counter_guard() {
    // from [0,0,0] the guard sum [-1,0,0] is negative: rejected, no change,
    // even though the delta [1,0,0] alone would have been fine
    let mut sm = guarded_counter(vec![0, 0, 0]);
    assert_eq!(sm.transform("inc0".to_string()), Ok(false));
    assert_eq!(sm.get_state(), vec![0, 0, 0]);

    // with a token on place 0 the guard sum is [0,0,0]: it passes
    let mut sm = guarded_counter(vec![1, 0, 0]);
    assert_eq!(sm.transform("inc0".to_string()), Ok(true));
    assert_eq!(sm.get_state(), vec![2, 0, 0]);
}

#[test]
fn scenario_overcapacity() {
    let mut sm = guarded_counter(vec![0, 0, 1]);
    assert_eq!(sm.transform("inc2".to_string()), Ok(false));
    assert_eq!(sm.get_state(), vec![0, 0, 1]);
}

#[test]
fn scenario_undercapacity() {
    let mut sm = counter_machine();
    assert_eq!(sm.transform("dec0".to_string()), Ok(false));
    assert_eq!(sm.get_state(), vec![0, 0, 0]);
}

#[test]
fn scenario_unknown_transition() {
    let mut sm = counter_machine();
    assert_eq!(
        sm.transform("nonexistent".to_string()),
        Err(MachineError::UnknownTransition)
    );
    assert_eq!(sm.get_state(), vec![0, 0, 0]);
}

#[test]
fn exact_sum_is_committed() {
    let transitions = vec![("mix".to_string(), plain("default", vec![5, -3, 2]))];
    let mut sm =
        StateMachine::create(vec![10, 10, 10], vec![0, 0, 0], Machine { transitions }).unwrap();
    assert_eq!(sm.transform("mix".to_string()), Ok(true));
    assert_eq!(sm.get_state(), vec![15, 7, 12]);
}

#[test]
fn all_guards_must_pass() {
    let table = || {
        let guards = vec![
            ("has_p0".to_string(), vec![-1, 0, 0]),
            ("has_p1".to_string(), vec![0, -1, 0]),
        ];
        Machine {
            transitions: vec![("step".to_string(), guarded("default", vec![0, 0, 1], guards))],
        }
    };

    // one of the two guards goes negative: rejected
    let mut sm = StateMachine::create(vec![1, 0, 0], vec![0, 0, 0], table()).unwrap();
    assert_eq!(sm.transform("step".to_string()), Ok(false));
    assert_eq!(sm.get_state(), vec![1, 0, 0]);

    // both guards pass: committed
    let mut sm = StateMachine::create(vec![1, 1, 0], vec![0, 0, 0], table()).unwrap();
    assert_eq!(sm.transform("step".to_string()), Ok(true));
    assert_eq!(sm.get_state(), vec![1, 1, 1]);
}

#[test]
fn dimension_mismatch_is_reported() {
    let table = || Machine {
        transitions: vec![("inc0".to_string(), plain("default", vec![1, 0, 0]))],
    };

    // capacity shorter than state
    let r = StateMachine::create(vec![0, 0, 0], vec![0, 0], table());
    assert!(matches!(r, Err(MachineError::DimensionMismatch)));

    // a delta of the wrong length
    let bad_delta = Machine {
        transitions: vec![("inc0".to_string(), plain("default", vec![1, 0]))],
    };
    let r = StateMachine::create(vec![0, 0, 0], vec![0, 0, 0], bad_delta);
    assert!(matches!(r, Err(MachineError::DimensionMismatch)));

    // a guard of the wrong length
    let bad_guard = Machine {
        transitions: vec![(
            "inc0".to_string(),
            guarded("default", vec![1, 0, 0], vec![("g".to_string(), vec![-1])]),
        )],
    };
    let r = StateMachine::create(vec![0, 0, 0], vec![0, 0, 0], bad_guard);
    assert!(matches!(r, Err(MachineError::DimensionMismatch)));

    // matching lengths are accepted
    let r = StateMachine::create(vec![0, 0, 0], vec![0, 0, 0], table());
    assert!(r.is_ok());
}

#[test]
fn sum_beyond_machine_range_is_rejected() {
    let transitions = vec![("up".to_string(), plain("default", vec![2, 0, 0]))];
    let mut sm = StateMachine::create(
        vec![i64::MAX - 1, 0, 0],
        vec![0, 0, 0],
        Machine { transitions },
    )
    .unwrap();
    assert_eq!(sm.transform("up".to_string()), Ok(false));
    assert_eq!(sm.get_state(), vec![i64::MAX - 1, 0, 0]);
}
