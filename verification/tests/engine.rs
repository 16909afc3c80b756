use petrinet::counter_machine;
use petrinet::new;
use petrinet::MachineError;

#[test]
fn lib_test_fields() {
    let mut sm = new();
    assert_eq!(sm.get_role("INC0".to_string()).unwrap(), "role0");

    // guard [0,0,-1] passes while place 2 holds a token
    assert!(sm.transform("INC0".to_string()).unwrap());
    assert_eq!(sm.get_state(), [1, 0, 1]);

    assert!(sm.transform("ON".to_string()).unwrap()); // enabled
    assert_eq!(sm.get_state(), [1, 0, 0]);

    // guard violated: place 2 is empty, [1,0,0] + [0,0,-1] goes negative
    assert!(!sm.transform("INC0".to_string()).unwrap());
    assert_eq!(sm.get_state(), [1, 0, 0]);

    assert!(!sm.transform("DEC1".to_string()).unwrap()); // fails due to underflow
    assert_eq!(sm.get_state(), [1, 0, 0]);
}

#[test]
fn main_test_fields() {
    let sm = counter_machine();
    let p = &sm.places;

    assert_eq!(p.schema, "counter");
    let p0 = p.map.iter().find(|e| e.0 == "p0").map(|e| e.1);
    assert_eq!(p0, Some(0));
    assert_eq!(sm.get_state()[0], 0);
    let inc0 = sm.machine().action(&"inc0".to_string()).unwrap();
    assert_eq!(inc0.role, "default");
    assert_eq!(inc0.delta, vec![1, 0, 0]);
}

#[test]
fn test_valid_transform() {
    let mut sm = counter_machine();
    assert_eq!(sm.get_state(), vec![0, 0, 0]);

    assert_eq!(sm.transform("inc0".to_string()), Ok(true));
    assert_eq!(sm.get_state(), vec![1, 0, 0]);
}

#[test]
fn test_role_lookup_errors() {
    let sm = counter_machine();
    assert_eq!(
        sm.get_role("nonexistent".to_string()),
        Err(MachineError::UnknownTransition)
    );
    assert_eq!(sm.get_role("inc1".to_string()), Ok("default".to_string()));
}

#[test]
fn test_unbounded_places_keep_counting() {
    let mut sm = counter_machine();
    for _ in 0..5 {
        assert_eq!(sm.transform("inc2".to_string()), Ok(true));
    }
    assert_eq!(sm.get_state(), vec![0, 0, 5]);
    assert_eq!(sm.transform("dec2".to_string()), Ok(true));
    assert_eq!(sm.get_state(), vec![0, 0, 4]);
}
