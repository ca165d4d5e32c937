use hadlock::geometry::{from_c_bool, to_c_bool};
use hadlock::reducers::key_press::keycode_to_ws;

#[test]
fn c_bool_round_trip_of_true() {
    assert!(from_c_bool(to_c_bool(true)));
    assert_eq!(1, to_c_bool(false));
    assert!(!from_c_bool(0));
    assert!(from_c_bool(-3));
}

#[test]
fn number_keys_stand_for_workspaces() {
    assert_eq!(1, keycode_to_ws(11));
    assert_eq!(9, keycode_to_ws(19));
    assert_eq!(0, keycode_to_ws(20));
    assert_eq!(5, keycode_to_ws(255));
}
