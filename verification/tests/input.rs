use tetrs::input::{process_das_arr, KeyPressState};

#[test]
fn test_das_delay_then_repeat() {
    let mut state = KeyPressState::pressed(0);
    // Nothing repeats before the DAS delay
    assert!(!process_das_arr(&mut state, 100, 170, 50));
    assert!(!process_das_arr(&mut state, 169, 170, 50));
    // The first trigger fires once the delay has elapsed
    assert!(process_das_arr(&mut state, 170, 170, 50));
    // Then one repeat per ARR interval
    assert!(!process_das_arr(&mut state, 200, 170, 50));
    assert!(process_das_arr(&mut state, 220, 170, 50));
    assert!(!process_das_arr(&mut state, 240, 170, 50));
    assert!(process_das_arr(&mut state, 270, 170, 50));
}

#[test]
fn test_das_zero_repeats_immediately() {
    let mut state = KeyPressState::pressed(10);
    assert!(process_das_arr(&mut state, 10, 0, 0));
    assert!(process_das_arr(&mut state, 11, 0, 0));
}
