use counter_service::counter::Counter;
use counter_service::handlers::{
    get_counter, handle_increment, increment_counter, index, InputData, RequestError,
};
use counter_service::text::u32_to_string;

#[test]
fn fresh_counter_reads_zero() {
    let c = Counter::new();
    assert_eq!(c.read(), 0);
    let out = get_counter(&c);
    assert_eq!(out.message, "Current counter value: 0");
}

#[test]
fn increment_five_then_read() {
    let mut c = Counter::new();
    let out = increment_counter(&mut c, InputData { value: 5 });
    assert_eq!(out.message, "Counter incremented by 5");
    let out = get_counter(&c);
    assert_eq!(out.message, "Current counter value: 5");
}

#[test]
fn sequential_accumulation() {
    let mut c = Counter::new();
    increment_counter(&mut c, InputData { value: 3 });
    increment_counter(&mut c, InputData { value: 7 });
    increment_counter(&mut c, InputData { value: 2 });
    assert_eq!(c.read(), 12);
    assert_eq!(get_counter(&c).message, "Current counter value: 12");
}

#[test]
fn many_unit_increments_lose_nothing() {
    let mut c = Counter::new();
    for _ in 0..100 {
        increment_counter(&mut c, InputData { value: 1 });
    }
    assert_eq!(c.read(), 100);
}

#[test]
fn malformed_input_rejected() {
    let mut c = Counter::new();
    increment_counter(&mut c, InputData { value: 9 });
    let before = c.read();
    let r = handle_increment(&mut c, None);
    assert!(matches!(r, Err(RequestError::MalformedInput)));
    assert_eq!(c.read(), before);
    assert_eq!(get_counter(&c).message, "Current counter value: 9");
}

#[test]
fn parsed_input_accepted() {
    let mut c = Counter::new();
    let r = handle_increment(&mut c, Some(InputData { value: 7 }));
    match r {
        Ok(out) => assert_eq!(out.message, "Counter incremented by 7"),
        Err(_) => panic!("a parsed body must be accepted"),
    }
    assert_eq!(c.read(), 7);
}

#[test]
fn root_route_welcome_text() {
    assert_eq!(index(), "Welcome to the Rust Actix Web Backend!");
    let mut c = Counter::new();
    increment_counter(&mut c, InputData { value: 42 });
    assert_eq!(index(), "Welcome to the Rust Actix Web Backend!");
}

#[test]
fn repeated_reads_identical() {
    let mut c = Counter::new();
    increment_counter(&mut c, InputData { value: 11 });
    let first = get_counter(&c);
    let second = get_counter(&c);
    assert_eq!(first.message, second.message);
    assert_eq!(c.read(), 11);
}

#[test]
fn increment_saturates_at_max() {
    let mut c = Counter::new();
    increment_counter(&mut c, InputData { value: u32::MAX - 1 });
    let out = increment_counter(&mut c, InputData { value: 5 });
    assert_eq!(out.message, "Counter incremented by 5");
    assert_eq!(c.read(), u32::MAX);
    assert_eq!(get_counter(&c).message, "Current counter value: 4294967295");
}

#[test]
fn decimal_formatting() {
    assert_eq!(u32_to_string(0), "0");
    assert_eq!(u32_to_string(7), "7");
    assert_eq!(u32_to_string(10), "10");
    assert_eq!(u32_to_string(12345), "12345");
    assert_eq!(u32_to_string(1000000), "1000000");
    assert_eq!(u32_to_string(u32::MAX), "4294967295");
}
