#[test]
fn add_exact_sum() {
    assert_eq!(newsfeed::functions::add(5, 5), 10);
    assert_eq!(newsfeed::functions::add(-3, 3), 0);
}

#[test]
fn greeting_line_and_closure_sum() {
    let (line, c_sum) = newsfeed::functions::greeting("Hello", "Jane");
    assert_eq!(line, "Hello Jane, nice to meet you!");
    assert_eq!(c_sum, 16);
}

#[test]
fn greeting_other_inputs() {
    let (line, c_sum) = newsfeed::functions::greeting("Hi", "Sam");
    assert_eq!(line, "Hi Sam, nice to meet you!");
    assert_eq!(c_sum, 16);
}

#[test]
fn run_computed_values() {
    let (line, c_sum, get_sum) = newsfeed::functions::run();
    assert_eq!(line, "Hello Jane, nice to meet you!");
    assert_eq!(c_sum, 16);
    assert_eq!(get_sum, 10);
}
