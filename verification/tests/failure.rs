use service_helpers::failure::{join, Failure};

fn strings(parts: &[&str]) -> Vec<String> {
    parts.iter().map(|p| p.to_string()).collect()
}

#[test]
fn join_of_nothing_is_empty() {
    assert_eq!(join(&Vec::new(), ", "), "");
}

#[test]
fn join_of_one_part_has_no_separator() {
    assert_eq!(join(&strings(&["alone"]), ", "), "alone");
}

#[test]
fn join_puts_the_separator_between_neighbours() {
    assert_eq!(join(&strings(&["a", "b", "c"]), ", "), "a, b, c");
    assert_eq!(join(&strings(&["a", "", "c"]), "-"), "a--c");
    assert_eq!(join(&strings(&["a", "b"]), ""), "ab");
}

#[test]
fn new_failure_has_one_message() {
    let failure = Failure::new("root".to_string());
    assert_eq!(failure.len(), 1);
    assert_eq!(failure.messages(), &strings(&["root"]));
    assert_eq!(failure.message(), "root");
    assert_eq!(failure.root_cause(), "root");
}

#[test]
fn context_goes_in_front() {
    let failure = Failure::new("root".to_string())
        .context("middle".to_string())
        .context("outer".to_string());
    assert_eq!(failure.len(), 3);
    assert_eq!(failure.messages(), &strings(&["outer", "middle", "root"]));
    assert_eq!(failure.message(), "outer");
    assert_eq!(failure.root_cause(), "root");
}

#[test]
fn from_messages_needs_one_message() {
    assert!(Failure::from_messages(Vec::new()).is_none());
    let failure = Failure::from_messages(strings(&["outer", "root"])).unwrap();
    assert_eq!(failure.messages(), &strings(&["outer", "root"]));
}

#[test]
fn terse_rendering_is_one_line() {
    let failure = Failure::from_messages(strings(&["outer", "middle", "root"])).unwrap();
    assert_eq!(failure.terse(), "outer: middle: root");
    assert_eq!(Failure::new("root".to_string()).terse(), "root");
}

#[test]
fn verbose_rendering_has_a_line_for_each_cause() {
    let failure = Failure::from_messages(strings(&["outer", "middle", "root"])).unwrap();
    assert_eq!(failure.verbose(), "outer\n  caused by: middle\n  caused by: root");
    assert_eq!(failure.verbose().lines().count(), 3);
    assert_eq!(Failure::new("root".to_string()).verbose(), "root");
}

#[test]
fn separators_inside_a_message_are_kept() {
    let failure = Failure::from_messages(strings(&["a: b", "c\nd"])).unwrap();
    assert_eq!(failure.terse(), "a: b: c\nd");
    assert_eq!(failure.verbose(), "a: b\n  caused by: c\nd");
}
