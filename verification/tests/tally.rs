use sync_primitives::tally::{count_accepted, count_taken};

#[test]
fn count_accepted_adds_one_for_a_success() {
    assert_eq!(count_accepted(0, Ok(())), Some(1));
    assert_eq!(count_accepted(19, Ok(())), Some(20));
    assert_eq!(count_accepted(usize::MAX - 1, Ok(())), Some(usize::MAX));
}

#[test]
fn count_accepted_ends_the_run_on_a_refusal() {
    assert_eq!(count_accepted(0, Err(7)), None);
    assert_eq!(count_accepted(19, Err(0)), None);
}

#[test]
fn count_taken_adds_one_for_an_item() {
    assert_eq!(count_taken(0, Some(5)), 1);
    assert_eq!(count_taken(41, Some(0)), 42);
}

#[test]
fn count_taken_stays_for_an_empty_answer() {
    assert_eq!(count_taken(0, None), 0);
    assert_eq!(count_taken(41, None), 41);
}
