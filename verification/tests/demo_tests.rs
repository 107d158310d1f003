use counter_demo::borrowing::be_deceived;
use counter_demo::borrowing::be_relieved;
use counter_demo::borrowing::just_print_i_swear;
use counter_demo::borrowing::just_print_i_swear_for_real;
use counter_demo::errors::handle_failures;
use counter_demo::errors::something_that_may_fail;
use counter_demo::errors::something_that_may_fail_with_result;
use counter_demo::ownership::do_with_str;
use counter_demo::ownership::pass_vec;

#[test]
fn do_with_str_returns_the_moved_text() {
    let r = do_with_str(String::from("anything at all"));
    assert_eq!(r, "anything at all");
}

#[test]
fn pass_vec_reports_test() {
    assert_eq!(pass_vec(), "Test");
}

#[test]
fn mutable_borrow_is_overwritten() {
    let mut s = String::from("Innocent String");
    let printed = just_print_i_swear(&mut s);
    assert_eq!(printed, "Innocent String");
    assert_eq!(
        s,
        "I lied! But what did you expect? You gave me an explicit mutable ref."
    );
}

#[test]
fn shared_borrow_is_left_alone() {
    let s = String::from("Actually Innocent String");
    let printed = just_print_i_swear_for_real(&s);
    assert_eq!(printed, "Actually Innocent String");
    assert_eq!(s, "Actually Innocent String");
}

#[test]
fn be_deceived_reports_both_lines() {
    let lines = be_deceived();
    assert_eq!(lines.len(), 2);
    assert_eq!(lines[0], "Innocent String");
    assert_eq!(
        lines[1],
        "I lied! But what did you expect? You gave me an explicit mutable ref."
    );
}

#[test]
fn be_relieved_reports_the_same_line_twice() {
    let lines = be_relieved();
    assert_eq!(lines.len(), 2);
    assert_eq!(lines[0], "Actually Innocent String");
    assert_eq!(lines[1], "Actually Innocent String");
}

#[test]
fn fallible_operations_always_fail() {
    assert!(something_that_may_fail().is_err());
    assert!(something_that_may_fail_with_result().is_err());
}

#[test]
fn handle_failures_reports_one_abort_line() {
    let lines = handle_failures();
    assert_eq!(lines.len(), 1);
    assert_eq!(lines[0], "Something failed. Aborting...");
}
