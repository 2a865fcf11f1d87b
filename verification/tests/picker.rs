use go_to::controller::{Effect, Phase, PickerController};
use go_to::numeric::{decimal_string, parse_positive};
use go_to::state::PickerState;

fn validated_after(total: usize, input: &str) -> Option<usize> {
    let mut st = PickerState::new(total);
    st.on_input_changed(String::from(input));
    st.validated_selection()
}

#[test]
fn validates_in_range_number() {
    assert_eq!(validated_after(10, "5"), Some(5));
    assert_eq!(validated_after(10, "1"), Some(1));
    assert_eq!(validated_after(10, "10"), Some(10));
}

#[test]
fn validates_trimmed_input() {
    assert_eq!(validated_after(10, " 5 "), Some(5));
    assert_eq!(validated_after(10, "\t7\n"), Some(7));
    assert_eq!(validated_after(10, "\u{a0}3\u{3000}"), Some(3));
}

#[test]
fn rejects_out_of_range() {
    assert_eq!(validated_after(10, "11"), None);
    assert_eq!(validated_after(10, "42"), None);
    assert_eq!(validated_after(0, "1"), None);
}

#[test]
fn rejects_zero_and_non_numeric() {
    assert_eq!(validated_after(10, "0"), None);
    assert_eq!(validated_after(10, "000"), None);
    assert_eq!(validated_after(10, ""), None);
    assert_eq!(validated_after(10, "   "), None);
    assert_eq!(validated_after(10, "abc"), None);
    assert_eq!(validated_after(10, "5a"), None);
    assert_eq!(validated_after(10, "-5"), None);
    assert_eq!(validated_after(10, "1 0"), None);
}

#[test]
fn accepts_leading_zeros() {
    assert_eq!(validated_after(10, "007"), Some(7));
}

#[test]
fn parse_handles_usize_bounds() {
    let max = usize::MAX.to_string();
    assert_eq!(parse_positive(&max), Some(usize::MAX));
    let over = format!("{}0", max);
    assert_eq!(parse_positive(&over), None);
    let way_over = "999999999999999999999999999999999999999";
    assert_eq!(parse_positive(way_over), None);
}

#[test]
fn input_change_is_idempotent() {
    let mut once = PickerState::new(10);
    once.on_input_changed(String::from("5"));
    let mut twice = PickerState::new(10);
    twice.on_input_changed(String::from("5"));
    twice.on_input_changed(String::from("5"));
    assert_eq!(once.status_text(), twice.status_text());
    assert_eq!(once.validated_selection(), twice.validated_selection());
    assert_eq!(once.raw_input(), twice.raw_input());
}

#[test]
fn status_text_reports_total_on_open() {
    let st = PickerState::new(10);
    assert_eq!(st.status_text(), "Total targets: 10");
    let st0 = PickerState::new(0);
    assert_eq!(st0.status_text(), "Total targets: 0");
}

#[test]
fn status_text_names_range_after_edit() {
    let mut st = PickerState::new(10);
    st.on_input_changed(String::from("abc"));
    assert_eq!(st.status_text(), "Enter a number between 1 and 10");
    st.on_input_changed(String::from("5"));
    assert_eq!(st.status_text(), "Enter a number between 1 and 10");
}

#[test]
fn decimal_rendering() {
    assert_eq!(decimal_string(0), "0");
    assert_eq!(decimal_string(7), "7");
    assert_eq!(decimal_string(10), "10");
    assert_eq!(decimal_string(90125), "90125");
    assert_eq!(decimal_string(usize::MAX), usize::MAX.to_string());
}

#[test]
fn confirm_with_valid_selection_opens_then_dismisses() {
    let mut c = PickerController::new(10);
    let e1 = c.on_text_changed(String::from("5"));
    assert!(e1.is_empty());
    let e2 = c.on_confirm();
    assert_eq!(e2, vec![Effect::OpenTarget(5), Effect::Dismiss]);
    assert_eq!(c.phase(), Phase::Confirmed);
}

#[test]
fn confirm_with_out_of_range_selection_only_dismisses() {
    let mut c = PickerController::new(10);
    c.on_text_changed(String::from("42"));
    let effects = c.on_confirm();
    assert_eq!(effects, vec![Effect::Dismiss]);
    assert_eq!(c.phase(), Phase::Confirmed);
}

#[test]
fn confirm_with_non_numeric_input_only_dismisses() {
    let mut c = PickerController::new(10);
    c.on_text_changed(String::from("abc"));
    let effects = c.on_confirm();
    assert_eq!(effects, vec![Effect::Dismiss]);
    assert_eq!(c.phase(), Phase::Confirmed);
}

#[test]
fn confirm_with_empty_input_only_dismisses() {
    let mut c = PickerController::new(10);
    let effects = c.on_confirm();
    assert_eq!(effects, vec![Effect::Dismiss]);
    assert_eq!(c.phase(), Phase::Confirmed);
}

#[test]
fn cancel_never_opens_a_target() {
    for input in ["", "5", "42", "abc", "   9   "] {
        let mut c = PickerController::new(10);
        c.on_text_changed(String::from(input));
        let effects = c.on_cancel();
        assert_eq!(effects, vec![Effect::Dismiss]);
        assert_eq!(c.phase(), Phase::Cancelled);
    }
}

#[test]
fn focus_loss_behaves_like_cancel() {
    for input in ["", "5", "42", "abc"] {
        let mut by_cancel = PickerController::new(10);
        by_cancel.on_text_changed(String::from(input));
        let cancel_effects = by_cancel.on_cancel();

        let mut by_focus = PickerController::new(10);
        by_focus.on_text_changed(String::from(input));
        let focus_effects = by_focus.on_focus_lost();

        assert_eq!(focus_effects, cancel_effects);
        assert_eq!(by_focus.phase(), by_cancel.phase());
        assert_eq!(by_focus.status_text(), by_cancel.status_text());
    }
}

#[test]
fn notifications_after_terminal_phase_are_no_ops() {
    let mut c = PickerController::new(10);
    c.on_text_changed(String::from("5"));
    let first = c.on_confirm();
    assert_eq!(first, vec![Effect::OpenTarget(5), Effect::Dismiss]);
    let status_before = c.status_text();

    assert!(c.on_confirm().is_empty());
    assert!(c.on_cancel().is_empty());
    assert!(c.on_focus_lost().is_empty());
    assert!(c.on_text_changed(String::from("9")).is_empty());
    assert_eq!(c.phase(), Phase::Confirmed);
    assert_eq!(c.status_text(), status_before);
    assert_eq!(c.validated_selection(), Some(5));

    let mut cancelled = PickerController::new(10);
    let only = cancelled.on_cancel();
    assert_eq!(only, vec![Effect::Dismiss]);
    assert!(cancelled.on_cancel().is_empty());
    assert!(cancelled.on_confirm().is_empty());
    assert_eq!(cancelled.phase(), Phase::Cancelled);
}

#[test]
fn zero_targets_never_confirms_an_open() {
    let mut c = PickerController::new(0);
    c.on_text_changed(String::from("1"));
    let effects = c.on_confirm();
    assert_eq!(effects, vec![Effect::Dismiss]);
    assert_eq!(c.phase(), Phase::Confirmed);
}
