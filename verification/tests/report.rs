use horizon::input::Error;
use horizon::report::report;

#[test]
fn report_lays_out_the_four_numbers() {
    let text = report("341136", "211.97", "341.14", "341462");
    assert_eq!(
        text,
        "Ground distance:\n\n341136 m\n211.97 mi\n341.14 km\n\nSlant range:\n\n341462 m"
    );
}

#[test]
fn report_has_eight_lines_and_no_trailing_break() {
    let text = report("1", "2", "3", "4");
    let lines: Vec<&str> = text.split('\n').collect();
    assert_eq!(lines, vec!["Ground distance:", "", "1 m", "2 mi", "3 km", "", "Slant range:", "", "4 m"]);
    assert!(!text.ends_with('\n'));
}

#[test]
fn report_keeps_each_number_in_its_place() {
    let text = report("a", "b", "c", "d");
    assert_eq!(text, "Ground distance:\n\na m\nb mi\nc km\n\nSlant range:\n\nd m");
    let text = report("", "", "", "");
    assert_eq!(text, "Ground distance:\n\n m\n mi\n km\n\nSlant range:\n\n m");
}

#[test]
fn observer_message_names_the_observer() {
    let e = Error::Observer(0.0_f64.to_bits());
    let shown = format!("{}", f64::from_bits(e.height()));
    assert_eq!(e.message(&shown), "observer must have positive non-zero height: 0");
}

#[test]
fn subject_message_names_the_subject() {
    let e = Error::Subject((-5.0_f64).to_bits());
    let shown = format!("{}", f64::from_bits(e.height()));
    assert_eq!(e.message(&shown), "subject must have positive non-zero height: -5");
}

#[test]
fn message_is_a_single_line() {
    let e = Error::Observer((-0.25_f64).to_bits());
    let line = e.message("-0.25");
    assert_eq!(line, "observer must have positive non-zero height: -0.25");
    assert!(!line.contains('\n'));
}
