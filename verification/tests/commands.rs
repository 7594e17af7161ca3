use mover_controller::command::{parse_command, Command, Parameter};

fn assign(parameter: Parameter, value: &[u8]) -> Command {
    Command::Assign { parameter, value: value.to_vec() }
}

#[test]
fn question_mark_asks_for_report() {
    assert_eq!(parse_command(b"?"), Command::Query);
}

#[test]
fn other_short_lines_are_ignored() {
    assert_eq!(parse_command(b""), Command::Ignored);
    assert_eq!(parse_command(b"??"), Command::Ignored);
    assert_eq!(parse_command(b"ta"), Command::Ignored);
    assert_eq!(parse_command(b"k"), Command::Ignored);
}

#[test]
fn each_parameter_is_named_by_its_code() {
    assert_eq!(parse_command(b"ta 1.5"), assign(Parameter::TargetA, b"1.5"));
    assert_eq!(parse_command(b"tb -20"), assign(Parameter::TargetB, b"-20"));
    assert_eq!(parse_command(b"kp 1000"), assign(Parameter::Kp, b"1000"));
    assert_eq!(parse_command(b"ki 800"), assign(Parameter::Ki, b"800"));
    assert_eq!(parse_command(b"kd 0"), assign(Parameter::Kd, b"0"));
}

#[test]
fn equals_sign_separates_too() {
    assert_eq!(parse_command(b"kp=2.5"), assign(Parameter::Kp, b"2.5"));
    assert_eq!(parse_command(b"ta="), assign(Parameter::TargetA, b""));
}

#[test]
fn other_separators_are_ignored() {
    assert_eq!(parse_command(b"ta:1"), Command::Ignored);
    assert_eq!(parse_command(b"ta1.5"), Command::Ignored);
}

#[test]
fn unknown_codes_are_ignored() {
    assert_eq!(parse_command(b"tc 1"), Command::Ignored);
    assert_eq!(parse_command(b"TA 1"), Command::Ignored);
    assert_eq!(parse_command(b"stby"), Command::Ignored);
    assert_eq!(parse_command(b"st 1"), Command::Ignored);
}

#[test]
fn value_text_is_passed_through_unparsed() {
    assert_eq!(parse_command(b"kd abc def"), assign(Parameter::Kd, b"abc def"));
}
