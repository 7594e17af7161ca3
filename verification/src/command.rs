use vstd::prelude::*;

verus! {

/// `?`: the line that asks for a status report.
pub const QUERY: u8 = 0x3f;

/// A space, one of the two separators between a parameter's code and its value.
pub const SPACE: u8 = 0x20;

/// `=`, the other separator between a parameter's code and its value.
pub const EQUALS: u8 = 0x3d;

/// A parameter that a command line can set.
#[derive(Clone, Copy, Debug, PartialEq, Eq, Structural)]
pub enum Parameter {
    /// `ta`: the target speed of motor A.
    TargetA,
    /// `tb`: the target speed of motor B.
    TargetB,
    /// `kp`: the proportional gain.
    Kp,
    /// `ki`: the integral gain.
    Ki,
    /// `kd`: the derivative gain.
    Kd,
}

/// What a command line asks for.
#[derive(Clone, Debug, PartialEq, Eq)]
pub enum Command {
    /// Nothing: the line is empty, too short, has no separator after its
    /// code, or names no parameter.
    Ignored,
    /// A status report.
    Query,
    /// A new value for a parameter, as the text that follows the separator.
    Assign { parameter: Parameter, value: Vec<u8> },
}

/// A command with its value text as a sequence of bytes.
pub enum CommandView {
    Ignored,
    Query,
    Assign { parameter: Parameter, value: Seq<u8> },
}

impl View for Command {
    type V = CommandView;

    open spec fn view(&self) -> CommandView {
        match self {
            Command::Ignored => CommandView::Ignored,
            Command::Query => CommandView::Query,
            Command::Assign { parameter, value } => CommandView::Assign {
                parameter: *parameter,
                value: value@,
            },
        }
    }
}

/// The parameter that a two-byte code names, if any.
pub open spec fn parameter_named(code: Seq<u8>) -> Option<Parameter> {
    if code == seq![0x74u8, 0x61u8] {
        Some(Parameter::TargetA)
    } else if code == seq![0x74u8, 0x62u8] {
        Some(Parameter::TargetB)
    } else if code == seq![0x6bu8, 0x70u8] {
        Some(Parameter::Kp)
    } else if code == seq![0x6bu8, 0x69u8] {
        Some(Parameter::Ki)
    } else if code == seq![0x6bu8, 0x64u8] {
        Some(Parameter::Kd)
    } else {
        None
    }
}

/// What a line asks for: `?` alone asks for a report; a line of at least
/// three bytes whose third byte is a space or `=` sets the parameter that its
/// first two bytes name to the text after the separator; anything else is
/// ignored.
pub open spec fn command_of(line: Seq<u8>) -> CommandView {
    if line == seq![QUERY] {
        CommandView::Query
    } else if line.len() < 3 {
        CommandView::Ignored
    } else if line[2] != SPACE && line[2] != EQUALS {
        CommandView::Ignored
    } else {
        match parameter_named(line.take(2)) {
            Some(parameter) => CommandView::Assign { parameter, value: line.skip(3) },
            None => CommandView::Ignored,
        }
    }
}

/// The parameter that the two bytes name, if any.
fn parameter_from_code(first: u8, second: u8) -> (parameter: Option<Parameter>)
    ensures
        parameter == parameter_named(seq![first, second]),
{
    if first == 0x74 && second == 0x61 {
        Some(Parameter::TargetA)
    } else if first == 0x74 && second == 0x62 {
        Some(Parameter::TargetB)
    } else if first == 0x6b && second == 0x70 {
        Some(Parameter::Kp)
    } else if first == 0x6b && second == 0x69 {
        Some(Parameter::Ki)
    } else if first == 0x6b && second == 0x64 {
        Some(Parameter::Kd)
    } else {
        None
    }
}

/// The bytes of `bytes` from `start` on.
fn bytes_from(bytes: &[u8], start: usize) -> (tail: Vec<u8>)
    requires
        start <= bytes.len(),
    ensures
        tail@ == bytes@.skip(start as int),
{
    let mut tail: Vec<u8> = Vec::new();
    let mut i: usize = start;
    while i < bytes.len()
        invariant
            start <= i <= bytes.len(),
            tail@ == bytes@.subrange(start as int, i as int),
        decreases bytes.len() - i,
    {
        tail.push(bytes[i]);
        i = i + 1;
        assert(tail@ =~= bytes@.subrange(start as int, i as int));
    }
    assert(bytes@.subrange(start as int, bytes.len() as int) =~= bytes@.skip(start as int));
    tail
}

/// Reads what a command line asks for.
pub fn parse_command(line: &[u8]) -> (command: Command)
    ensures
        command@ == command_of(line@),
{
    if line.len() == 1 && line[0] == QUERY {
        assert(line@ =~= seq![QUERY]);
        return Command::Query;
    }
    if line.len() < 3 {
        return Command::Ignored;
    }
    let separator = line[2];
    if separator != SPACE && separator != EQUALS {
        return Command::Ignored;
    }
    assert(line@.take(2) =~= seq![line@[0], line@[1]]);
    match parameter_from_code(line[0], line[1]) {
        Some(parameter) => Command::Assign { parameter, value: bytes_from(line, 3) },
        None => Command::Ignored,
    }
}

/// A space and an `=` are interchangeable as the separator: a line that names
/// a parameter sets it to the text after the separator either way, and a line
/// whose first two bytes name no parameter is ignored either way.
pub proof fn lemma_separators_agree(code: Seq<u8>, value: Seq<u8>)
    requires
        code.len() == 2,
    ensures
        command_of(code.push(SPACE) + value) == command_of(code.push(EQUALS) + value),
        command_of(code.push(SPACE) + value) == match parameter_named(code) {
            Some(parameter) => CommandView::Assign { parameter, value },
            None => CommandView::Ignored,
        },
{
    let spaced = code.push(SPACE) + value;
    let equals = code.push(EQUALS) + value;
    assert(spaced[2] == SPACE);
    assert(equals[2] == EQUALS);
    assert(spaced.take(2) =~= code);
    assert(equals.take(2) =~= code);
    assert(spaced.skip(3) =~= value);
    assert(equals.skip(3) =~= value);
    assert(spaced.len() != 1);
    assert(equals.len() != 1);
}

} // verus!
