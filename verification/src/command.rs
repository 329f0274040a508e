use vstd::prelude::*;
use vstd::string::StringExecFns;
use vampirc_uci::{Serializable, UciFen, UciMessage, UciSearchControl};

verus! {

/// A command that the driver sends to the engine.
#[derive(Clone, PartialEq, Eq, Debug)]
pub enum Command {
    /// The protocol handshake.
    Handshake,
    /// Sets the engine option `name` to `value`.
    SetOption { name: String, value: String },
    /// Sets the position to search, with no moves played from it.
    SetPosition { notation: String },
    /// Starts a search bounded by depth alone.
    Search { depth: u8 },
    /// Asks the engine to shut down.
    Quit,
}

/// The mathematical value of a [`Command`].
pub enum CommandView {
    Handshake,
    SetOption { name: Seq<char>, value: Seq<char> },
    SetPosition { notation: Seq<char> },
    Search { depth: u8 },
    Quit,
}

impl View for Command {
    type V = CommandView;

    open spec fn view(&self) -> CommandView {
        match self {
            Command::Handshake => CommandView::Handshake,
            Command::SetOption { name, value } => CommandView::SetOption { name: name@, value: value@ },
            Command::SetPosition { notation } => CommandView::SetPosition { notation: notation@ },
            Command::Search { depth } => CommandView::Search { depth: *depth },
            Command::Quit => CommandView::Quit,
        }
    }
}

/// The character that writes a digit.
pub open spec fn digit_char(digit: nat) -> char {
    if digit == 0 {
        '0'
    } else if digit == 1 {
        '1'
    } else if digit == 2 {
        '2'
    } else if digit == 3 {
        '3'
    } else if digit == 4 {
        '4'
    } else if digit == 5 {
        '5'
    } else if digit == 6 {
        '6'
    } else if digit == 7 {
        '7'
    } else if digit == 8 {
        '8'
    } else {
        '9'
    }
}

/// A number written in decimal, without leading zeros.
pub open spec fn decimal(n: nat) -> Seq<char>
    decreases n,
{
    if n < 10 {
        seq![digit_char(n)]
    } else {
        decimal(n / 10).push(digit_char(n % 10))
    }
}

/// The text of a command on the wire, without the line end.
pub open spec fn command_text(command: CommandView) -> Seq<char> {
    match command {
        CommandView::Handshake => "uci"@,
        CommandView::SetOption { name, value } => "setoption name "@ + name + if value.len() == 0 {
            " value <empty>"@
        } else {
            " value "@ + value
        },
        CommandView::SetPosition { notation } => "position fen "@ + notation,
        CommandView::Search { depth } => "go depth "@ + decimal(depth as nat) + " "@,
        CommandView::Quit => "quit"@,
    }
}

/// The line that carries a command to the engine.
pub open spec fn command_line(command: CommandView) -> Seq<char> {
    command_text(command).push('\n')
}

/// Builds the `vampirc_uci::UciMessage` that a command stands for and calls its `serialize`.
/// The contract repeats what that function writes for these five messages: the bare words
/// `uci` and `quit`; `setoption name`, the name, ` value` and the value, an empty value
/// written `<empty>`; `position fen` and the notation, with no move list; `go depth`, the
/// depth in decimal and a closing space.
#[verifier::external_body]
fn serialize(command: &Command) -> (text: String)
    ensures
        text@ == command_text(command@),
{
    match command {
        Command::Handshake => UciMessage::Uci,
        Command::SetOption { name, value } => UciMessage::SetOption { name: name.clone(), value: Some(value.clone()) },
        Command::SetPosition { notation } => UciMessage::Position { startpos: false, fen: Some(UciFen::from(notation.as_str())), moves: Vec::new() },
        Command::Search { depth } => UciMessage::Go { time_control: None, search_control: Some(UciSearchControl::depth(*depth)) },
        Command::Quit => UciMessage::Quit,
    }.serialize()
}

/// The line to write for a command: its text and a line end.
pub fn write_message(message: &Command) -> (line: String)
    ensures
        line@ == command_line(message@),
{
    let text = serialize(message);
    proof {
        reveal_strlit("\n");
        assert("\n"@ == seq!['\n']);
    }
    let line = text.concat("\n");
    assert(line@ == command_text(message@).push('\n'));
    line
}

/// The text of one digit.
fn digit_text(digit: u64) -> (text: &'static str)
    requires
        digit < 10,
    ensures
        text@ == seq![digit_char(digit as nat)],
{
    proof {
        reveal_strlit("0");
        reveal_strlit("1");
        reveal_strlit("2");
        reveal_strlit("3");
        reveal_strlit("4");
        reveal_strlit("5");
        reveal_strlit("6");
        reveal_strlit("7");
        reveal_strlit("8");
        reveal_strlit("9");
    }
    let text = if digit == 0 {
        "0"
    } else if digit == 1 {
        "1"
    } else if digit == 2 {
        "2"
    } else if digit == 3 {
        "3"
    } else if digit == 4 {
        "4"
    } else if digit == 5 {
        "5"
    } else if digit == 6 {
        "6"
    } else if digit == 7 {
        "7"
    } else if digit == 8 {
        "8"
    } else {
        "9"
    };
    assert(text@ =~= seq![digit_char(digit as nat)]);
    text
}

/// Writes a number in decimal.
pub fn decimal_string(n: u64) -> (text: String)
    ensures
        text@ == decimal(n as nat),
    decreases n,
{
    if n < 10 {
        String::from_str(digit_text(n))
    } else {
        let head = decimal_string(n / 10);
        let text = head.concat(digit_text(n % 10));
        assert(text@ =~= decimal(n as nat / 10).push(digit_char(n as nat % 10)));
        text
    }
}

} // verus!
