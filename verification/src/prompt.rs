//! The text of the interactive prompt.
//!
//! The prompt shows the state of the chain in color. Colors are ANSI escape
//! sequences: `ESC [ code m`, the text, `ESC [ 0 m`. The codes are those of
//! the `fern` logger's palette, so that prompt and log lines match.

use vstd::prelude::*;
use vstd::string::StringExecFns;

verus! {

/// The colors that the prompt uses.
#[derive(Clone, Copy, Debug, PartialEq, Eq, Structural)]
pub enum Color {
    Green,
    Yellow,
    Blue,
    BrightBlack,
}

/// The ANSI foreground code of a color.
pub open spec fn fg_code(color: Color) -> Seq<char> {
    match color {
        Color::Green => "32"@,
        Color::Yellow => "33"@,
        Color::Blue => "34"@,
        Color::BrightBlack => "90"@,
    }
}

/// `Color::to_fg_str` of `fern::colors::Color`: the foreground code of the
/// color, a constant for each color.
#[verifier::external_body]
fn color_fg_str(color: Color) -> (r: &'static str)
    ensures
        r@ == fg_code(color),
{
    match color {
        Color::Green => fern::colors::Color::Green.to_fg_str(),
        Color::Yellow => fern::colors::Color::Yellow.to_fg_str(),
        Color::Blue => fern::colors::Color::Blue.to_fg_str(),
        Color::BrightBlack => fern::colors::Color::BrightBlack.to_fg_str(),
    }
}

/// `text` in `color`: switched on before it, reset after it.
pub open spec fn colorized(color: Color, text: Seq<char>) -> Seq<char> {
    "\x1B["@ + fg_code(color) + "m"@ + text + "\x1B[0m"@
}

/// The character for a digit.
pub open spec fn digit_char(digit: int) -> char
    recommends
        0 <= digit < 10,
{
    if digit == 0 {
        '0'
    } else if digit == 1 {
        '1'
    } else if digit == 2 {
        '2'
    } else if digit == 3 {
        '3'
    } else if digit == 4 {
        '4'
    } else if digit == 5 {
        '5'
    } else if digit == 6 {
        '6'
    } else if digit == 7 {
        '7'
    } else if digit == 8 {
        '8'
    } else {
        '9'
    }
}

/// A number in decimal, without leading zeros.
pub open spec fn decimal(n: nat) -> Seq<char>
    decreases n,
{
    if n < 10 {
        seq![digit_char(n as int)]
    } else {
        decimal(n / 10).push(digit_char((n % 10) as int))
    }
}

/// The prompt line for a chain at `height` (the best known being
/// `best_height`) and `topoheight`, with `peers_count` peers connected.
pub open spec fn prompt_message(
    topoheight: u64,
    height: u64,
    best_height: u64,
    peers_count: usize,
) -> Seq<char> {
    colorized(Color::Blue, "XELIS"@) + " | "@ + colorized(Color::Yellow, "Height"@) + ": "@
        + colorized(Color::Green, decimal(height as nat)) + "/"@ + colorized(
        Color::Green,
        decimal(best_height as nat),
    ) + " | "@ + colorized(Color::Yellow, "TopoHeight"@) + ": "@ + colorized(
        Color::Green,
        decimal(topoheight as nat),
    ) + " | "@ + colorized(Color::Yellow, "Peers"@) + ": "@ + colorized(
        Color::Green,
        decimal(peers_count as nat),
    ) + " "@ + colorized(Color::BrightBlack, ">>"@) + " "@
}

/// The one-character text of a digit.
fn digit_str(digit: u64) -> (r: &'static str)
    requires
        digit < 10,
    ensures
        r@ == seq![digit_char(digit as int)],
{
    proof {
        reveal_strlit("0");
        reveal_strlit("1");
        reveal_strlit("2");
        reveal_strlit("3");
        reveal_strlit("4");
        reveal_strlit("5");
        reveal_strlit("6");
        reveal_strlit("7");
        reveal_strlit("8");
        reveal_strlit("9");
    }
    let r = if digit == 0 {
        "0"
    } else if digit == 1 {
        "1"
    } else if digit == 2 {
        "2"
    } else if digit == 3 {
        "3"
    } else if digit == 4 {
        "4"
    } else if digit == 5 {
        "5"
    } else if digit == 6 {
        "6"
    } else if digit == 7 {
        "7"
    } else if digit == 8 {
        "8"
    } else {
        "9"
    };
    assert(r@ =~= seq![digit_char(digit as int)]);
    r
}

/// A number as decimal text.
pub fn decimal_string(n: u64) -> (r: String)
    ensures
        r@ == decimal(n as nat),
    decreases n,
{
    if n < 10 {
        String::from_str(digit_str(n))
    } else {
        let mut r = decimal_string(n / 10);
        r.append(digit_str(n % 10));
        assert(r@ =~= decimal(n as nat));
        r
    }
}

/// Wraps `message` in the escape sequences that show it in `color`.
pub fn colorize_str(color: Color, message: &str) -> (r: String)
    ensures
        r@ == colorized(color, message@),
{
    let mut r = String::from_str("\x1B[");
    r.append(color_fg_str(color));
    r.append("m");
    r.append(message);
    r.append("\x1B[0m");
    r
}

/// Wraps `message` in the escape sequences that show it in `color`.
pub fn colorize_string(color: Color, message: &String) -> (r: String)
    ensures
        r@ == colorized(color, message@),
{
    colorize_str(color, message.as_str())
}

/// The prompt line: the chain's name, its height over the best height known
/// among peers, its topological height and the number of peers, then `>>`.
pub fn build_prompt_message(
    topoheight: u64,
    height: u64,
    best_height: u64,
    peers_count: usize,
) -> (r: String)
    ensures
        r@ == prompt_message(topoheight, height, best_height, peers_count),
{
    let mut r = colorize_str(Color::Blue, "XELIS");
    r.append(" | ");
    r.append(colorize_str(Color::Yellow, "Height").as_str());
    r.append(": ");
    r.append(colorize_string(Color::Green, &decimal_string(height)).as_str());
    r.append("/");
    r.append(colorize_string(Color::Green, &decimal_string(best_height)).as_str());
    r.append(" | ");
    r.append(colorize_str(Color::Yellow, "TopoHeight").as_str());
    r.append(": ");
    r.append(colorize_string(Color::Green, &decimal_string(topoheight)).as_str());
    r.append(" | ");
    r.append(colorize_str(Color::Yellow, "Peers").as_str());
    r.append(": ");
    r.append(colorize_string(Color::Green, &decimal_string(peers_count as u64)).as_str());
    r.append(" ");
    r.append(colorize_str(Color::BrightBlack, ">>").as_str());
    r.append(" ");
    r
}

/// What the `help` command shows of a command.
#[derive(Debug)]
pub struct CommandHelp {
    pub name: String,
    pub description: String,
    pub usage: String,
}

/// No command has the name that was asked for.
#[derive(Clone, Copy, Debug, PartialEq, Eq, Structural)]
pub struct CommandNotFound;

/// The line that tells how to call a command.
pub open spec fn usage_line(command: CommandHelp) -> Seq<char> {
    "Usage: "@ + command.usage@
}

/// The line that presents a command in the list of all commands.
pub open spec fn summary_line(command: CommandHelp) -> Seq<char> {
    "- "@ + command.name@ + ": "@ + command.description@
}

/// Whether a command named `name` stands in front of position `end`.
pub open spec fn has_command_before(commands: Seq<CommandHelp>, name: Seq<char>, end: int) -> bool {
    exists|i: int| 0 <= i < end && (#[trigger] commands[i]).name@ == name
}

/// What `help` prints. Asked about one command, it tells how to call the
/// first command of that name, and fails when there is none; asked about
/// nothing, it lists all commands in their order under a heading.
pub fn help(commands: &Vec<CommandHelp>, command: Option<&String>) -> (r: Result<
    Vec<String>,
    CommandNotFound,
>)
    ensures
        match command {
            Some(name) => match r {
                Ok(lines) => exists|i: int|
                    {
                        &&& 0 <= i < commands@.len()
                        &&& (#[trigger] commands@[i]).name@ == name@
                        &&& !has_command_before(commands@, name@, i)
                        &&& lines@.len() == 1
                        &&& lines@[0]@ == usage_line(commands@[i])
                    },
                Err(_) => !has_command_before(commands@, name@, commands@.len() as int),
            },
            None => {
                &&& r matches Ok(lines)
                &&& lines@.len() == commands@.len() + 1
                &&& lines@[0]@ == "Available commands:"@
                &&& forall|i: int|
                    0 <= i < commands@.len() ==> (#[trigger] lines@[i + 1])@ == summary_line(
                        commands@[i],
                    )
            },
        },
{
    let mut lines: Vec<String> = Vec::new();
    match command {
        Some(name) => {
            let mut i: usize = 0;
            while i < commands.len()
                invariant
                    i <= commands@.len(),
                    command == Some(name),
                    lines@.len() == 0,
                    !has_command_before(commands@, name@, i as int),
                decreases commands@.len() - i,
            {
                if commands[i].name == *name {
                    let mut line = String::from_str("Usage: ");
                    line.append(commands[i].usage.as_str());
                    lines.push(line);
                    assert(commands@[i as int].name@ == name@);
                    return Ok(lines);
                }
                i += 1;
            }
            Err(CommandNotFound)
        },
        None => {
            lines.push(String::from_str("Available commands:"));
            let mut i: usize = 0;
            while i < commands.len()
                invariant
                    i <= commands@.len(),
                    lines@.len() == i + 1,
                    lines@[0]@ == "Available commands:"@,
                    forall|j: int|
                        0 <= j < i ==> (#[trigger] lines@[j + 1])@ == summary_line(commands@[j]),
                decreases commands@.len() - i,
            {
                let mut line = String::from_str("- ");
                line.append(commands[i].name.as_str());
                line.append(": ");
                line.append(commands[i].description.as_str());
                lines.push(line);
                i += 1;
            }
            Ok(lines)
        },
    }
}

} // verus!
