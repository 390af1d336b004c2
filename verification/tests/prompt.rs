use xelis_common::prompt::{
    build_prompt_message, colorize_str, colorize_string, decimal_string, help, Color, CommandHelp,
    CommandNotFound,
};

fn commands() -> Vec<CommandHelp> {
    vec![
        CommandHelp {
            name: String::from("help"),
            description: String::from("Show this help"),
            usage: String::from("help [command]"),
        },
        CommandHelp {
            name: String::from("exit"),
            description: String::from("Shutdown the daemon"),
            usage: String::from("exit"),
        },
        CommandHelp {
            name: String::from("help"),
            description: String::from("A second command of the same name"),
            usage: String::from("never shown"),
        },
    ]
}

#[test]
fn help_lists_all_commands() {
    assert_eq!(
        help(&commands(), None),
        Ok(vec![
            String::from("Available commands:"),
            String::from("- help: Show this help"),
            String::from("- exit: Shutdown the daemon"),
            String::from("- help: A second command of the same name"),
        ])
    );
    assert_eq!(help(&Vec::new(), None), Ok(vec![String::from("Available commands:")]));
}

#[test]
fn help_shows_the_usage_of_one_command() {
    assert_eq!(
        help(&commands(), Some(&String::from("exit"))),
        Ok(vec![String::from("Usage: exit")])
    );
    assert_eq!(
        help(&commands(), Some(&String::from("help"))),
        Ok(vec![String::from("Usage: help [command]")])
    );
}

#[test]
fn help_fails_on_an_unknown_command() {
    assert_eq!(help(&commands(), Some(&String::from("quit"))), Err(CommandNotFound));
    assert_eq!(help(&commands(), Some(&String::from(""))), Err(CommandNotFound));
    assert_eq!(help(&Vec::new(), Some(&String::from("help"))), Err(CommandNotFound));
}

#[test]
fn decimal_text() {
    assert_eq!(decimal_string(0), "0");
    assert_eq!(decimal_string(7), "7");
    assert_eq!(decimal_string(10), "10");
    assert_eq!(decimal_string(1234567890), "1234567890");
    assert_eq!(decimal_string(u64::MAX), "18446744073709551615");
}

#[test]
fn colors_use_the_ansi_codes() {
    assert_eq!(colorize_str(Color::Green, "ok"), "\x1b[32mok\x1b[0m");
    assert_eq!(colorize_str(Color::Yellow, "ok"), "\x1b[33mok\x1b[0m");
    assert_eq!(colorize_str(Color::Blue, "ok"), "\x1b[34mok\x1b[0m");
    assert_eq!(colorize_str(Color::BrightBlack, ""), "\x1b[90m\x1b[0m");
    assert_eq!(
        colorize_string(Color::Green, &String::from("12")),
        "\x1b[32m12\x1b[0m"
    );
}

#[test]
fn prompt_line() {
    let line = build_prompt_message(120, 100, 105, 8);
    assert_eq!(
        line,
        "\x1b[34mXELIS\x1b[0m | \x1b[33mHeight\x1b[0m: \x1b[32m100\x1b[0m/\x1b[32m105\x1b[0m | \
         \x1b[33mTopoHeight\x1b[0m: \x1b[32m120\x1b[0m | \x1b[33mPeers\x1b[0m: \x1b[32m8\x1b[0m \
         \x1b[90m>>\x1b[0m "
    );
    assert_eq!(
        build_prompt_message(0, 0, 0, 0),
        format!(
            "{} | {}: {}/{} | {}: {} | {}: {} {} ",
            "\x1b[34mXELIS\x1b[0m",
            "\x1b[33mHeight\x1b[0m",
            "\x1b[32m0\x1b[0m",
            "\x1b[32m0\x1b[0m",
            "\x1b[33mTopoHeight\x1b[0m",
            "\x1b[32m0\x1b[0m",
            "\x1b[33mPeers\x1b[0m",
            "\x1b[32m0\x1b[0m",
            "\x1b[90m>>\x1b[0m"
        )
    );
}
