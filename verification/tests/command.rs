use dumbmem::command::{command_from_words, parse_command, CommandLine};
use dumbmem::error::RunError;

fn command(program: &str, args: &[&str]) -> CommandLine {
    CommandLine {
        program: program.to_string(),
        args: args.iter().map(|a| a.to_string()).collect(),
    }
}

#[test]
fn sleep_two_is_a_program_and_one_argument() {
    assert_eq!(parse_command("sleep 2"), Ok(command("sleep", &["2"])));
}

#[test]
fn program_alone_has_no_arguments() {
    assert_eq!(parse_command("true"), Ok(command("true", &[])));
    assert_eq!(parse_command("  true  "), Ok(command("true", &[])));
}

#[test]
fn quotes_keep_a_word_together() {
    assert_eq!(
        parse_command("sh -c 'echo hi there'"),
        Ok(command("sh", &["-c", "echo hi there"]))
    );
    assert_eq!(
        parse_command("here are \"two words\""),
        Ok(command("here", &["are", "two words"]))
    );
    assert_eq!(parse_command("a b\\ c d"), Ok(command("a", &["b c", "d"])));
}

#[test]
fn pipe_has_no_special_meaning() {
    assert_eq!(
        parse_command("cat file.txt | less"),
        Ok(command("cat", &["file.txt", "|", "less"]))
    );
}

#[test]
fn empty_command_is_rejected() {
    assert_eq!(parse_command(""), Err(RunError::EmptyCommand));
}

#[test]
fn blank_command_is_rejected() {
    assert_eq!(parse_command(" "), Err(RunError::EmptyCommand));
    assert_eq!(parse_command("   \t \n  "), Err(RunError::EmptyCommand));
    assert_eq!(parse_command("\r\n"), Err(RunError::EmptyCommand));
}

#[test]
fn every_white_space_character_alone_is_a_blank_command() {
    let ranges: [(u32, u32); 10] = [
        (0x09, 0x0d),
        (0x20, 0x20),
        (0x85, 0x85),
        (0xa0, 0xa0),
        (0x1680, 0x1680),
        (0x2000, 0x200a),
        (0x2028, 0x2029),
        (0x202f, 0x202f),
        (0x205f, 0x205f),
        (0x3000, 0x3000),
    ];
    let mut all: String = String::new();
    for (low, high) in ranges.iter() {
        for code in *low..=*high {
            let c: char = char::from_u32(code).unwrap();
            assert!(c.is_whitespace());
            assert_eq!(parse_command(&c.to_string()), Err(RunError::EmptyCommand));
            all.push(c);
        }
    }
    assert_eq!(all.chars().count(), 25);
    assert_eq!(parse_command(&all), Err(RunError::EmptyCommand));
}

#[test]
fn characters_next_to_white_space_are_words() {
    assert_eq!(parse_command("\u{200b}"), Ok(command("\u{200b}", &[])));
    assert_eq!(parse_command("\u{1f}"), Ok(command("\u{1f}", &[])));
}

#[test]
fn open_quote_is_rejected() {
    assert_eq!(parse_command("a \"b c d e"), Err(RunError::MismatchedQuotes));
    assert_eq!(parse_command("a 'b c d e"), Err(RunError::MismatchedQuotes));
    assert_eq!(parse_command("one '\"\"\""), Err(RunError::MismatchedQuotes));
}

#[test]
fn empty_quotes_are_an_empty_program_name() {
    assert_eq!(parse_command("''"), Ok(command("", &[])));
}

#[test]
fn no_word_is_no_command() {
    assert_eq!(command_from_words(Vec::new()), Err(RunError::EmptyCommand));
}

#[test]
fn first_word_is_the_program() {
    let words: Vec<String> = vec!["ls".to_string(), "-l".to_string(), "/tmp".to_string()];
    assert_eq!(command_from_words(words), Ok(command("ls", &["-l", "/tmp"])));
    assert_eq!(command_from_words(vec!["ls".to_string()]), Ok(command("ls", &[])));
}
