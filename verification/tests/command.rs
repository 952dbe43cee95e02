use sdb::command::{DbgArgs, SubCommand};

#[test]
fn should_parse() {
    let line = "continue";
    match DbgArgs::parse_line(line) {
        Some(args) => {
            let expected = DbgArgs { sub_command: SubCommand::Continue };
            assert_eq!(args, expected)
        }
        None => panic!("the continue command must parse"),
    }
}

#[test]
fn unknown_word_is_no_command() {
    assert_eq!(DbgArgs::parse_line("step"), None);
    assert_eq!(DbgArgs::parse_line(""), None);
    assert_eq!(DbgArgs::parse_line("continue now"), None);
}
