use cmd2zip::command::{assemble, build_command, executable_from_words, BuildError, Executable};
use cmd2zip::text::{comment_of, to_forward_slashes};

fn words(ws: &[&str]) -> Vec<String> {
    ws.iter().map(|w| w.to_string()).collect()
}

#[test]
fn assemble_with_both_parts() {
    assert_eq!(
        assemble(Some("resvg -w 128"), "a/icon.svg", Some(" -c")),
        "resvg -w 128 a/icon.svg -c"
    );
}

#[test]
fn assemble_without_parts() {
    assert_eq!(assemble(None, "echo hi", None), "echo hi");
    assert_eq!(assemble(None, "", None), "");
}

#[test]
fn assemble_prefix_brings_its_space() {
    assert_eq!(assemble(Some("sh -c"), "ls", None), "sh -c ls");
    assert_eq!(assemble(Some(""), "ls", None), " ls");
    assert_eq!(assemble(None, "ls", Some("-l")), "ls-l");
}

#[test]
fn split_plain_words() {
    assert_eq!(
        build_command("echo hello world"),
        Ok(Executable { program: "echo".to_string(), args: words(&["hello", "world"]) })
    );
}

#[test]
fn split_honours_quotes_and_escapes() {
    assert_eq!(
        build_command("grep 'two words' \"it's\" a\\ b"),
        Ok(Executable { program: "grep".to_string(), args: words(&["two words", "it's", "a b"]) })
    );
}

#[test]
fn program_without_arguments() {
    assert_eq!(
        build_command("  ls  "),
        Ok(Executable { program: "ls".to_string(), args: vec![] })
    );
}

#[test]
fn open_quote_is_malformed() {
    assert_eq!(build_command("echo 'open"), Err(BuildError::Malformed));
    assert_eq!(build_command("echo \"open"), Err(BuildError::Malformed));
    assert_eq!(build_command("echo trailing\\"), Err(BuildError::Malformed));
}

#[test]
fn empty_line_has_no_program() {
    assert_eq!(build_command(""), Err(BuildError::NoProgram));
    assert_eq!(build_command("   "), Err(BuildError::NoProgram));
}

#[test]
fn executable_from_given_words() {
    assert_eq!(executable_from_words(None), Err(BuildError::Malformed));
    assert_eq!(executable_from_words(Some(vec![])), Err(BuildError::NoProgram));
    assert_eq!(
        executable_from_words(Some(words(&["a", "b", "c"]))),
        Ok(Executable { program: "a".to_string(), args: words(&["b", "c"]) })
    );
}

#[test]
fn comment_lines() {
    assert_eq!(comment_of("# a note"), Some(" a note".to_string()));
    assert_eq!(comment_of("#"), Some("".to_string()));
    assert_eq!(comment_of("#\u{e9}t\u{e9}"), Some("\u{e9}t\u{e9}".to_string()));
    assert_eq!(comment_of("echo # not a comment"), None);
    assert_eq!(comment_of(" #indented"), None);
    assert_eq!(comment_of(""), None);
}

#[test]
fn backward_slashes_become_forward() {
    assert_eq!(to_forward_slashes("icons\\a\\b.svg"), "icons/a/b.svg");
    assert_eq!(to_forward_slashes("no slashes"), "no slashes");
    assert_eq!(to_forward_slashes("mixed/one\\two"), "mixed/one/two");
    assert_eq!(to_forward_slashes(""), "");
    assert_eq!(to_forward_slashes("\u{fc}\\\u{fc}"), "\u{fc}/\u{fc}");
}

#[test]
fn rewriting_slashes_twice_changes_nothing_more() {
    let once = to_forward_slashes("a\\b\\\\c");
    assert_eq!(once, "a/b//c");
    assert_eq!(to_forward_slashes(&once), once);
}
