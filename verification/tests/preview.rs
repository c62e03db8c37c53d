use cmd2zip::job::{Settings, Stream};
use cmd2zip::naming::{NameError, NameGenerator};
use cmd2zip::preview::{preview, preview_jobs};

fn lines(ls: &[&str]) -> Vec<String> {
    ls.iter().map(|l| l.to_string()).collect()
}

fn dry() -> Settings {
    Settings { prefix: None, postfix: None, dry_run: true, forward_slashes: false }
}

#[test]
fn preview_names_by_position() {
    let mut names = NameGenerator::new(None, None, None, None).unwrap();
    let input = lines(&["echo a", "# skipped", "echo b", "echo c"]);
    let p = preview(&dry(), &mut names, &input, None);
    assert_eq!(p.plan.dispatched, vec![0, 2, 3]);
    assert_eq!(p.plan.comments, vec![1]);
    assert!(!p.plan.limit_reached);
    let entries = p.entries.unwrap();
    let got: Vec<(&str, &[u8])> =
        entries.iter().map(|e| (e.name.as_str(), e.content.as_slice())).collect();
    let expected: Vec<(&str, &[u8])> =
        vec![("0.txt", b"echo a"), ("1.txt", b"echo b"), ("2.txt", b"echo c")];
    assert_eq!(got, expected);
    assert!(entries.iter().all(|e| !e.failed && e.source == Stream::Stdout));
    assert_eq!(names.generate("next"), Ok("3".to_string()));
}

#[test]
fn preview_of_one_command() {
    let mut names = NameGenerator::new(None, None, None, None).unwrap();
    let p = preview(&dry(), &mut names, &lines(&["echo hi"]), None);
    let entries = p.entries.unwrap();
    assert_eq!(entries.len(), 1);
    assert!(entries[0].name.ends_with(".txt"));
    assert_eq!(entries[0].content, b"echo hi".to_vec());
}

#[test]
fn preview_stops_at_the_limit() {
    let mut names = NameGenerator::new(None, None, None, None).unwrap();
    let p = preview(&dry(), &mut names, &lines(&["echo a", "echo b", "echo c"]), Some(1));
    assert!(p.plan.limit_reached);
    let entries = p.entries.unwrap();
    assert_eq!(entries.len(), 1);
    assert_eq!(entries[0].name, "0.txt");
}

#[test]
fn preview_aborts_where_a_command_cannot_be_named() {
    let mut names =
        NameGenerator::new(Some(r"(?P<n>\w+)\.svg$"), Some("$n.png"), None, None).unwrap();
    let input = lines(&["resvg a/icon.svg", "echo hello", "resvg b/logo.svg"]);
    let p = preview(&dry(), &mut names, &input, None);
    assert_eq!(p.plan.dispatched, vec![0, 1, 2]);
    assert_eq!(p.entries, Err(NameError::NoMatch));
}

#[test]
fn preview_ignores_unnameable_commands_past_the_limit() {
    let mut names = NameGenerator::new(Some(r"\w+\.svg$"), None, None, None).unwrap();
    let input = lines(&["resvg a/icon.svg", "echo hello"]);
    let p = preview(&dry(), &mut names, &input, Some(1));
    let entries = p.entries.unwrap();
    assert_eq!(entries.len(), 1);
    assert_eq!(entries[0].name, "icon.svg.txt");
}

#[test]
fn preview_jobs_follow_the_given_order() {
    let settings = Settings {
        prefix: Some("run".to_string()),
        postfix: None,
        dry_run: true,
        forward_slashes: true,
    };
    let mut names = NameGenerator::new(None, None, Some("n"), None).unwrap();
    let input = lines(&["a\\b", "c", "d"]);
    let entries = preview_jobs(&settings, &mut names, &input, &vec![2, 0]).unwrap();
    assert_eq!(entries.len(), 2);
    assert_eq!(entries[0].name, "n0.txt");
    assert_eq!(entries[0].content, b"run d".to_vec());
    assert_eq!(entries[1].name, "n1.txt");
    assert_eq!(entries[1].content, b"run a/b".to_vec());
}

#[test]
fn preview_of_an_empty_line_takes_the_empty_stream() {
    let mut names = NameGenerator::new(None, None, None, None).unwrap();
    let p = preview(&dry(), &mut names, &lines(&[""]), None);
    let entries = p.entries.unwrap();
    assert_eq!(entries[0].name, "0.txt");
    assert!(entries[0].content.is_empty());
    assert_eq!(entries[0].source, Stream::Stderr);
}
