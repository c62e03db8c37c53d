use cmd2zip::naming::{Base, Decorator, NameError, NameGenerator, Pattern};
use cmd2zip::text::decimal_string;

fn generator(
    pattern: Option<&str>,
    template: Option<&str>,
    prefix: Option<&str>,
    postfix: Option<&str>,
) -> NameGenerator {
    NameGenerator::new(pattern, template, prefix, postfix).expect("valid configuration")
}

#[test]
fn default_names_count_from_zero() {
    let mut g = generator(None, None, None, None);
    assert_eq!(g.generate("echo hello"), Ok("0".to_string()));
    assert_eq!(g.generate("echo world"), Ok("1".to_string()));
    assert_eq!(g.generate("echo world"), Ok("2".to_string()));
}

#[test]
fn default_names_cover_every_position() {
    let mut g = generator(None, None, None, None);
    let mut names = Vec::new();
    for i in 0..25usize {
        names.push(g.generate(&format!("cmd {}", i % 3)).unwrap());
    }
    let expected: Vec<String> = (0..25usize).map(|i| format!("{}", i)).collect();
    assert_eq!(names, expected);
}

#[test]
fn counter_starts_over_after_largest_value() {
    let mut g = NameGenerator { base: Base::Numeric { next: usize::MAX }, decorators: vec![] };
    assert_eq!(g.generate("a"), Ok(format!("{}", usize::MAX)));
    assert_eq!(g.generate("b"), Ok("0".to_string()));
}

#[test]
fn pattern_alone_gives_whole_match() {
    let mut g = generator(Some(r"(\w+)\.svg$"), None, None, None);
    assert_eq!(g.generate("resvg a/icon.svg"), Ok("icon.svg".to_string()));
    assert_eq!(g.generate("resvg b/other.svg"), Ok("other.svg".to_string()));
}

#[test]
fn named_group_replacement() {
    let mut g = generator(Some(r"(?P<n>\w+)\.svg$"), Some("$n.png"), None, None);
    assert_eq!(g.generate("resvg a/icon.svg"), Ok("icon.png".to_string()));
}

#[test]
fn positional_group_replacement() {
    let mut g = generator(Some(r"([\w-]+)\.svg$"), Some("$1.png"), None, None);
    assert_eq!(g.generate("resvg ./icons/arrow-left.svg"), Ok("arrow-left.png".to_string()));
}

#[test]
fn no_match_is_an_error_with_replacement() {
    let mut g = generator(Some(r"(?P<n>\w+)\.svg$"), Some("$n.png"), None, None);
    assert_eq!(g.generate("echo hello"), Err(NameError::NoMatch));
    assert_eq!(g.generate("resvg a/icon.svg"), Ok("icon.png".to_string()));
}

#[test]
fn no_match_is_an_error_without_replacement() {
    let mut g = generator(Some(r"\d+"), None, Some("n-"), None);
    assert_eq!(g.generate("echo hello"), Err(NameError::NoMatch));
    assert_eq!(g.generate("echo 42 43"), Ok("n-42".to_string()));
}

#[test]
fn replacement_without_pattern_is_refused() {
    let r = NameGenerator::new(None, Some("$1.png"), None, None);
    assert_eq!(r.err(), Some(NameError::ReplacementWithoutPattern));
    let r = NameGenerator::new(None, Some("$1.png"), Some("a"), Some("b"));
    assert_eq!(r.err(), Some(NameError::ReplacementWithoutPattern));
}

#[test]
fn invalid_pattern_is_refused() {
    let r = NameGenerator::new(Some("(unclosed"), None, None, None);
    assert_eq!(r.err(), Some(NameError::InvalidPattern));
    let r = NameGenerator::new(Some("[a-"), Some("$0"), None, None);
    assert_eq!(r.err(), Some(NameError::InvalidPattern));
}

#[test]
fn prefix_then_postfix() {
    let mut g = generator(None, None, Some("out/"), Some(".log"));
    assert_eq!(
        g.decorators,
        vec![Decorator::Prefix("out/".to_string()), Decorator::Postfix(".log".to_string())]
    );
    assert_eq!(g.generate("x"), Ok("out/0.log".to_string()));
    assert_eq!(g.generate("y"), Ok("out/1.log".to_string()));
}

#[test]
fn prefix_alone_and_postfix_alone() {
    let mut g = generator(None, None, Some("p-"), None);
    assert_eq!(g.generate("x"), Ok("p-0".to_string()));
    let mut g = generator(None, None, None, Some(".out"));
    assert_eq!(g.generate("x"), Ok("0.out".to_string()));
}

#[test]
fn decorated_replacement() {
    let mut g = generator(Some(r"(?P<n>\w+)\.svg$"), Some("$n.png"), Some("img/"), Some(".bak"));
    assert_eq!(g.generate("resvg a/icon.svg"), Ok("img/icon.png.bak".to_string()));
}

#[test]
fn decorators_apply_innermost_first() {
    let mut g = NameGenerator {
        base: Base::Numeric { next: 7 },
        decorators: vec![
            Decorator::Postfix("b".to_string()),
            Decorator::Prefix("a".to_string()),
            Decorator::Postfix("c".to_string()),
        ],
    };
    assert_eq!(g.generate(""), Ok("a7bc".to_string()));
}

#[test]
fn decimal_numerals() {
    assert_eq!(decimal_string(0), "0");
    assert_eq!(decimal_string(9), "9");
    assert_eq!(decimal_string(10), "10");
    assert_eq!(decimal_string(12345), "12345");
    assert_eq!(decimal_string(1000), "1000");
    assert_eq!(decimal_string(usize::MAX), format!("{}", usize::MAX));
}

#[test]
fn pattern_compiles_or_is_refused() {
    assert!(Pattern::compile(r"(\w+)\.svg$").is_ok());
    assert_eq!(Pattern::compile("a{2,1}").err(), Some(NameError::InvalidPattern));
}

#[test]
fn pattern_finds_leftmost_match() {
    let pattern = Pattern::compile(r"\d+").unwrap();
    let mut g = NameGenerator { base: Base::RegexMatch { pattern }, decorators: vec![] };
    assert_eq!(g.generate("a 12 b 345"), Ok("12".to_string()));
    assert_eq!(g.generate("none"), Err(NameError::NoMatch));
}

#[test]
fn pattern_expands_templates() {
    let source = r"(?P<dir>\w+)/(\w+)\.(\w+)$";
    let mut g = generator(Some(source), Some("${2}_$dir.$3.gz"), None, None);
    assert_eq!(g.generate("pack src/main.rs"), Ok("main_src.rs.gz".to_string()));
    let mut g = generator(Some(source), Some("$0"), None, None);
    assert_eq!(g.generate("pack src/main.rs"), Ok("src/main.rs".to_string()));
    let mut g = generator(Some(source), Some("fixed"), None, None);
    assert_eq!(g.generate("pack src/main.rs"), Ok("fixed".to_string()));
    assert_eq!(g.generate("pack nothing"), Err(NameError::NoMatch));
}
