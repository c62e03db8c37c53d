//! Entry names: a base strategy (a running number, the text a pattern
//! matches, or a template expanded over a match) wrapped in fixed
//! decorations.

use vstd::prelude::*;
use vstd::string::StringExecFns;
use crate::text::{decimal, decimal_injective, decimal_string};

verus! {

/// A compiled pattern of the `regex` crate.
#[verifier::external_type_specification]
#[verifier::external_body]
pub struct ExRegex(regex::Regex);

/// The error that `regex` gives for a pattern it cannot compile.
#[verifier::external_type_specification]
#[verifier::external_body]
pub struct ExRegexError(regex::Error);

/// The pattern text that a compiled pattern holds, as `Regex::as_str`
/// returns it.
pub uninterp spec fn pattern_source(compiled: regex::Regex) -> Seq<char>;

/// Whether `Regex::new` accepts the pattern text.
pub uninterp spec fn pattern_compiles(source: Seq<char>) -> bool;

/// The text of the leftmost match that `Regex::find` reports in a haystack,
/// for the pattern that `Regex::new` compiles from `source`, if there is a
/// match.
pub uninterp spec fn first_match(source: Seq<char>, haystack: Seq<char>) -> Option<Seq<char>>;

/// What `Captures::expand` writes for a template over the leftmost match
/// that `Regex::captures` reports in a haystack, for the pattern that
/// `Regex::new` compiles from `source`, if there is a match.
pub uninterp spec fn expanded_match(
    source: Seq<char>,
    template: Seq<char>,
    haystack: Seq<char>,
) -> Option<Seq<char>>;

/// A pattern compiled by `Regex::new`, with the default options. There is
/// no other way to make one, so a pattern's text decides what it matches.
#[derive(Debug)]
pub struct Pattern {
    compiled: regex::Regex,
}

impl View for Pattern {
    type V = Seq<char>;

    /// The text the pattern was compiled from.
    closed spec fn view(&self) -> Seq<char> {
        pattern_source(self.compiled)
    }
}

/// `Regex::new`: compiles the pattern text with the default options. It
/// succeeds exactly on the texts named by `pattern_compiles`, and the
/// compiled pattern holds its text.
#[verifier::external_body]
fn compile(source: &str) -> (r: Result<Pattern, regex::Error>)
    ensures
        r is Ok <==> pattern_compiles(source@),
        r is Ok ==> pattern_source(r.unwrap().compiled) == source@,
{
    regex::Regex::new(source).map(|compiled| Pattern { compiled })
}

/// Whether `part` stands in `whole` as one piece.
pub open spec fn occurs_in(part: Seq<char>, whole: Seq<char>) -> bool {
    exists|i: int, j: int| 0 <= i <= j <= whole.len() && #[trigger] whole.subrange(i, j) == part
}

/// `Regex::find` and `Match::as_str`: the text of the leftmost match, as an
/// owned string. What is found is taken to depend on the pattern's text and
/// the haystack alone, and a match is a piece of the haystack.
#[verifier::external_body]
fn find_text(pattern: &Pattern, haystack: &str) -> (r: Option<String>)
    ensures
        r is Some <==> first_match(pattern_source(pattern.compiled), haystack@) is Some,
        r is Some ==> r.unwrap()@ == first_match(
            pattern_source(pattern.compiled),
            haystack@,
        ).unwrap(),
        r is Some ==> occurs_in(r.unwrap()@, haystack@),
{
    pattern.compiled.find(haystack).map(|m| m.as_str().to_string())
}

/// `Regex::captures` followed by `Captures::expand` into an empty string:
/// the template with its group references replaced by what the groups of
/// the leftmost match hold. What is written is taken to depend on the
/// pattern's text, the template and the haystack alone.
#[verifier::external_body]
fn expand_text(pattern: &Pattern, template: &str, haystack: &str) -> (r: Option<String>)
    ensures
        r is Some <==> expanded_match(
            pattern_source(pattern.compiled),
            template@,
            haystack@,
        ) is Some,
        r is Some ==> r.unwrap()@ == expanded_match(
            pattern_source(pattern.compiled),
            template@,
            haystack@,
        ).unwrap(),
{
    pattern.compiled.captures(haystack).map(
        |c| {
            let mut name = String::new();
            c.expand(template, &mut name);
            name
        },
    )
}

impl Pattern {
    /// Compiles a pattern from its text, or refuses a text that is no
    /// valid pattern.
    pub fn compile(source: &str) -> (r: Result<Pattern, NameError>)
        ensures
            match r {
                Ok(p) => pattern_compiles(source@) && p@ == source@,
                Err(e) => !pattern_compiles(source@) && e == NameError::InvalidPattern,
            },
    {
        match compile(source) {
            Ok(p) => Ok(p),
            Err(_) => Err(NameError::InvalidPattern),
        }
    }
}

/// Why a name generator could not be built, or could not name a command.
#[derive(Clone, Copy, Debug, PartialEq, Eq, Structural)]
pub enum NameError {
    /// A replacement template was given without a pattern.
    ReplacementWithoutPattern,
    /// The pattern text is not a valid pattern.
    InvalidPattern,
    /// The pattern does not match the command.
    NoMatch,
}

/// The strategy that gives the undecorated name.
#[derive(Debug)]
pub enum Base {
    /// The next value of a counter, written in decimal.
    Numeric { next: usize },
    /// The whole text that the pattern matches in the command.
    RegexMatch { pattern: Pattern },
    /// The template, expanded over the pattern's match in the command.
    RegexReplace { pattern: Pattern, template: String },
}

/// A fixed text put around a name.
#[derive(Clone, Debug, PartialEq, Eq)]
pub enum Decorator {
    /// The text goes before the name.
    Prefix(String),
    /// The text goes after the name.
    Postfix(String),
}

/// One decoration applied to a name.
pub open spec fn decorate_once(d: Decorator, name: Seq<char>) -> Seq<char> {
    match d {
        Decorator::Prefix(p) => p@ + name,
        Decorator::Postfix(p) => name + p@,
    }
}

/// The first `k` decorations applied to a name, innermost first.
pub open spec fn decorate_upto(ds: Seq<Decorator>, k: nat, name: Seq<char>) -> Seq<char>
    recommends
        k <= ds.len(),
    decreases k,
{
    if k == 0 {
        name
    } else {
        decorate_once(ds[k - 1], decorate_upto(ds, (k - 1) as nat, name))
    }
}

/// All decorations applied to a name, innermost first.
pub open spec fn decorate(ds: Seq<Decorator>, name: Seq<char>) -> Seq<char> {
    decorate_upto(ds, ds.len(), name)
}

/// The undecorated name that a base strategy gives a command, or `None`
/// where its pattern does not match.
pub open spec fn base_name(base: Base, command: Seq<char>) -> Option<Seq<char>> {
    match base {
        Base::Numeric { next } => Some(decimal(next as nat)),
        Base::RegexMatch { pattern } => first_match(pattern@, command),
        Base::RegexReplace { pattern, template } => expanded_match(pattern@, template@, command),
    }
}

/// The strategy after it has named one command: a counter has moved on (and
/// starts over after the largest value), a pattern is unchanged.
pub open spec fn base_after(base: Base) -> Base {
    match base {
        Base::Numeric { next } => Base::Numeric {
            next: if next == usize::MAX {
                0usize
            } else {
                (next + 1) as usize
            },
        },
        _ => base,
    }
}

/// Which base strategy and which decorations a configuration asks for.
/// The decorations are the prefix, if any, then the postfix, if any.
pub open spec fn configured_decorators(
    prefix: Option<Seq<char>>,
    postfix: Option<Seq<char>>,
    ds: Seq<Decorator>,
) -> bool {
    match (prefix, postfix) {
        (None, None) => ds.len() == 0,
        (Some(p), None) => ds.len() == 1 && ds[0] is Prefix && ds[0]->Prefix_0@ == p,
        (None, Some(q)) => ds.len() == 1 && ds[0] is Postfix && ds[0]->Postfix_0@ == q,
        (Some(p), Some(q)) => ds.len() == 2 && ds[0] is Prefix && ds[0]->Prefix_0@ == p
            && ds[1] is Postfix && ds[1]->Postfix_0@ == q,
    }
}

/// The text of an optional prefix or postfix, empty where there is none.
pub open spec fn text_or_empty(t: Option<Seq<char>>) -> Seq<char> {
    match t {
        Some(s) => s,
        None => Seq::empty(),
    }
}

/// Derives an archive entry name from a command.
#[derive(Debug)]
pub struct NameGenerator {
    pub base: Base,
    pub decorators: Vec<Decorator>,
}

impl NameGenerator {
    /// The name this generator gives `command` in its present state, or
    /// `None` where its pattern does not match.
    pub open spec fn name_for(&self, command: Seq<char>) -> Option<Seq<char>> {
        match base_name(self.base, command) {
            Some(b) => Some(decorate(self.decorators@, b)),
            None => None,
        }
    }

    /// Builds the generator that a configuration asks for.
    ///
    /// With a pattern and a template the base is the expanded template,
    /// with a pattern alone the matched text, with neither a counter from
    /// 0. A template without a pattern is refused, and so is a pattern text
    /// that does not compile. The prefix is applied first, then the postfix.
    pub fn new(
        pattern: Option<&str>,
        template: Option<&str>,
        prefix: Option<&str>,
        postfix: Option<&str>,
    ) -> (r: Result<NameGenerator, NameError>)
        ensures
            match r {
                Ok(g) => {
                    &&& match (pattern, template) {
                        (None, None) => g.base == (Base::Numeric { next: 0 }),
                        (Some(p), None) => pattern_compiles(p@) && g.base is RegexMatch
                            && g.base->RegexMatch_pattern@ == p@,
                        (Some(p), Some(t)) => pattern_compiles(p@) && g.base is RegexReplace
                            && g.base->RegexReplace_pattern@ == p@
                            && g.base->RegexReplace_template@ == t@,
                        (None, Some(_)) => false,
                    }
                    &&& configured_decorators(
                        match prefix {
                            Some(p) => Some(p@),
                            None => None,
                        },
                        match postfix {
                            Some(q) => Some(q@),
                            None => None,
                        },
                        g.decorators@,
                    )
                },
                Err(e) => match (pattern, template) {
                    (None, Some(_)) => e == NameError::ReplacementWithoutPattern,
                    (Some(p), _) => !pattern_compiles(p@) && e == NameError::InvalidPattern,
                    (None, None) => false,
                },
            },
    {
        let base = match pattern {
            None => match template {
                Some(_) => {
                    return Err(NameError::ReplacementWithoutPattern);
                },
                None => Base::Numeric { next: 0 },
            },
            Some(p) => match Pattern::compile(p) {
                Err(_) => {
                    return Err(NameError::InvalidPattern);
                },
                Ok(compiled) => match template {
                    None => Base::RegexMatch { pattern: compiled },
                    Some(t) => Base::RegexReplace {
                        pattern: compiled,
                        template: String::from_str(t),
                    },
                },
            },
        };
        let mut decorators: Vec<Decorator> = Vec::new();
        if let Some(p) = prefix {
            decorators.push(Decorator::Prefix(String::from_str(p)));
        }
        if let Some(q) = postfix {
            decorators.push(Decorator::Postfix(String::from_str(q)));
        }
        Ok(NameGenerator { base, decorators })
    }

    /// Names `command`, and moves the counter on if the base is one. Where
    /// the base is the text a pattern matches, the undecorated name is a
    /// piece of the command: the whole match, not one of its groups.
    ///
    /// Fails with `NoMatch`, leaving the generator as it was, exactly where
    /// the pattern does not match the command.
    pub fn generate(&mut self, command: &str) -> (r: Result<String, NameError>)
        ensures
            match r {
                Ok(name) => old(self).name_for(command@) == Some(name@) && final(self).base
                    == base_after(old(self).base),
                Err(e) => old(self).name_for(command@) is None && e == NameError::NoMatch
                    && final(self).base == old(self).base,
            },
            final(self).decorators == old(self).decorators,
            r is Ok && old(self).base is RegexMatch ==> occurs_in(
                base_name(old(self).base, command@).unwrap(),
                command@,
            ),
    {
        let found = match &self.base {
            Base::Numeric { next } => Some(decimal_string(*next)),
            Base::RegexMatch { pattern } => find_text(pattern, command),
            Base::RegexReplace { pattern, template } => expand_text(
                pattern,
                template.as_str(),
                command,
            ),
        };
        match found {
            None => Err(NameError::NoMatch),
            Some(b) => {
                let ghost before = self.base;
                if let Base::Numeric { next } = &self.base {
                    let moved: usize = next.wrapping_add(1);
                    self.base = Base::Numeric { next: moved };
                }
                assert(self.base == base_after(before));
                let mut name = b;
                let mut i: usize = 0;
                while i < self.decorators.len()
                    invariant
                        i <= self.decorators.len(),
                        name@ == decorate_upto(self.decorators@, i as nat, b@),
                    decreases self.decorators.len() - i,
                {
                    name = match &self.decorators[i] {
                        Decorator::Prefix(p) => {
                            let mut s = p.clone();
                            s.append(name.as_str());
                            s
                        },
                        Decorator::Postfix(p) => name.concat(p.as_str()),
                    };
                    i = i + 1;
                }
                Ok(name)
            },
        }
    }
}

/// A generator built with a prefix and a postfix gives the prefix, then the
/// base name, then the postfix: the prefix is put on before the postfix,
/// whichever of the two are present.
pub proof fn decoration_order(
    g: NameGenerator,
    prefix: Option<Seq<char>>,
    postfix: Option<Seq<char>>,
    command: Seq<char>,
)
    requires
        configured_decorators(prefix, postfix, g.decorators@),
    ensures
        g.name_for(command) == match base_name(g.base, command) {
            Some(b) => Some(text_or_empty(prefix) + b + text_or_empty(postfix)),
            None => None,
        },
{
    match base_name(g.base, command) {
        Some(b) => {
            let ds = g.decorators@;
            assert(decorate_upto(ds, 0, b) == b);
            if ds.len() >= 1 {
                assert(decorate_upto(ds, 1, b) == decorate_once(ds[0], decorate_upto(ds, 0, b)));
            }
            if ds.len() >= 2 {
                assert(decorate_upto(ds, 2, b) == decorate_once(ds[1], decorate_upto(ds, 1, b)));
            }
            assert(decorate(ds, b) =~= text_or_empty(prefix) + b + text_or_empty(postfix));
        },
        None => {},
    }
}

/// The strategy after it has named `n` commands.
pub open spec fn base_after_many(base: Base, n: nat) -> Base
    decreases n,
{
    if n == 0 {
        base
    } else {
        base_after(base_after_many(base, (n - 1) as nat))
    }
}

/// The name that the `i`-th command of a run gets (counting from 0) from a
/// generator that starts the run in the state `g`.
pub open spec fn name_in_run(g: NameGenerator, commands: Seq<Seq<char>>, i: int) -> Option<
    Seq<char>,
> {
    (NameGenerator { base: base_after_many(g.base, i as nat), decorators: g.decorators }).name_for(
        commands[i],
    )
}

/// With the default strategy, a counter from 0 and no decoration, the
/// commands of a run are named by their positions: the `i`-th gets the
/// decimal numeral of `i`, whatever the commands are, and no two of them get
/// the same name.
pub proof fn default_names_are_positions(g: NameGenerator, commands: Seq<Seq<char>>)
    requires
        g.base == (Base::Numeric { next: 0 }),
        g.decorators@.len() == 0,
        commands.len() <= usize::MAX,
    ensures
        forall|i: int|
            0 <= i < commands.len() ==> #[trigger] name_in_run(g, commands, i) == Some(
                decimal(i as nat),
            ),
        forall|i: int, j: int|
            0 <= i < commands.len() && 0 <= j < commands.len() && i != j ==> name_in_run(
                g,
                commands,
                i,
            ) != name_in_run(g, commands, j),
{
    assert forall|i: int| 0 <= i < commands.len() implies #[trigger] name_in_run(g, commands, i)
        == Some(decimal(i as nat)) by {
        counter_after_many(i as nat);
    }
    assert forall|i: int, j: int|
        0 <= i < commands.len() && 0 <= j < commands.len() && i != j implies name_in_run(
        g,
        commands,
        i,
    ) != name_in_run(g, commands, j) by {
        assert(name_in_run(g, commands, i) == Some(decimal(i as nat)));
        assert(name_in_run(g, commands, j) == Some(decimal(j as nat)));
        if decimal(i as nat) == decimal(j as nat) {
            decimal_injective(i as nat, j as nat);
        }
    }
}

/// A counter that starts at 0 stands at `n` after `n` namings.
proof fn counter_after_many(n: nat)
    requires
        n <= usize::MAX,
    ensures
        base_after_many(Base::Numeric { next: 0 }, n) == (Base::Numeric { next: n as usize }),
    decreases n,
{
    if n > 0 {
        counter_after_many((n - 1) as nat);
    }
}

} // verus!
