//! Small verified helpers on text: decimal numerals, the comment marker and
//! the rewriting of path separators.

use vstd::prelude::*;

verus! {

/// The character that marks a command line as a comment.
pub open spec fn comment_marker() -> char {
    '#'
}

/// The character of a single decimal digit.
pub open spec fn digit_char(d: nat) -> char
    recommends
        d < 10,
{
    if d == 0 {
        '0'
    } else if d == 1 {
        '1'
    } else if d == 2 {
        '2'
    } else if d == 3 {
        '3'
    } else if d == 4 {
        '4'
    } else if d == 5 {
        '5'
    } else if d == 6 {
        '6'
    } else if d == 7 {
        '7'
    } else if d == 8 {
        '8'
    } else {
        '9'
    }
}

/// The decimal numeral of `n`, most significant digit first, without
/// leading zeros.
pub open spec fn decimal(n: nat) -> Seq<char>
    decreases n,
{
    if n < 10 {
        seq![digit_char(n)]
    } else {
        decimal(n / 10).push(digit_char(n % 10))
    }
}

/// The numeral of one digit, as a string.
fn digit_text(d: usize) -> (r: &'static str)
    requires
        d < 10,
    ensures
        r@ == seq![digit_char(d as nat)],
{
    proof {
        reveal_strlit("0");
        reveal_strlit("1");
        reveal_strlit("2");
        reveal_strlit("3");
        reveal_strlit("4");
        reveal_strlit("5");
        reveal_strlit("6");
        reveal_strlit("7");
        reveal_strlit("8");
        reveal_strlit("9");
    }
    let r = if d == 0 {
        "0"
    } else if d == 1 {
        "1"
    } else if d == 2 {
        "2"
    } else if d == 3 {
        "3"
    } else if d == 4 {
        "4"
    } else if d == 5 {
        "5"
    } else if d == 6 {
        "6"
    } else if d == 7 {
        "7"
    } else if d == 8 {
        "8"
    } else {
        "9"
    };
    assert(r@ =~= seq![digit_char(d as nat)]);
    r
}

/// Writes `n` as a decimal numeral.
pub fn decimal_string(n: usize) -> (r: String)
    ensures
        r@ == decimal(n as nat),
    decreases n,
{
    if n < 10 {
        String::from_str(digit_text(n))
    } else {
        let head = decimal_string(n / 10);
        let r = head.concat(digit_text(n % 10));
        assert(r@ =~= decimal((n / 10) as nat).push(digit_char((n % 10) as nat)));
        r
    }
}

/// A numeral has at least one digit, and every character of it is a digit.
pub proof fn decimal_is_digits(n: nat)
    ensures
        decimal(n).len() >= 1,
        forall|i: int| 0 <= i < decimal(n).len() ==> '0' <= #[trigger] decimal(n)[i] <= '9',
    decreases n,
{
    if n >= 10 {
        decimal_is_digits(n / 10);
    }
}

/// The number that a sequence of digits stands for.
pub open spec fn numeral_value(s: Seq<char>) -> nat
    decreases s.len(),
{
    if s.len() == 0 {
        0
    } else {
        numeral_value(s.drop_last()) * 10 + ((s.last() as nat) - ('0' as nat)) as nat
    }
}

/// Reading a numeral gives back the number it was written from.
pub proof fn decimal_value(n: nat)
    ensures
        numeral_value(decimal(n)) == n,
    decreases n,
{
    if n < 10 {
        assert(decimal(n).drop_last() =~= Seq::<char>::empty());
        assert(numeral_value(decimal(n).drop_last()) == 0);
    } else {
        decimal_value(n / 10);
        assert(decimal(n).drop_last() =~= decimal(n / 10));
        assert(decimal(n).last() == digit_char(n % 10));
    }
}

/// Different numbers have different numerals.
pub proof fn decimal_injective(a: nat, b: nat)
    requires
        decimal(a) == decimal(b),
    ensures
        a == b,
{
    decimal_value(a);
    decimal_value(b);
}

/// Whether a command line is a comment: its first character is the marker.
pub open spec fn is_comment(line: Seq<char>) -> bool {
    line.len() > 0 && line[0] == comment_marker()
}

/// The text of a comment line, without the marker.
pub open spec fn comment_text(line: Seq<char>) -> Seq<char>
    recommends
        is_comment(line),
{
    line.subrange(1, line.len() as int)
}

/// Tells whether `line` is a comment, and if so hands out its text.
pub fn comment_of(line: &str) -> (r: Option<String>)
    ensures
        r is Some <==> is_comment(line@),
        r is Some ==> r.unwrap()@ == comment_text(line@),
{
    let n: usize = line.unicode_len();
    if n > 0 && line.get_char(0) == '#' {
        Some(String::from_str(line.substring_char(1, n)))
    } else {
        None
    }
}

/// `line` with every backward slash turned into a forward slash.
pub open spec fn forward_slashes(line: Seq<char>) -> Seq<char> {
    Seq::new(line.len(), |i: int| if line[i] == '\\' { '/' } else { line[i] })
}

/// `String::push` of std: the character is added at the end.
#[verifier::external_body]
fn push_char(s: &mut String, c: char)
    ensures
        final(s)@ == old(s)@.push(c),
{
    s.push(c)
}

/// Rewrites every backward slash of `line` to a forward slash and leaves
/// all other characters as they are.
pub fn to_forward_slashes(line: &str) -> (r: String)
    ensures
        r@ == forward_slashes(line@),
{
    let n: usize = line.unicode_len();
    let mut out = String::new();
    let mut i: usize = 0;
    while i < n
        invariant
            n == line@.len(),
            i <= n,
            out@ == forward_slashes(line@).take(i as int),
        decreases n - i,
    {
        let c = line.get_char(i);
        let d = if c == '\\' { '/' } else { c };
        push_char(&mut out, d);
        assert(out@ =~= forward_slashes(line@).take(i + 1));
        i = i + 1;
    }
    assert(out@ =~= forward_slashes(line@));
    out
}

/// Rewriting is idempotent: no backward slash is left to rewrite.
pub proof fn forward_slashes_idempotent(line: Seq<char>)
    ensures
        forward_slashes(forward_slashes(line)) == forward_slashes(line),
        forall|i: int| 0 <= i < line.len() ==> #[trigger] forward_slashes(line)[i] != '\\',
{
    assert(forward_slashes(forward_slashes(line)) =~= forward_slashes(line));
}

} // verus!
