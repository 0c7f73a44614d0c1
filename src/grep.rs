//! Single-match search of a file's lines with a regular expression.

use vstd::prelude::*;
use vstd::string::*;

verus! {

/// `regex::Regex`, a compiled regular expression, carried as an opaque value.
#[verifier::external_type_specification]
#[verifier::external_body]
pub struct ExRegex(regex::Regex);

/// `regex::Error`, why `regex::Regex::new` refused a pattern, carried as an
/// opaque value.
#[verifier::external_type_specification]
#[verifier::external_body]
pub struct ExRegexError(regex::Error);

/// Whether `pattern` is accepted as a regular expression.
pub uninterp spec fn regex_compiles(pattern: Seq<char>) -> bool;

/// Whether the regular expression `pattern` matches somewhere in `haystack`.
pub uninterp spec fn regex_finds(pattern: Seq<char>, haystack: Seq<char>) -> bool;

/// Relies on `regex::Regex::new`: it returns `Ok` exactly when the pattern
/// parses and compiles within the default limits, which depends on the
/// pattern alone.
#[verifier::external_body]
fn compile(pattern: &str) -> (r: Result<regex::Regex, regex::Error>)
    ensures
        r is Ok <==> regex_compiles(pattern@),
{
    regex::Regex::new(pattern)
}

/// A compiled search pattern together with the text it was compiled from.
#[derive(Debug)]
pub struct Pattern {
    text: String,
    re: regex::Regex,
}

/// Why a search pattern was refused.
#[derive(Debug, PartialEq, Eq)]
pub enum PatternError {
    Invalid { pattern: String },
}

/// Relies on `regex::Regex::is_match`: true iff the compiled expression
/// matches anywhere in `haystack`. A `Pattern`'s expression is always the
/// one compiled from its `text`, as `Pattern::new` is its only constructor.
#[verifier::external_body]
fn find_in(p: &Pattern, haystack: &str) -> (r: bool)
    ensures
        r == regex_finds(p.source(), haystack@),
{
    p.re.is_match(haystack)
}

impl Pattern {
    /// The text that the pattern was compiled from.
    pub closed spec fn source(&self) -> Seq<char> {
        self.text@
    }

    /// Compiles `pattern`; fails exactly when it is not a valid regular
    /// expression.
    pub fn new(pattern: &String) -> (r: Result<Pattern, PatternError>)
        ensures
            r is Ok <==> regex_compiles(pattern@),
            r matches Ok(p) ==> p.source() == pattern@,
            r matches Err(PatternError::Invalid { pattern: t }) ==> t@ == pattern@,
    {
        match compile(pattern.as_str()) {
            Ok(re) => Ok(Pattern { text: pattern.clone(), re }),
            Err(_) => Err(PatternError::Invalid { pattern: pattern.clone() }),
        }
    }

    /// The text that the pattern was compiled from.
    pub fn as_str(&self) -> (r: &str)
        ensures
            r@ == self.source(),
    {
        self.text.as_str()
    }

    /// Whether the pattern matches somewhere in `line`.
    pub fn is_match(&self, line: &String) -> (r: bool)
        ensures
            r == regex_finds(self.source(), line@),
    {
        find_in(self, line.as_str())
    }
}

/// `i` is the index of the first line in which `pattern` matches.
pub open spec fn is_first_match(pattern: Seq<char>, lines: Seq<String>, i: int) -> bool {
    &&& 0 <= i < lines.len()
    &&& regex_finds(pattern, lines[i]@)
    &&& forall|j: int| 0 <= j < i ==> !regex_finds(pattern, #[trigger] lines[j]@)
}

/// The index of the first line in which `pattern` matches, if any does.
pub fn first_match(pattern: &Pattern, lines: &Vec<String>) -> (r: Option<usize>)
    ensures
        match r {
            Some(i) => is_first_match(pattern.source(), lines@, i as int),
            None => forall|j: int|
                0 <= j < lines.len() ==> !regex_finds(pattern.source(), #[trigger] lines@[j]@),
        },
{
    let mut i: usize = 0;
    while i < lines.len()
        invariant
            i <= lines.len(),
            forall|j: int| 0 <= j < i ==> !regex_finds(pattern.source(), #[trigger] lines@[j]@),
        decreases lines.len() - i,
    {
        if pattern.is_match(&lines[i]) {
            return Some(i);
        }
        i = i + 1;
    }
    None
}

/// The decimal digit `d` (for `d < 10`).
pub open spec fn digit_char(d: nat) -> char {
    if d == 0 {
        '0'
    } else if d == 1 {
        '1'
    } else if d == 2 {
        '2'
    } else if d == 3 {
        '3'
    } else if d == 4 {
        '4'
    } else if d == 5 {
        '5'
    } else if d == 6 {
        '6'
    } else if d == 7 {
        '7'
    } else if d == 8 {
        '8'
    } else {
        '9'
    }
}

/// `n` written in decimal, without leading zeros.
pub open spec fn decimal(n: nat) -> Seq<char>
    decreases n,
{
    if n < 10 {
        seq![digit_char(n)]
    } else {
        decimal(n / 10) + seq![digit_char(n % 10)]
    }
}

/// The report line of a match: `path:number: line`.
pub open spec fn report(path: Seq<char>, number: nat, line: Seq<char>) -> Seq<char> {
    path + seq![':'] + decimal(number) + seq![':', ' '] + line
}

fn push_digit(s: &mut String, d: usize)
    requires
        d < 10,
    ensures
        final(s)@ == old(s)@ + seq![digit_char(d as nat)],
{
    let t: &str = if d == 0 {
        "0"
    } else if d == 1 {
        "1"
    } else if d == 2 {
        "2"
    } else if d == 3 {
        "3"
    } else if d == 4 {
        "4"
    } else if d == 5 {
        "5"
    } else if d == 6 {
        "6"
    } else if d == 7 {
        "7"
    } else if d == 8 {
        "8"
    } else {
        "9"
    };
    proof {
        reveal_strlit("0");
        reveal_strlit("1");
        reveal_strlit("2");
        reveal_strlit("3");
        reveal_strlit("4");
        reveal_strlit("5");
        reveal_strlit("6");
        reveal_strlit("7");
        reveal_strlit("8");
        reveal_strlit("9");
    }
    assert(t@ =~= seq![digit_char(d as nat)]);
    s.append(t);
}

fn push_decimal(s: &mut String, n: usize)
    ensures
        final(s)@ == old(s)@ + decimal(n as nat),
    decreases n,
{
    if n >= 10 {
        push_decimal(s, n / 10);
    }
    push_digit(s, n % 10);
    assert(final(s)@ =~= old(s)@ + decimal(n as nat));
}

/// The report line for a match of `line`, found at line `number` of the
/// file at `path`.
pub fn match_line(path: &String, number: usize, line: &String) -> (r: String)
    ensures
        r@ == report(path@, number as nat, line@),
{
    let mut s = path.clone();
    proof {
        reveal_strlit(":");
        reveal_strlit(": ");
    }
    s.append(":");
    push_decimal(&mut s, number);
    s.append(": ");
    s.append(line.as_str());
    assert(s@ =~= report(path@, number as nat, line@));
    s
}

/// The one report line for a file: the first line that `pattern` matches,
/// numbered from 1, or `None` when no line matches.
pub fn grep_lines(path: &String, lines: &Vec<String>, pattern: &Pattern) -> (r: Option<String>)
    ensures
        match r {
            Some(s) => exists|i: int|
                is_first_match(pattern.source(), lines@, i) && s@ == report(
                    path@,
                    (i + 1) as nat,
                    lines@[i]@,
                ),
            None => forall|j: int|
                0 <= j < lines.len() ==> !regex_finds(pattern.source(), #[trigger] lines@[j]@),
        },
{
    match first_match(pattern, lines) {
        Some(i) => {
            assert(is_first_match(pattern.source(), lines@, i as int));
            let n = lines.len();
            assert(i < n);
            let s = match_line(path, i + 1, &lines[i]);
            Some(s)
        },
        None => None,
    }
}

} // verus!
