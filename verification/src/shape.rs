//! How much a shader source may ask of the validator's stack. A WGSL front
//! end, and what walks the module behind it, descends one level for every
//! opened bracket, for every operator of a chain and for every step of a
//! member or index access; nothing else makes it descend. So the number of
//! opening brackets and the number of operator characters in a source bound
//! the depth that any part of it can reach, whatever its comments hide and
//! however its brackets pair up.
//!
//! The limits belong to the stack that the validator is given. An
//! unoptimised front end needs at most about a hundred kibibytes for a level
//! of brackets and about twenty for an operator; a source at both limits
//! then leaves a quarter of that stack unused. Sources written by hand stay
//! far below either limit.

use crate::text::chars_of;
use vstd::prelude::*;

verus! {

/// The stack, in bytes, that the validator is to run on: half a gibibyte.
pub const VALIDATOR_STACK_BYTES: usize = 0x2000_0000;

/// The most opening brackets a source may hold.
pub const MAX_BRACKETS: usize = 2048;

/// The most operator characters a source may hold.
pub const MAX_OPERATORS: usize = 8192;

/// Why a source is not handed to the validator.
#[derive(Debug, Clone, Copy, PartialEq, Eq, Structural)]
pub enum SourceProblem {
    TooManyBrackets,
    TooManyOperators,
}

/// The characters that open a level: round, square, curly and angle
/// brackets. A `<` counts though it may be a comparison.
pub open spec fn is_opener(c: char) -> bool {
    c == '(' || c == '[' || c == '{' || c == '<'
}

/// The characters that can lengthen a chain: the operators, the dot of a
/// member access, and the opening bracket of an index.
pub open spec fn is_operator_char(c: char) -> bool {
    ||| c == '+'
    ||| c == '-'
    ||| c == '*'
    ||| c == '/'
    ||| c == '%'
    ||| c == '&'
    ||| c == '|'
    ||| c == '^'
    ||| c == '~'
    ||| c == '!'
    ||| c == '<'
    ||| c == '>'
    ||| c == '='
    ||| c == '.'
    ||| c == '['
}

/// The number of opening brackets among the first `n` characters of `s`.
pub open spec fn openers_in(s: Seq<char>, n: nat) -> nat
    decreases n,
{
    if n == 0 {
        0
    } else if is_opener(s[n - 1]) {
        openers_in(s, (n - 1) as nat) + 1
    } else {
        openers_in(s, (n - 1) as nat)
    }
}

/// The number of operator characters among the first `n` characters of `s`.
pub open spec fn operators_in(s: Seq<char>, n: nat) -> nat
    decreases n,
{
    if n == 0 {
        0
    } else if is_operator_char(s[n - 1]) {
        operators_in(s, (n - 1) as nat) + 1
    } else {
        operators_in(s, (n - 1) as nat)
    }
}

/// The number of opening brackets in `s`.
pub open spec fn bracket_count(s: Seq<char>) -> nat {
    openers_in(s, s.len())
}

/// The number of operator characters in `s`.
pub open spec fn operator_count(s: Seq<char>) -> nat {
    operators_in(s, s.len())
}

/// The limit that the source goes over, if any; the brackets are looked at
/// first.
pub open spec fn source_problem(s: Seq<char>) -> Option<SourceProblem> {
    if bracket_count(s) > MAX_BRACKETS {
        Some(SourceProblem::TooManyBrackets)
    } else if operator_count(s) > MAX_OPERATORS {
        Some(SourceProblem::TooManyOperators)
    } else {
        None
    }
}

/// No count is larger than the number of characters counted over.
pub proof fn lemma_counts_are_bounded(s: Seq<char>, n: nat)
    ensures
        openers_in(s, n) <= n,
        operators_in(s, n) <= n,
    decreases n,
{
    if n > 0 {
        lemma_counts_are_bounded(s, (n - 1) as nat);
    }
}

/// A source of no more characters than the lower limit is over no limit,
/// whatever it holds.
pub proof fn lemma_short_source_is_admitted(s: Seq<char>)
    requires
        s.len() <= MAX_BRACKETS,
    ensures
        source_problem(s) is None,
{
    lemma_counts_are_bounded(s, s.len());
}

impl SourceProblem {
    /// The message shown for this problem.
    pub open spec fn message(self) -> Seq<char> {
        match self {
            SourceProblem::TooManyBrackets => "Shader source has too many brackets"@,
            SourceProblem::TooManyOperators => "Shader source has too many operators"@,
        }
    }

    /// The message shown for this problem, as text.
    pub fn to_str(&self) -> (r: &'static str)
        ensures
            r@ == self.message(),
    {
        match self {
            SourceProblem::TooManyBrackets => "Shader source has too many brackets",
            SourceProblem::TooManyOperators => "Shader source has too many operators",
        }
    }
}

/// The two counts of a source.
#[derive(Debug, Clone, Copy, PartialEq, Eq)]
pub struct Measure {
    pub brackets: usize,
    pub operators: usize,
}

/// Counts the opening brackets and the operator characters of `source`.
pub fn measure(source: &str) -> (r: Measure)
    ensures
        r.brackets == bracket_count(source@),
        r.operators == operator_count(source@),
{
    let chars = chars_of(source);
    let n = chars.len();
    let mut brackets: usize = 0;
    let mut operators: usize = 0;
    let mut i: usize = 0;
    while i < n
        invariant
            n == chars@.len(),
            chars@ == source@,
            i <= n,
            brackets == openers_in(source@, i as nat),
            operators == operators_in(source@, i as nat),
            brackets <= i,
            operators <= i,
        decreases n - i,
    {
        let c = chars[i];
        if c == '(' || c == '[' || c == '{' || c == '<' {
            brackets = brackets + 1;
        }
        if c == '+' || c == '-' || c == '*' || c == '/' || c == '%' || c == '&' || c == '|' || c
            == '^' || c == '~' || c == '!' || c == '<' || c == '>' || c == '=' || c == '.' || c
            == '[' {
            operators = operators + 1;
        }
        i = i + 1;
    }
    Measure { brackets, operators }
}

/// The limit that `source` goes over, if any.
pub fn check_shape(source: &str) -> (r: Option<SourceProblem>)
    ensures
        r == source_problem(source@),
{
    let found = measure(source);
    if found.brackets > MAX_BRACKETS {
        Some(SourceProblem::TooManyBrackets)
    } else if found.operators > MAX_OPERATORS {
        Some(SourceProblem::TooManyOperators)
    } else {
        None
    }
}

} // verus!
