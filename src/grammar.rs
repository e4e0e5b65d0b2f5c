//! The rule language as spec functions over the rule's characters.
//!
//! Each function reads from position `i` and, on success, returns what it read
//! together with how many characters it consumed. Precedence, from loosest to
//! tightest: `||`, `&&`, `!`, then a parenthesised rule or a comparison.
//! Whitespace around tokens is optional, and input after a complete rule is
//! ignored.
use crate::expr::{Ast, LogicalOp, MatchType, Operator};
use crate::strings::is_space;
use vstd::prelude::*;

verus! {

/// The character at `i`, or `'\0'` past the end.
pub open spec fn char_at(s: Seq<char>, i: int) -> char {
    if 0 <= i < s.len() {
        s[i]
    } else {
        '\0'
    }
}

/// Whether `a` then `b` stand at `i`.
pub open spec fn pair_at(s: Seq<char>, i: int, a: char, b: char) -> bool {
    char_at(s, i) == a && char_at(s, i + 1) == b
}

/// Whether `lit` stands at `i`.
pub open spec fn lit_at(s: Seq<char>, i: int, lit: Seq<char>) -> bool {
    0 <= i && i + lit.len() <= s.len() && s.subrange(i, i + lit.len()) == lit
}

/// How many characters remain from `i`.
pub open spec fn remaining(s: Seq<char>, i: nat) -> nat {
    if i < s.len() {
        (s.len() - i) as nat
    } else {
        0
    }
}

/// The length of the run of whitespace that starts at `i`.
#[verifier::opaque]
pub open spec fn space_run(s: Seq<char>, i: nat) -> nat
    decreases remaining(s, i),
{
    if i < s.len() && is_space(s[i as int]) {
        1 + space_run(s, i + 1)
    } else {
        0
    }
}

/// A keyword ends at `j`: at the end of input, at whitespace, or at an operator.
pub open spec fn keyword_ends(s: Seq<char>, j: int) -> bool {
    ||| j >= s.len()
    ||| is_space(s[j])
    ||| lit_at(s, j, "=="@)
    ||| lit_at(s, j, "!="@)
    ||| lit_at(s, j, "="@)
}

/// Whether the keyword `kw` stands at `i`, followed by a keyword end.
pub open spec fn keyword_at(s: Seq<char>, i: nat, kw: Seq<char>) -> bool {
    lit_at(s, i as int, kw) && keyword_ends(s, (i + kw.len()) as int)
}

/// The match type named at `i`. Longer keywords are tried before those that
/// are their prefixes.
#[verifier::opaque]
pub open spec fn match_type_at(s: Seq<char>, i: nat) -> Option<(MatchType, nat)> {
    if keyword_at(s, i, "activeFile"@) {
        Some((MatchType::ActiveFile, "activeFile"@.len()))
    } else if keyword_at(s, i, "appTitle"@) {
        Some((MatchType::AppTitle, "appTitle"@.len()))
    } else if keyword_at(s, i, "workspace"@) {
        Some((MatchType::Workspace, "workspace"@.len()))
    } else if keyword_at(s, i, "fileExt"@) {
        Some((MatchType::FileExt, "fileExt"@.len()))
    } else if keyword_at(s, i, "text"@) {
        Some((MatchType::Text, "text"@.len()))
    } else if keyword_at(s, i, "files"@) {
        Some((MatchType::Files, "files"@.len()))
    } else if keyword_at(s, i, "dirs"@) {
        Some((MatchType::Dirs, "dirs"@.len()))
    } else if keyword_at(s, i, "app"@) {
        Some((MatchType::App, "app"@.len()))
    } else {
        None
    }
}

/// The character that an escape `\c` inside quotes stands for.
pub open spec fn unescape(c: char) -> char {
    if c == 'n' {
        '\n'
    } else if c == 't' {
        '\t'
    } else if c == 'r' {
        '\r'
    } else {
        c
    }
}

/// `acc` and `off` put in front of a scan's result.
pub open spec fn prefixed(acc: Seq<char>, off: nat, r: Option<(Seq<char>, nat)>) -> Option<(Seq<char>, nat)> {
    match r {
        Some((t, n)) => Some((acc + t, off + n)),
        None => None,
    }
}

/// The rest of a quoted string from `i`: its unescaped text and the characters
/// consumed up to and including the closing `quote`; `None` if it is never closed.
#[verifier::opaque]
pub open spec fn quoted_rest(s: Seq<char>, i: nat, quote: char) -> Option<(Seq<char>, nat)>
    decreases remaining(s, i),
{
    if i >= s.len() {
        None
    } else if s[i as int] == quote {
        Some((Seq::empty(), 1))
    } else if s[i as int] == '\\' && i + 1 < s.len() {
        prefixed(seq![unescape(s[i + 1 as int])], 2, quoted_rest(s, i + 2, quote))
    } else {
        prefixed(seq![s[i as int]], 1, quoted_rest(s, i + 1, quote))
    }
}

/// The rest of a `/.../` literal from `i`: its text, escapes kept verbatim,
/// and the characters consumed up to and including the closing `/`.
#[verifier::opaque]
pub open spec fn regex_rest(s: Seq<char>, i: nat) -> Option<(Seq<char>, nat)>
    decreases remaining(s, i),
{
    if i >= s.len() {
        None
    } else if s[i as int] == '/' {
        Some((Seq::empty(), 1))
    } else if s[i as int] == '\\' && i + 1 < s.len() {
        prefixed(seq![s[i as int], s[i + 1 as int]], 2, regex_rest(s, i + 2))
    } else {
        prefixed(seq![s[i as int]], 1, regex_rest(s, i + 1))
    }
}

/// An unquoted token stops at whitespace, `)`, `&&` or `||`.
pub open spec fn token_stops(s: Seq<char>, i: int) -> bool {
    ||| is_space(s[i])
    ||| s[i] == ')'
    ||| pair_at(s, i, '&', '&')
    ||| pair_at(s, i, '|', '|')
}

/// The unquoted token that starts at `i` (possibly empty).
#[verifier::opaque]
pub open spec fn token(s: Seq<char>, i: nat) -> Seq<char>
    decreases remaining(s, i),
{
    if i < s.len() && !token_stops(s, i as int) {
        seq![s[i as int]] + token(s, i + 1)
    } else {
        Seq::empty()
    }
}

/// The value at `i`: its text, whether it is a regex literal (`/.../`, or a
/// token after a bare backslash), and the characters consumed.
#[verifier::opaque]
pub open spec fn value_at(s: Seq<char>, i: nat) -> Option<(Seq<char>, bool, nat)> {
    let c = char_at(s, i as int);
    if c == '\'' || c == '"' {
        match quoted_rest(s, i + 1, c) {
            Some((v, n)) => Some((v, false, n + 1)),
            None => None,
        }
    } else if c == '/' {
        match regex_rest(s, i + 1) {
            Some((v, n)) => Some((v, true, n + 1)),
            None => None,
        }
    } else if c == '\\' {
        let t = token(s, i + 1);
        if t.len() == 0 {
            None
        } else {
            Some((t, true, t.len() + 1))
        }
    } else {
        let t = token(s, i);
        if t.len() == 0 {
            None
        } else {
            Some((t, false, t.len()))
        }
    }
}

/// The operator a comparison ends up with, from its surface operator and value.
pub open spec fn resolve_operator(surface: Seq<char>, value: Seq<char>, is_regex: bool) -> Operator {
    if surface == "=="@ {
        if value == seq!['*'] {
            Operator::Any
        } else if is_regex {
            Operator::Regex
        } else {
            Operator::Equals
        }
    } else if surface == "!="@ {
        if is_regex {
            Operator::NotRegex
        } else {
            Operator::NotEquals
        }
    } else if is_regex {
        Operator::Regex
    } else {
        Operator::Contains
    }
}

/// The operator `surface` at `i`, then optional whitespace and a value.
pub open spec fn operand_after(s: Seq<char>, i: nat, surface: Seq<char>) -> Option<(Operator, Seq<char>, nat)> {
    let k = i + surface.len();
    let w = space_run(s, k);
    match value_at(s, k + w) {
        Some((v, is_regex, n)) => Some(
            (resolve_operator(surface, v, is_regex), v, surface.len() + w + n),
        ),
        None => None,
    }
}

/// The operator and value at `i`.
#[verifier::opaque]
pub open spec fn operator_value_at(s: Seq<char>, i: nat) -> Option<(Operator, Seq<char>, nat)> {
    if lit_at(s, i as int, "=="@) {
        operand_after(s, i, "=="@)
    } else if lit_at(s, i as int, "!="@) {
        operand_after(s, i, "!="@)
    } else if lit_at(s, i as int, "="@) {
        operand_after(s, i, "="@)
    } else {
        None
    }
}

/// A comparison at `i`: a match type, an operator and a value.
#[verifier::opaque]
pub open spec fn comparison_at(s: Seq<char>, i: nat) -> Option<(Ast, nat)> {
    let w0 = space_run(s, i);
    match match_type_at(s, i + w0) {
        None => None,
        Some((kind, n1)) => {
            let w1 = space_run(s, i + w0 + n1);
            match operator_value_at(s, i + w0 + n1 + w1) {
                None => None,
                Some((operator, value, n2)) => Some(
                    (Ast::Cmp { kind, operator, value }, w0 + n1 + w1 + n2),
                ),
            }
        }
    }
}

/// A parenthesised rule or a comparison at `i`.
#[verifier::opaque]
pub open spec fn primary_at(s: Seq<char>, i: nat) -> Option<(Ast, nat)>
    decreases remaining(s, i), 0nat,
{
    let w = space_run(s, i);
    let j = i + w;
    if char_at(s, j as int) == '(' {
        match or_at(s, j + 1) {
            None => None,
            Some((inner, n)) => {
                let w2 = space_run(s, j + 1 + n);
                if char_at(s, (j + 1 + n + w2) as int) == ')' {
                    Some((Ast::Group(Box::new(inner)), w + 1 + n + w2 + 1))
                } else {
                    None
                }
            },
        }
    } else {
        match comparison_at(s, j) {
            None => None,
            Some((c, n)) => Some((c, w + n)),
        }
    }
}

/// An optionally negated primary at `i`.
#[verifier::opaque]
pub open spec fn not_at(s: Seq<char>, i: nat) -> Option<(Ast, nat)>
    decreases remaining(s, i), 1nat,
{
    let w = space_run(s, i);
    let j = i + w;
    if char_at(s, j as int) == '!' {
        let w2 = space_run(s, j + 1);
        match primary_at(s, j + 1 + w2) {
            None => None,
            Some((inner, n)) => Some((Ast::Not(Box::new(inner)), w + 1 + w2 + n)),
        }
    } else {
        match primary_at(s, j) {
            None => None,
            Some((p, n)) => Some((p, w + n)),
        }
    }
}

/// The `&& operand` continuations at `i` of a conjunction whose first part is `left`.
#[verifier::opaque]
pub open spec fn and_rest(s: Seq<char>, i: nat, left: Ast) -> Option<(Ast, nat)>
    decreases remaining(s, i), 2nat,
{
    let w = space_run(s, i);
    let j = i + w;
    if pair_at(s, j as int, '&', '&') {
        let w2 = space_run(s, j + 2);
        let k = j + 2 + w2;
        match not_at(s, k) {
            None => None,
            Some((right, n)) => {
                let joined = Ast::Logical { left: Box::new(left), op: LogicalOp::And, right: Box::new(right) };
                match and_rest(s, k + n, joined) {
                    None => None,
                    Some((e, m)) => Some((e, w + 2 + w2 + n + m)),
                }
            },
        }
    } else {
        Some((left, w))
    }
}

/// A conjunction at `i`, grouped to the left.
#[verifier::opaque]
pub open spec fn and_at(s: Seq<char>, i: nat) -> Option<(Ast, nat)>
    decreases remaining(s, i), 3nat,
{
    match not_at(s, i) {
        None => None,
        Some((first, n)) => match and_rest(s, i + n, first) {
            None => None,
            Some((e, m)) => Some((e, n + m)),
        },
    }
}

/// The `|| operand` continuations at `i` of a disjunction whose first part is `left`.
#[verifier::opaque]
pub open spec fn or_rest(s: Seq<char>, i: nat, left: Ast) -> Option<(Ast, nat)>
    decreases remaining(s, i), 4nat,
{
    let w = space_run(s, i);
    let j = i + w;
    if pair_at(s, j as int, '|', '|') {
        let w2 = space_run(s, j + 2);
        let k = j + 2 + w2;
        match and_at(s, k) {
            None => None,
            Some((right, n)) => {
                let joined = Ast::Logical { left: Box::new(left), op: LogicalOp::Or, right: Box::new(right) };
                match or_rest(s, k + n, joined) {
                    None => None,
                    Some((e, m)) => Some((e, w + 2 + w2 + n + m)),
                }
            },
        }
    } else {
        Some((left, w))
    }
}

/// A disjunction at `i`, grouped to the left.
pub open spec fn or_at(s: Seq<char>, i: nat) -> Option<(Ast, nat)>
    decreases remaining(s, i), 5nat,
{
    match and_at(s, i) {
        None => None,
        Some((first, n)) => match or_rest(s, i + n, first) {
            None => None,
            Some((e, m)) => Some((e, n + m)),
        },
    }
}

/// The rule that the text `s` denotes, or `None` when it is malformed.
pub open spec fn parse_rule(s: Seq<char>) -> Option<Ast> {
    match or_at(s, 0) {
        Some((a, _)) => Some(a),
        None => None,
    }
}

} // verus!
