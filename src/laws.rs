//! Properties of matching as a whole, stated over the meaning of rules.
use crate::context::{Context, ContextView};
use crate::expr::{well_formed, Ast, LogicalOp, MatchType, Operator};
use crate::grammar::{
    and_at, and_rest, char_at, comparison_at, keyword_at, match_type_at, not_at, operator_value_at, or_at,
    or_rest, pair_at, parse_rule, primary_at, remaining, space_run, token, value_at,
};
use crate::matcher::Match;
use crate::paths::or_empty;
use crate::semantics::{eval, rule_holds, within, Failure};
use vstd::prelude::*;

verus! {

/// Matching reads only the rule text, the range and the context's facts, and
/// changes none of them: asked twice of equal inputs, it answers the same.
pub proof fn lemma_matches_deterministic(m1: Match, m2: Match, c1: Context, c2: Context)
    requires
        m1.match_expr@ == m2.match_expr@,
        m1.lens == m2.lens,
        c1@ == c2@,
    ensures
        rule_holds(m1.match_expr@, m1.lens, c1@) == rule_holds(m2.match_expr@, m2.lens, c2@),
{
}

/// In `A && B`, a false `A` makes the whole false without evaluating `B`, so
/// not even a failing `B` (a pattern that does not compile) has any effect.
pub proof fn lemma_and_short_circuits(a: Ast, b: Ast, c: ContextView, lens: Option<[u32; 2]>)
    requires
        eval(a, c, lens) == Ok::<bool, Failure>(false),
    ensures
        eval(Ast::Logical { left: Box::new(a), op: LogicalOp::And, right: Box::new(b) }, c, lens)
            == Ok::<bool, Failure>(false),
{
}

/// In `A || B`, a true `A` makes the whole true without evaluating `B`.
pub proof fn lemma_or_short_circuits(a: Ast, b: Ast, c: ContextView, lens: Option<[u32; 2]>)
    requires
        eval(a, c, lens) == Ok::<bool, Failure>(true),
    ensures
        eval(Ast::Logical { left: Box::new(a), op: LogicalOp::Or, right: Box::new(b) }, c, lens)
            == Ok::<bool, Failure>(true),
{
}

/// A rule text that does not parse holds of no context.
pub proof fn lemma_malformed_never_matches(src: Seq<char>, lens: Option<[u32; 2]>, c: ContextView)
    requires
        parse_rule(src) is None,
    ensures
        !rule_holds(src, lens, c),
{
}

/// The whitespace runs of `text == *`.
proof fn lemma_wildcard_spaces()
    ensures
        space_run("text == *"@, 0) == 0,
        space_run("text == *"@, 4) == 1,
        space_run("text == *"@, 5) == 0,
        space_run("text == *"@, 7) == 1,
        space_run("text == *"@, 8) == 0,
        space_run("text == *"@, 9) == 0,
{
    let s = "text == *"@;
    reveal_strlit("text == *");
    reveal(space_run);
    assert(space_run(s, 5) == 0);
    assert(space_run(s, 8) == 0);
    assert(space_run(s, 9) == 0);
}

/// `text == *` opens with the keyword `text`.
proof fn lemma_wildcard_keyword()
    ensures
        match_type_at("text == *"@, 0) == Some((MatchType::Text, 4nat)),
{
    let s = "text == *"@;
    reveal_strlit("text == *");
    reveal_strlit("activeFile");
    reveal_strlit("appTitle");
    reveal_strlit("workspace");
    reveal_strlit("fileExt");
    reveal_strlit("text");
    reveal(match_type_at);
    assert(!keyword_at(s, 0, "appTitle"@)) by {
        assert(s.subrange(0, 8)[0] != "appTitle"@[0]);
    }
    assert(!keyword_at(s, 0, "workspace"@)) by {
        assert(s.subrange(0, 9)[0] != "workspace"@[0]);
    }
    assert(!keyword_at(s, 0, "fileExt"@)) by {
        assert(s.subrange(0, 7)[0] != "fileExt"@[0]);
    }
    assert(keyword_at(s, 0, "text"@)) by {
        assert(s.subrange(0, 4) =~= "text"@);
    }
}

/// `text == *` ends with the operator `==` and the value `*`.
proof fn lemma_wildcard_operand()
    ensures
        operator_value_at("text == *"@, 5) == Some((Operator::Any, seq!['*'], 4nat)),
{
    let s = "text == *"@;
    reveal_strlit("text == *");
    reveal_strlit("==");
    lemma_wildcard_spaces();
    assert(value_at(s, 8) == Some((seq!['*'], false, 1nat))) by {
        reveal(value_at);
        reveal(token);
        assert(token(s, 9) == Seq::<char>::empty());
        assert(token(s, 8) =~= seq!['*']);
    }
    reveal(operator_value_at);
    assert(s.subrange(5, 7) =~= "=="@);
}

/// `text == *` parses to the wildcard comparison on the selected text.
pub proof fn lemma_parse_text_wildcard()
    ensures
        parse_rule("text == *"@) == Some(
            Ast::Cmp { kind: MatchType::Text, operator: Operator::Any, value: seq!['*'] },
        ),
{
    let s = "text == *"@;
    lemma_wildcard_spaces();
    lemma_wildcard_keyword();
    lemma_wildcard_operand();
    let cmp = Ast::Cmp { kind: MatchType::Text, operator: Operator::Any, value: seq!['*'] };
    assert(s.len() == 9) by {
        reveal_strlit("text == *");
    }
    assert(comparison_at(s, 0) == Some((cmp, 9nat))) by {
        reveal(comparison_at);
    }
    assert(char_at(s, 0) == 't') by {
        reveal_strlit("text == *");
    }
    assert(primary_at(s, 0) == Some((cmp, 9nat))) by {
        reveal(primary_at);
    }
    assert(not_at(s, 0) == Some((cmp, 9nat))) by {
        reveal(not_at);
        reveal(primary_at);
    }
    assert(and_rest(s, 9, cmp) == Some((cmp, 0nat))) by {
        reveal(and_rest);
        reveal(not_at);
    }
    assert(and_at(s, 0) == Some((cmp, 9nat))) by {
        reveal(and_at);
        reveal(and_rest);
        reveal(not_at);
    }
    assert(or_rest(s, 9, cmp) == Some((cmp, 0nat))) by {
        reveal(or_rest);
        reveal(and_at);
    }
    assert(or_at(s, 0) == Some((cmp, 9nat))) by {
        reveal(or_at);
        reveal(or_rest);
        reveal(and_at);
    }
}

/// `text == *` with the range `lens` holds exactly when the selected text's
/// length lies in the range (an absent text counts as empty).
pub proof fn lemma_text_wildcard_respects_lens(lens: [u32; 2], c: ContextView)
    ensures
        rule_holds("text == *"@, Some(lens), c) == within(or_empty(c.text).len() as int, Some(lens)),
{
    lemma_parse_text_wildcard();
}

/// What a parsing step yields, when it yields anything, is well formed.
pub open spec fn yields_well_formed(r: Option<(Ast, nat)>) -> bool {
    r matches Some((a, _)) ==> well_formed(a)
}

proof fn lemma_primary_well_formed(s: Seq<char>, i: nat)
    ensures
        yields_well_formed(primary_at(s, i)),
    decreases remaining(s, i), 0nat,
{
    reveal(primary_at);
    reveal(comparison_at);
    reveal(or_at);
    let j = i + space_run(s, i);
    if char_at(s, j as int) == '(' {
        lemma_or_well_formed(s, j + 1);
    }
}

proof fn lemma_not_well_formed(s: Seq<char>, i: nat)
    ensures
        yields_well_formed(not_at(s, i)),
    decreases remaining(s, i), 1nat,
{
    reveal(not_at);
    reveal(primary_at);
    let j = i + space_run(s, i);
    if char_at(s, j as int) == '!' {
        lemma_primary_well_formed(s, j + 1 + space_run(s, j + 1));
    } else {
        lemma_primary_well_formed(s, j);
    }
}

proof fn lemma_and_rest_well_formed(s: Seq<char>, i: nat, left: Ast)
    requires
        well_formed(left),
    ensures
        yields_well_formed(and_rest(s, i, left)),
    decreases remaining(s, i), 2nat,
{
    reveal(and_rest);
    reveal(not_at);
    let j = i + space_run(s, i);
    if pair_at(s, j as int, '&', '&') {
        let k = j + 2 + space_run(s, j + 2);
        lemma_not_well_formed(s, k);
        if let Some((right, n)) = not_at(s, k) {
            let joined = Ast::Logical { left: Box::new(left), op: LogicalOp::And, right: Box::new(right) };
            lemma_and_rest_well_formed(s, k + n, joined);
        }
    }
}

proof fn lemma_and_well_formed(s: Seq<char>, i: nat)
    ensures
        yields_well_formed(and_at(s, i)),
    decreases remaining(s, i), 3nat,
{
    reveal(and_at);
    reveal(not_at);
    reveal(and_rest);
    lemma_not_well_formed(s, i);
    if let Some((first, n)) = not_at(s, i) {
        lemma_and_rest_well_formed(s, i + n, first);
    }
}

proof fn lemma_or_rest_well_formed(s: Seq<char>, i: nat, left: Ast)
    requires
        well_formed(left),
    ensures
        yields_well_formed(or_rest(s, i, left)),
    decreases remaining(s, i), 4nat,
{
    reveal(or_rest);
    reveal(and_at);
    let j = i + space_run(s, i);
    if pair_at(s, j as int, '|', '|') {
        let k = j + 2 + space_run(s, j + 2);
        lemma_and_well_formed(s, k);
        if let Some((right, n)) = and_at(s, k) {
            let joined = Ast::Logical { left: Box::new(left), op: LogicalOp::Or, right: Box::new(right) };
            lemma_or_rest_well_formed(s, k + n, joined);
        }
    }
}

proof fn lemma_or_well_formed(s: Seq<char>, i: nat)
    ensures
        yields_well_formed(or_at(s, i)),
    decreases remaining(s, i), 5nat,
{
    reveal(or_at);
    reveal(and_at);
    reveal(or_rest);
    lemma_and_well_formed(s, i);
    if let Some((first, n)) = and_at(s, i) {
        lemma_or_rest_well_formed(s, i + n, first);
    }
}

/// Parsing yields only `And` and `Or` as binary combinators, so evaluating a
/// parsed rule fails only on a pattern that does not compile.
pub proof fn lemma_parsed_rules_are_well_formed(src: Seq<char>)
    ensures
        parse_rule(src) matches Some(a) ==> well_formed(a),
{
    lemma_or_well_formed(src, 0);
}

/// Evaluating a well-formed rule never fails for want of a combinator.
pub proof fn lemma_well_formed_fails_only_on_patterns(a: Ast, c: ContextView, lens: Option<[u32; 2]>)
    requires
        well_formed(a),
    ensures
        eval(a, c, lens) != Err::<bool, Failure>(Failure::Combinator),
    decreases a,
{
    match a {
        Ast::Cmp { kind, operator, value } => {},
        Ast::Logical { left, op, right } => {
            lemma_well_formed_fails_only_on_patterns(*left, c, lens);
            lemma_well_formed_fails_only_on_patterns(*right, c, lens);
        },
        Ast::Not(inner) => lemma_well_formed_fails_only_on_patterns(*inner, c, lens),
        Ast::Group(inner) => lemma_well_formed_fails_only_on_patterns(*inner, c, lens),
    }
}

} // verus!
