//! What a rule means: its value against a context, as spec functions.
use crate::context::{dirs_of, files_of, files_with_ext, ContextView, EntryView};
use crate::expr::{Ast, LogicalOp, MatchType, Operator};
use crate::grammar::parse_rule;
use crate::paths::or_empty;
use crate::pattern::{regex_compiles, regex_finds};
use crate::strings::contains_seq;
use vstd::prelude::*;

verus! {

/// Why an evaluation fails.
pub enum Failure {
    /// A `Regex` or `NotRegex` comparison's pattern does not compile.
    Pattern,
    /// A binary combinator is `Not`, which only `Expression::Not` may spell.
    Combinator,
}

/// Whether `n` lies within the inclusive range `lens`, if there is one.
pub open spec fn within(n: int, lens: Option<[u32; 2]>) -> bool {
    match lens {
        Some(l) => l[0] as int <= n <= l[1] as int,
        None => true,
    }
}

/// The negated operators.
pub open spec fn negated(op: Operator) -> bool {
    op == Operator::NotEquals || op == Operator::NotContains || op == Operator::NotRegex
}

/// The operators that compile their value as a pattern.
pub open spec fn uses_pattern(op: Operator) -> bool {
    op == Operator::Regex || op == Operator::NotRegex
}

/// Whether `target` meets `op`'s test with `value`, before any negation.
pub open spec fn hit(op: Operator, value: Seq<char>, target: Seq<char>) -> bool {
    match op {
        Operator::Equals | Operator::NotEquals => target == value,
        Operator::Contains | Operator::NotContains => contains_seq(target, value),
        Operator::Regex | Operator::NotRegex => regex_finds(value, target),
        Operator::Any => true,
    }
}

/// A comparison of one string against `value`.
pub open spec fn compare(op: Operator, value: Seq<char>, target: Seq<char>) -> Result<bool, Failure> {
    if op == Operator::Any {
        Ok(true)
    } else if uses_pattern(op) && !regex_compiles(value) {
        Err(Failure::Pattern)
    } else if negated(op) {
        Ok(!hit(op, value, target))
    } else {
        Ok(hit(op, value, target))
    }
}

/// Whether the path or the name of `e` meets `op`'s test.
pub open spec fn entry_hit(op: Operator, value: Seq<char>, e: EntryView) -> bool {
    hit(op, value, e.path) || hit(op, value, e.name)
}

/// Whether some entry of `es` meets `op`'s test.
pub open spec fn some_entry_hits(op: Operator, value: Seq<char>, es: Seq<EntryView>) -> bool {
    exists|k: int| 0 <= k < es.len() && entry_hit(op, value, #[trigger] es[k])
}

/// A comparison against a list of entries: whether some entry meets the test,
/// or, for a negated operator, whether none does.
pub open spec fn compare_entries(op: Operator, value: Seq<char>, es: Seq<EntryView>) -> Result<bool, Failure> {
    if op == Operator::Any {
        Ok(es.len() > 0)
    } else if uses_pattern(op) && !regex_compiles(value) {
        Err(Failure::Pattern)
    } else if negated(op) {
        Ok(!some_entry_hits(op, value, es))
    } else {
        Ok(some_entry_hits(op, value, es))
    }
}

/// A comparison of files by extension: only `Any`, `Equals` and `NotEquals`
/// mean anything; the rest are false.
pub open spec fn compare_extensions(op: Operator, with_ext: Seq<EntryView>) -> bool {
    match op {
        Operator::Any | Operator::Equals => with_ext.len() > 0,
        Operator::NotEquals => with_ext.len() == 0,
        _ => false,
    }
}

/// The value of one comparison. `lens` bounds the text's length and the
/// number of files or directories.
pub open spec fn eval_cmp(
    kind: MatchType,
    op: Operator,
    value: Seq<char>,
    c: ContextView,
    lens: Option<[u32; 2]>,
) -> Result<bool, Failure> {
    match kind {
        MatchType::Text => {
            let t = or_empty(c.text);
            if !within(t.len() as int, lens) {
                Ok(false)
            } else {
                compare(op, value, t)
            }
        },
        MatchType::Files => {
            let fs = files_of(c);
            if !within(fs.len() as int, lens) {
                Ok(false)
            } else {
                compare_entries(op, value, fs)
            }
        },
        MatchType::Dirs => {
            let ds = dirs_of(c);
            if !within(ds.len() as int, lens) {
                Ok(false)
            } else {
                compare_entries(op, value, ds)
            }
        },
        MatchType::ActiveFile => compare(op, value, or_empty(c.active_file)),
        MatchType::App => compare(op, value, or_empty(c.app_name)),
        MatchType::AppTitle => compare(op, value, or_empty(c.app_title)),
        MatchType::Workspace => compare(op, value, or_empty(c.workspace)),
        MatchType::FileExt => Ok(compare_extensions(op, files_with_ext(c, value))),
    }
}

/// The value of a rule. `&&` and `||` read their right side only when the left
/// side does not already decide, so a failure there is never reached.
pub open spec fn eval(a: Ast, c: ContextView, lens: Option<[u32; 2]>) -> Result<bool, Failure>
    decreases a,
{
    match a {
        Ast::Cmp { kind, operator, value } => eval_cmp(kind, operator, value, c, lens),
        Ast::Logical { left, op, right } => match eval(*left, c, lens) {
            Err(f) => Err(f),
            Ok(l) => if op == LogicalOp::And {
                if !l {
                    Ok(false)
                } else {
                    eval(*right, c, lens)
                }
            } else if op == LogicalOp::Or {
                if l {
                    Ok(true)
                } else {
                    eval(*right, c, lens)
                }
            } else {
                Err(Failure::Combinator)
            },
        },
        Ast::Not(inner) => match eval(*inner, c, lens) {
            Ok(b) => Ok(!b),
            Err(f) => Err(f),
        },
        Ast::Group(inner) => eval(*inner, c, lens),
    }
}

/// Whether the rule text `src` holds of `c`: it parses, and evaluates to true
/// without failing.
pub open spec fn rule_holds(src: Seq<char>, lens: Option<[u32; 2]>, c: ContextView) -> bool {
    match parse_rule(src) {
        Some(a) => eval(a, c, lens) == Ok::<bool, Failure>(true),
        None => false,
    }
}

} // verus!
