//! The `Match` facade: a rule text with an optional length constraint, and
//! the evaluator that decides it against a context.
use crate::context::{
    empty_context, entry_for, entry_ref_views, entry_views, Context, ContextView, FileEntry, FileType,
};
use crate::expr::{Expression, LogicalOp, MatchError, MatchType, Operator};
use crate::grammar::parse_rule;
use crate::parser::Parser;
use crate::paths::{opt_chars, or_empty};
use crate::pattern::{compile, is_match, Pattern};
use crate::semantics::{
    compare, compare_entries, entry_hit, eval, eval_cmp, hit, rule_holds, uses_pattern, within,
    Failure,
};
use crate::strings::{same_text, text_contains};
use vstd::prelude::*;

verus! {

/// What an evaluation step returned, against its meaning: the same boolean,
/// or the error that stands for the same failure.
pub open spec fn evaluated(r: Result<bool, MatchError>, meaning: Result<bool, Failure>) -> bool {
    match r {
        Ok(b) => meaning == Ok::<bool, Failure>(b),
        Err(e) => match meaning {
            Ok(_) => false,
            Err(Failure::Pattern) => e is RegexError,
            Err(Failure::Combinator) => e is InvalidExpression,
        },
    }
}

/// What `Match::parse` returns for the rule text `src`.
pub open spec fn parse_outcome(r: Result<Expression, MatchError>, src: Seq<char>) -> bool {
    match r {
        Ok(e) => parse_rule(src) == Some(e@),
        Err(err) => parse_rule(src) is None && err is ParseError,
    }
}

/// The text held, or the empty text.
fn text_or_empty(o: &Option<String>) -> (r: &str)
    ensures
        r@ == or_empty(opt_chars(*o)),
{
    match o {
        Some(t) => t.as_str(),
        None => {
            proof {
                reveal_strlit("");
            }
            assert(""@ =~= Seq::<char>::empty());
            ""
        },
    }
}

/// A rule text, and the range that the text's length, or the number of files
/// or directories, must lie in.
#[derive(Clone, Debug, PartialEq)]
pub struct Match {
    pub match_expr: String,
    pub lens: Option<[u32; 2]>,
}

impl Match {
    /// A rule with the range `[0, u32::MAX]`, which constrains nothing.
    pub fn new(match_expr: &str) -> (r: Self)
        ensures
            r.match_expr@ == match_expr@,
            r.lens == Some([0u32, u32::MAX]),
    {
        Match { match_expr: match_expr.to_string(), lens: Some([0, u32::MAX]) }
    }

    /// A rule with the range `lens`.
    pub fn with_lens(match_expr: &str, lens: [u32; 2]) -> (r: Self)
        ensures
            r.match_expr@ == match_expr@,
            r.lens == Some(lens),
    {
        Match { match_expr: match_expr.to_string(), lens: Some(lens) }
    }

    /// Whether the rule holds of `context`. A rule that does not parse, or
    /// whose evaluation fails, does not hold.
    pub fn matches(&self, context: &Context) -> (r: bool)
        ensures
            r == rule_holds(self.match_expr@, self.lens, context@),
    {
        match self.parse() {
            Ok(expr) => match self.evaluate_expression(&expr, context) {
                Ok(b) => b,
                Err(_) => false,
            },
            Err(_) => false,
        }
    }

    /// The rule's tree, or why it does not parse.
    pub fn parse(&self) -> (r: Result<Expression, MatchError>)
        ensures
            parse_outcome(r, self.match_expr@),
    {
        let mut parser = Parser::new(self.match_expr.as_str());
        parser.parse()
    }

    /// The value of `expr` against `context`, or why it cannot be had.
    pub fn evaluate_expression(&self, expr: &Expression, context: &Context) -> (r: Result<bool, MatchError>)
        ensures
            evaluated(r, eval(expr@, context@, self.lens)),
        decreases expr,
    {
        match expr {
            Expression::Simple { match_type, operator, value } => self.evaluate_simple(
                match_type,
                operator,
                value.as_str(),
                context,
            ),
            Expression::Logical { left, op, right } => {
                let left_result = match self.evaluate_expression(left, context) {
                    Ok(b) => b,
                    Err(e) => return Err(e),
                };
                match op {
                    LogicalOp::And => {
                        if !left_result {
                            return Ok(false);
                        }
                        self.evaluate_expression(right, context)
                    },
                    LogicalOp::Or => {
                        if left_result {
                            return Ok(true);
                        }
                        self.evaluate_expression(right, context)
                    },
                    LogicalOp::Not => Err(
                        MatchError::InvalidExpression("a binary combinator cannot be Not".to_string()),
                    ),
                }
            },
            Expression::Not(inner) => match self.evaluate_expression(inner, context) {
                Ok(b) => Ok(!b),
                Err(e) => Err(e),
            },
            Expression::Parentheses(inner) => self.evaluate_expression(inner, context),
        }
    }

    fn evaluate_simple(
        &self,
        match_type: &MatchType,
        operator: &Operator,
        value: &str,
        context: &Context,
    ) -> (r: Result<bool, MatchError>)
        ensures
            evaluated(r, eval_cmp(*match_type, *operator, value@, context@, self.lens)),
    {
        match match_type {
            MatchType::Text => self.evaluate_text(operator, value, context),
            MatchType::Files => self.evaluate_files(operator, value, context),
            MatchType::Dirs => self.evaluate_dirs(operator, value, context),
            MatchType::ActiveFile => self.apply_operator(operator, value, text_or_empty(&context.active_file)),
            MatchType::App => self.apply_operator(operator, value, text_or_empty(&context.app_name)),
            MatchType::AppTitle => self.apply_operator(operator, value, text_or_empty(&context.app_title)),
            MatchType::Workspace => self.apply_operator(operator, value, text_or_empty(&context.workspace)),
            MatchType::FileExt => self.evaluate_file_extensions(operator, value, context),
        }
    }

    fn evaluate_text(&self, operator: &Operator, value: &str, context: &Context) -> (r: Result<bool, MatchError>)
        ensures
            evaluated(r, eval_cmp(MatchType::Text, *operator, value@, context@, self.lens)),
    {
        let text = text_or_empty(&context.text);
        if let Some(lens) = &self.lens {
            if !self.check_length(text.unicode_len(), lens) {
                return Ok(false);
            }
        }
        self.apply_operator(operator, value, text)
    }

    fn evaluate_files(&self, operator: &Operator, value: &str, context: &Context) -> (r: Result<bool, MatchError>)
        ensures
            evaluated(r, eval_cmp(MatchType::Files, *operator, value@, context@, self.lens)),
    {
        let files = context.files();
        if let Some(lens) = &self.lens {
            if !self.check_length(files.len(), lens) {
                return Ok(false);
            }
        }
        self.evaluate_entries(operator, value, &files)
    }

    fn evaluate_dirs(&self, operator: &Operator, value: &str, context: &Context) -> (r: Result<bool, MatchError>)
        ensures
            evaluated(r, eval_cmp(MatchType::Dirs, *operator, value@, context@, self.lens)),
    {
        let dirs = context.directories();
        if let Some(lens) = &self.lens {
            if !self.check_length(dirs.len(), lens) {
                return Ok(false);
            }
        }
        self.evaluate_entries(operator, value, &dirs)
    }

    /// Whether some entry's path or name meets the operator's test (none, for
    /// a negated operator); for `Any`, whether there is an entry at all.
    fn evaluate_entries(&self, operator: &Operator, value: &str, entries: &Vec<&FileEntry>) -> (r: Result<
        bool,
        MatchError,
    >)
        ensures
            evaluated(r, compare_entries(*operator, value@, entry_ref_views(entries@))),
    {
        let ghost es = entry_ref_views(entries@);
        if *operator == Operator::Any {
            return Ok(entries.len() > 0);
        }
        let pattern = if *operator == Operator::Regex || *operator == Operator::NotRegex {
            match compile(value) {
                Ok(p) => Some(p),
                Err(e) => return Err(MatchError::RegexError(e)),
            }
        } else {
            None
        };
        let mut found = false;
        let mut i: usize = 0;
        while i < entries.len() && !found
            invariant
                es == entry_ref_views(entries@),
                i <= entries@.len(),
                uses_pattern(*operator) ==> (pattern matches Some(p) && p@ == value@),
                found == exists|k: int| 0 <= k < i && entry_hit(*operator, value@, #[trigger] es[k]),
            decreases entries@.len() - i,
        {
            let e = entries[i];
            found = self.test_target(operator, value, &pattern, e.path.as_str()) || self.test_target(
                operator,
                value,
                &pattern,
                e.name.as_str(),
            );
            assert(es[i as int] == e@);
            i = i + 1;
        }
        proof {
            if !found {
                assert forall|k: int| 0 <= k < es.len() implies !entry_hit(*operator, value@, #[trigger] es[k]) by {
                    assert(k < i);
                }
            }
        }
        if *operator == Operator::NotEquals || *operator == Operator::NotContains || *operator
            == Operator::NotRegex {
            Ok(!found)
        } else {
            Ok(found)
        }
    }

    /// Whether `target` meets the operator's test with `value`, before any
    /// negation; `pattern` is `value` compiled, for the regex operators.
    fn test_target(&self, operator: &Operator, value: &str, pattern: &Option<Pattern>, target: &str) -> (r: bool)
        requires
            uses_pattern(*operator) ==> (pattern matches Some(p) && p@ == value@),
        ensures
            r == hit(*operator, value@, target@),
    {
        match operator {
            Operator::Equals | Operator::NotEquals => same_text(target, value),
            Operator::Contains | Operator::NotContains => text_contains(target, value),
            Operator::Regex | Operator::NotRegex => match pattern {
                Some(p) => is_match(p, target),
                None => false,
            },
            Operator::Any => true,
        }
    }

    fn evaluate_file_extensions(&self, operator: &Operator, value: &str, context: &Context) -> (r: Result<
        bool,
        MatchError,
    >)
        ensures
            evaluated(r, eval_cmp(MatchType::FileExt, *operator, value@, context@, self.lens)),
    {
        let files_with_ext = context.files_with_extension(value);
        match operator {
            Operator::Any => Ok(files_with_ext.len() > 0),
            Operator::Equals => Ok(files_with_ext.len() > 0),
            Operator::NotEquals => Ok(files_with_ext.len() == 0),
            _ => Ok(false),
        }
    }

    /// A comparison of one string, `target`, against `pattern`.
    fn apply_operator(&self, operator: &Operator, pattern: &str, target: &str) -> (r: Result<bool, MatchError>)
        ensures
            evaluated(r, compare(*operator, pattern@, target@)),
    {
        match operator {
            Operator::Equals => Ok(same_text(target, pattern)),
            Operator::NotEquals => Ok(!same_text(target, pattern)),
            Operator::Contains => Ok(text_contains(target, pattern)),
            Operator::NotContains => Ok(!text_contains(target, pattern)),
            Operator::Regex => match compile(pattern) {
                Ok(p) => Ok(is_match(&p, target)),
                Err(e) => Err(MatchError::RegexError(e)),
            },
            Operator::NotRegex => match compile(pattern) {
                Ok(p) => Ok(!is_match(&p, target)),
                Err(e) => Err(MatchError::RegexError(e)),
            },
            Operator::Any => Ok(true),
        }
    }

    fn check_length(&self, actual: usize, lens: &[u32; 2]) -> (r: bool)
        ensures
            r == within(actual as int, Some(*lens)),
    {
        actual >= lens[0] as usize && actual <= lens[1] as usize
    }
}

/// The facts `Match::validate_files` builds from a list of file paths.
pub open spec fn files_context(paths: Seq<String>) -> ContextView {
    ContextView {
        entries: paths.map_values(|p: String| entry_for(p@, FileType::File)),
        ..empty_context()
    }
}

impl Match {
    /// Whether the rule holds when the selected text is `text` and nothing
    /// else is known.
    pub fn validate_text(&self, text: &str) -> (r: bool)
        ensures
            r == rule_holds(self.match_expr@, self.lens, ContextView { text: Some(text@), ..empty_context() }),
    {
        let context = Context::new().with_text(text);
        self.matches(&context)
    }

    /// Whether the rule holds when the file entries are the files at `files`
    /// and nothing else is known.
    pub fn validate_files(&self, files: &[String]) -> (r: bool)
        ensures
            r == rule_holds(self.match_expr@, self.lens, files_context(files@)),
    {
        let ghost want = files@.map_values(|p: String| entry_for(p@, FileType::File));
        let mut file_entries: Vec<FileEntry> = Vec::new();
        let mut i: usize = 0;
        while i < files.len()
            invariant
                i <= files@.len(),
                want == files@.map_values(|p: String| entry_for(p@, FileType::File)),
                entry_views(file_entries@) == want.subrange(0, i as int),
            decreases files@.len() - i,
        {
            let ghost before = file_entries@;
            file_entries.push(FileEntry::new(files[i].as_str(), FileType::File));
            assert(entry_views(file_entries@) =~= entry_views(before).push(want[i as int]));
            assert(want.subrange(0, i + 1) =~= want.subrange(0, i as int).push(want[i as int]));
            i = i + 1;
        }
        assert(want.subrange(0, i as int) =~= want);
        let context = Context::new().with_files(file_entries);
        self.matches(&context)
    }

    /// Whether the rule holds when the foreground application is `app_name`,
    /// titled `app_title` if given, and nothing else is known.
    pub fn validate_app(&self, app_name: &str, app_title: Option<&str>) -> (r: bool)
        ensures
            r == rule_holds(
                self.match_expr@,
                self.lens,
                ContextView {
                    app_name: Some(app_name@),
                    app_title: match app_title {
                        Some(t) => Some(t@),
                        None => None,
                    },
                    ..empty_context()
                },
            ),
    {
        let context = Context::new().with_app(app_name, app_title);
        self.matches(&context)
    }
}

} // verus!
