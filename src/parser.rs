//! A recursive-descent parser over the rule's characters, with one cursor.
use crate::expr::{Ast, Expression, LogicalOp, MatchError, MatchType, Operator};
use crate::grammar::{
    and_at, and_rest, char_at, comparison_at, keyword_at, lit_at, match_type_at, not_at, operator_value_at,
    or_at, or_rest, prefixed, primary_at, quoted_rest, regex_rest, remaining, space_run, token, value_at,
};
use crate::strings::{chars_of, is_space_char, occurs_at};
use vstd::prelude::*;

verus! {

/// What a parsing step returned, against what the grammar says of the same
/// position: a tree and the characters consumed, or a parse error.
pub open spec fn parsed(
    r: Result<Expression, MatchError>,
    expected: Option<(Ast, nat)>,
    consumed: int,
) -> bool {
    match r {
        Ok(e) => consumed >= 0 && expected == Some((e@, consumed as nat)),
        Err(err) => expected is None && err is ParseError,
    }
}

/// A parse result with `d` more characters counted as consumed.
pub open spec fn shifted(r: Option<(Ast, nat)>, d: nat) -> Option<(Ast, nat)> {
    match r {
        Some((e, m)) => Some((e, d + m)),
        None => None,
    }
}

/// `prefixed` composes: text read in two steps is their concatenation.
proof fn lemma_prefixed_twice(
    acc: Seq<char>,
    off: nat,
    a: Seq<char>,
    n: nat,
    r: Option<(Seq<char>, nat)>,
)
    ensures
        prefixed(acc, off, prefixed(a, n, r)) == prefixed(acc + a, off + n, r),
{
    if let Some((t, m)) = r {
        assert(acc + (a + t) =~= (acc + a) + t);
    }
}

/// Whether `v` is the wildcard `*`.
fn is_star(v: &String) -> (r: bool)
    ensures
        r == (v@ == seq!['*']),
{
    let t = v.as_str();
    let r = t.unicode_len() == 1 && t.get_char(0) == '*';
    proof {
        if t@.len() == 1 && t@[0] == '*' {
            assert(t@ =~= seq!['*']);
        }
    }
    r
}

/// Reads a rule from a string of characters.
pub struct Parser {
    input: Vec<char>,
    pos: usize,
}

impl View for Parser {
    /// The characters and the cursor.
    type V = (Seq<char>, nat);

    closed spec fn view(&self) -> (Seq<char>, nat) {
        (self.input@, self.pos as nat)
    }
}

impl Parser {
    /// The cursor lies within the input.
    pub closed spec fn wf(&self) -> bool {
        self.pos <= self.input@.len() <= usize::MAX
    }

    /// A parser at the start of `input`.
    pub fn new(input: &str) -> (r: Self)
        ensures
            r@ == (input@, 0nat),
            r.wf(),
    {
        let input = chars_of(input);
        assert(input@.len() == input.len());
        Parser { input, pos: 0 }
    }

    /// Parses a whole rule from the cursor; what follows it is left unread.
    pub fn parse(&mut self) -> (r: Result<Expression, MatchError>)
        requires
            old(self).wf(),
        ensures
            final(self).wf(),
            final(self)@.0 == old(self)@.0,
            parsed(r, or_at(old(self)@.0, old(self)@.1), final(self)@.1 - old(self)@.1),
    {
        self.parse_or_expression()
    }

    #[verifier::rlimit(50)]
    fn parse_or_expression(&mut self) -> (r: Result<Expression, MatchError>)
        requires
            old(self).wf(),
        ensures
            final(self).wf(),
            final(self).input@ == old(self).input@,
            parsed(r, or_at(old(self).input@, old(self).pos as nat), final(self).pos - old(self).pos),
        decreases remaining(old(self).input@, old(self).pos as nat), 5nat,
    {
        let ghost s = self.input@;
        let ghost start = self.pos as nat;
        let mut left = match self.parse_and_expression() {
            Ok(e) => e,
            Err(err) => {
                assert(or_at(s, start) is None) by {
                    reveal(or_at);
                    reveal(and_at);
                }
                return Err(err);
            },
        };
        let ghost first = left@;
        let ghost mid = self.pos as nat;
        loop
            invariant_except_break
                or_rest(s, mid, first) == shifted(or_rest(s, self.pos as nat, left@), (self.pos - mid) as nat),
            invariant
                self.wf(),
                self.input@ == s,
                s == old(self).input@,
                start == old(self).pos,
                start <= mid <= self.pos,
                and_at(s, start) == Some((first, (mid - start) as nat)),
            ensures
                self.wf(),
                self.input@ == s,
                start <= mid <= self.pos,
                and_at(s, start) == Some((first, (mid - start) as nat)),
                or_rest(s, mid, first) == Some((left@, (self.pos - mid) as nat)),
            decreases s.len() - self.pos,
        {
            let ghost here = self.pos as nat;
            let ghost before = left@;
            self.consume_whitespace();
            let ghost w = (self.pos - here) as nat;
            if !(self.char_ahead(0) == '|' && self.char_ahead(1) == '|') {
                assert(or_rest(s, here, before) == Some((before, w))) by {
                    reveal(or_rest);
                }
                break;
            }
            self.pos = self.pos + 2;
            self.consume_whitespace();
            let ghost k = self.pos as nat;
            let right = match self.parse_and_expression() {
                Ok(e) => e,
                Err(err) => {
                    assert(or_rest(s, here, before) is None) by {
                        reveal(or_rest);
                        reveal(and_at);
                    }
                    assert(or_rest(s, mid, first) is None);
                    assert(or_at(s, start) is None) by {
                        reveal(or_at);
                        reveal(and_at);
                        reveal(or_rest);
                    }
                    return Err(err);
                },
            };
            left = Expression::Logical { left: Box::new(left), op: LogicalOp::Or, right: Box::new(right) };
            assert(left@ == Ast::Logical {
                left: Box::new(before),
                op: LogicalOp::Or,
                right: Box::new(right@),
            });
            assert(or_rest(s, here, before) == shifted(or_rest(s, self.pos as nat, left@), (self.pos - here) as nat)) by {
                reveal(or_rest);
                reveal(and_at);
            }
        }
        assert(or_at(s, start) == Some((left@, (self.pos - start) as nat))) by {
            reveal(or_at);
            reveal(and_at);
            reveal(or_rest);
        }
        Ok(left)
    }

    fn parse_and_expression(&mut self) -> (r: Result<Expression, MatchError>)
        requires
            old(self).wf(),
        ensures
            final(self).wf(),
            final(self).input@ == old(self).input@,
            parsed(r, and_at(old(self).input@, old(self).pos as nat), final(self).pos - old(self).pos),
        decreases remaining(old(self).input@, old(self).pos as nat), 3nat,
    {
        let ghost s = self.input@;
        let ghost start = self.pos as nat;
        let mut left = match self.parse_not_expression() {
            Ok(e) => e,
            Err(err) => {
                proof {
                    reveal(and_at);
                    reveal(not_at);
                }
                return Err(err);
            },
        };
        let ghost first = left@;
        let ghost mid = self.pos as nat;
        loop
            invariant_except_break
                and_rest(s, mid, first) == shifted(and_rest(s, self.pos as nat, left@), (self.pos - mid) as nat),
            invariant
                self.wf(),
                self.input@ == s,
                s == old(self).input@,
                start == old(self).pos,
                start <= mid <= self.pos,
                not_at(s, start) == Some((first, (mid - start) as nat)),
            ensures
                self.wf(),
                self.input@ == s,
                start <= mid <= self.pos,
                not_at(s, start) == Some((first, (mid - start) as nat)),
                and_rest(s, mid, first) == Some((left@, (self.pos - mid) as nat)),
            decreases s.len() - self.pos,
        {
            let ghost here = self.pos as nat;
            let ghost before = left@;
            proof {
                reveal(and_at);
                reveal(and_rest);
                reveal(not_at);
            }
            self.consume_whitespace();
            let ghost w = (self.pos - here) as nat;
            if !(self.char_ahead(0) == '&' && self.char_ahead(1) == '&') {
                assert(and_rest(s, here, before) == Some((before, w)));
                break;
            }
            self.pos = self.pos + 2;
            self.consume_whitespace();
            let ghost k = self.pos as nat;
            let right = match self.parse_not_expression() {
                Ok(e) => e,
                Err(err) => {
                    assert(and_rest(s, here, before) is None);
                    return Err(err);
                },
            };
            let ghost n = (self.pos - k) as nat;
            left = Expression::Logical { left: Box::new(left), op: LogicalOp::And, right: Box::new(right) };
            assert(left@ == Ast::Logical {
                left: Box::new(before),
                op: LogicalOp::And,
                right: Box::new(right@),
            });
            assert(and_rest(s, here, before) == shifted(and_rest(s, self.pos as nat, left@), (self.pos - here) as nat));
        }
        proof {
            reveal(and_at);
            reveal(and_rest);
            reveal(not_at);
        }
        Ok(left)
    }

    fn parse_not_expression(&mut self) -> (r: Result<Expression, MatchError>)
        requires
            old(self).wf(),
        ensures
            final(self).wf(),
            final(self).input@ == old(self).input@,
            parsed(r, not_at(old(self).input@, old(self).pos as nat), final(self).pos - old(self).pos),
        decreases remaining(old(self).input@, old(self).pos as nat), 1nat,
    {
        proof {
            reveal(not_at);
            reveal(primary_at);
        }
        self.consume_whitespace();
        if self.char_ahead(0) == '!' {
            self.pos = self.pos + 1;
            self.consume_whitespace();
            let inner = match self.parse_primary_expression() {
                Ok(e) => e,
                Err(err) => return Err(err),
            };
            Ok(Expression::Not(Box::new(inner)))
        } else {
            self.parse_primary_expression()
        }
    }

    fn parse_primary_expression(&mut self) -> (r: Result<Expression, MatchError>)
        requires
            old(self).wf(),
        ensures
            final(self).wf(),
            final(self).input@ == old(self).input@,
            parsed(r, primary_at(old(self).input@, old(self).pos as nat), final(self).pos - old(self).pos),
        decreases remaining(old(self).input@, old(self).pos as nat), 0nat,
    {
        proof {
            reveal(primary_at);
            reveal(or_at);
        }
        self.consume_whitespace();
        if self.char_ahead(0) == '(' {
            self.pos = self.pos + 1;
            let expr = match self.parse_or_expression() {
                Ok(e) => e,
                Err(err) => return Err(err),
            };
            self.consume_whitespace();
            if self.char_ahead(0) != ')' {
                return Err(MatchError::ParseError("Expected ')'".to_string()));
            }
            self.pos = self.pos + 1;
            Ok(Expression::Parentheses(Box::new(expr)))
        } else {
            self.parse_comparison()
        }
    }

    fn parse_comparison(&mut self) -> (r: Result<Expression, MatchError>)
        requires
            old(self).wf(),
        ensures
            final(self).wf(),
            final(self).input@ == old(self).input@,
            parsed(r, comparison_at(old(self).input@, old(self).pos as nat), final(self).pos - old(self).pos),
    {
        proof {
            reveal(comparison_at);
        }
        self.consume_whitespace();
        let match_type = match self.parse_match_type() {
            Ok(t) => t,
            Err(err) => return Err(err),
        };
        self.consume_whitespace();
        match self.parse_operator_and_value() {
            Ok((operator, value)) => Ok(Expression::Simple { match_type, operator, value }),
            Err(err) => Err(err),
        }
    }

    /// Whether the keyword `kw` stands at the cursor, followed by a keyword end.
    fn keyword_ahead(&self, kw: &str) -> (r: bool)
        requires
            self.wf(),
        ensures
            r == keyword_at(self.input@, self.pos as nat, kw@),
    {
        if !self.peek_str(kw) {
            return false;
        }
        let next = self.pos + kw.unicode_len();
        if next >= self.input.len() {
            return true;
        }
        is_space_char(self.input[next]) || self.lit_at_index(next, "==") || self.lit_at_index(next, "!=")
            || self.lit_at_index(next, "=")
    }

    fn parse_match_type(&mut self) -> (r: Result<MatchType, MatchError>)
        requires
            old(self).wf(),
        ensures
            final(self).wf(),
            final(self).input@ == old(self).input@,
            match r {
                Ok(t) => match_type_at(old(self).input@, old(self).pos as nat) == Some(
                    (t, (final(self).pos - old(self).pos) as nat),
                ) && final(self).pos >= old(self).pos,
                Err(err) => match_type_at(old(self).input@, old(self).pos as nat) is None
                    && err is ParseError,
            },
    {
        proof {
            reveal(match_type_at);
        }
        let found = if self.keyword_ahead("activeFile") {
            Some((MatchType::ActiveFile, "activeFile"))
        } else if self.keyword_ahead("appTitle") {
            Some((MatchType::AppTitle, "appTitle"))
        } else if self.keyword_ahead("workspace") {
            Some((MatchType::Workspace, "workspace"))
        } else if self.keyword_ahead("fileExt") {
            Some((MatchType::FileExt, "fileExt"))
        } else if self.keyword_ahead("text") {
            Some((MatchType::Text, "text"))
        } else if self.keyword_ahead("files") {
            Some((MatchType::Files, "files"))
        } else if self.keyword_ahead("dirs") {
            Some((MatchType::Dirs, "dirs"))
        } else if self.keyword_ahead("app") {
            Some((MatchType::App, "app"))
        } else {
            None
        };
        match found {
            Some((match_type, kw)) => {
                self.pos = self.pos + kw.unicode_len();
                Ok(match_type)
            },
            None => Err(MatchError::ParseError("Expected match type".to_string())),
        }
    }

    fn parse_operator_and_value(&mut self) -> (r: Result<(Operator, String), MatchError>)
        requires
            old(self).wf(),
        ensures
            final(self).wf(),
            final(self).input@ == old(self).input@,
            match r {
                Ok((op, v)) => operator_value_at(old(self).input@, old(self).pos as nat) == Some(
                    (op, v@, (final(self).pos - old(self).pos) as nat),
                ) && final(self).pos >= old(self).pos,
                Err(err) => operator_value_at(old(self).input@, old(self).pos as nat) is None
                    && err is ParseError,
            },
    {
        proof {
            reveal(operator_value_at);
        }
        proof {
            reveal_strlit("==");
            reveal_strlit("!=");
            reveal_strlit("=");
        }
        if self.consume_str("==") {
            self.consume_whitespace();
            let (value, is_regex) = match self.parse_value_with_type() {
                Ok(v) => v,
                Err(err) => return Err(err),
            };
            let operator = if is_star(&value) {
                Operator::Any
            } else if is_regex {
                Operator::Regex
            } else {
                Operator::Equals
            };
            Ok((operator, value))
        } else if self.consume_str("!=") {
            self.consume_whitespace();
            let (value, is_regex) = match self.parse_value_with_type() {
                Ok(v) => v,
                Err(err) => return Err(err),
            };
            let operator = if is_regex {
                Operator::NotRegex
            } else {
                Operator::NotEquals
            };
            Ok((operator, value))
        } else if self.consume_str("=") {
            self.consume_whitespace();
            let (value, is_regex) = match self.parse_value_with_type() {
                Ok(v) => v,
                Err(err) => return Err(err),
            };
            let operator = if is_regex {
                Operator::Regex
            } else {
                Operator::Contains
            };
            Ok((operator, value))
        } else {
            Err(MatchError::ParseError("Expected operator".to_string()))
        }
    }

    fn parse_value_with_type(&mut self) -> (r: Result<(String, bool), MatchError>)
        requires
            old(self).wf(),
        ensures
            final(self).wf(),
            final(self).input@ == old(self).input@,
            match r {
                Ok((v, is_regex)) => value_at(old(self).input@, old(self).pos as nat) == Some(
                    (v@, is_regex, (final(self).pos - old(self).pos) as nat),
                ) && final(self).pos >= old(self).pos,
                Err(err) => value_at(old(self).input@, old(self).pos as nat) is None
                    && err is ParseError,
            },
    {
        proof {
            reveal(value_at);
        }
        let c = self.current_char();
        if c == '\'' || c == '"' {
            match self.parse_quoted_string() {
                Ok(v) => Ok((v, false)),
                Err(err) => Err(err),
            }
        } else if c == '/' {
            match self.parse_regex() {
                Ok(v) => Ok((v, true)),
                Err(err) => Err(err),
            }
        } else if c == '\\' {
            self.pos = self.pos + 1;
            match self.parse_unquoted_string() {
                Ok(v) => Ok((v, true)),
                Err(err) => Err(err),
            }
        } else {
            match self.parse_unquoted_string() {
                Ok(v) => Ok((v, false)),
                Err(err) => Err(err),
            }
        }
    }

    fn parse_quoted_string(&mut self) -> (r: Result<String, MatchError>)
        requires
            old(self).wf(),
            old(self).pos < old(self).input@.len(),
        ensures
            final(self).wf(),
            final(self).input@ == old(self).input@,
            match r {
                Ok(v) => quoted_rest(
                    old(self).input@,
                    old(self).pos as nat + 1,
                    old(self).input@[old(self).pos as int],
                ) == Some((v@, (final(self).pos - old(self).pos - 1) as nat)) && final(self).pos
                    > old(self).pos,
                Err(err) => quoted_rest(
                    old(self).input@,
                    old(self).pos as nat + 1,
                    old(self).input@[old(self).pos as int],
                ) is None && err is ParseError,
            },
    {
        proof {
            reveal(quoted_rest);
        }
        let ghost s = self.input@;
        let quote_char = self.current_char();
        self.pos = self.pos + 1;
        let ghost start = self.pos as nat;
        let mut result = String::new();
        while self.pos < self.input.len() && self.current_char() != quote_char
            invariant
                self.input@ == s,
                s.len() <= usize::MAX,
                start <= self.pos <= s.len(),
                quoted_rest(s, start, quote_char) == prefixed(
                    result@,
                    (self.pos - start) as nat,
                    quoted_rest(s, self.pos as nat, quote_char),
                ),
            decreases s.len() - self.pos,
        {
            let ghost here = self.pos as nat;
            let ghost acc = result@;
            proof {
                reveal(quoted_rest);
            }
            if self.current_char() == '\\' && self.pos + 1 < self.input.len() {
                self.pos = self.pos + 1;
                let c = match self.current_char() {
                    'n' => '\n',
                    't' => '\t',
                    'r' => '\r',
                    '\\' => '\\',
                    '\'' => '\'',
                    '"' => '"',
                    c => c,
                };
                result.push(c);
                proof {
                    lemma_prefixed_twice(acc, (here - start) as nat, seq![c], 2, quoted_rest(s, here + 2, quote_char));
                    assert(acc + seq![c] =~= result@);
                }
            } else {
                let c = self.current_char();
                result.push(c);
                proof {
                    lemma_prefixed_twice(acc, (here - start) as nat, seq![c], 1, quoted_rest(s, here + 1, quote_char));
                    assert(acc + seq![c] =~= result@);
                }
            }
            self.pos = self.pos + 1;
        }
        if self.pos >= self.input.len() {
            return Err(MatchError::ParseError("Unterminated string".to_string()));
        }
        assert(result@ + Seq::<char>::empty() =~= result@);
        self.pos = self.pos + 1;
        Ok(result)
    }

    fn parse_regex(&mut self) -> (r: Result<String, MatchError>)
        requires
            old(self).wf(),
            old(self).pos < old(self).input@.len(),
        ensures
            final(self).wf(),
            final(self).input@ == old(self).input@,
            match r {
                Ok(v) => regex_rest(old(self).input@, old(self).pos as nat + 1) == Some(
                    (v@, (final(self).pos - old(self).pos - 1) as nat),
                ) && final(self).pos > old(self).pos,
                Err(err) => regex_rest(old(self).input@, old(self).pos as nat + 1) is None
                    && err is ParseError,
            },
    {
        proof {
            reveal(regex_rest);
        }
        let ghost s = self.input@;
        self.pos = self.pos + 1;
        let ghost start = self.pos as nat;
        let mut result = String::new();
        while self.pos < self.input.len() && self.current_char() != '/'
            invariant
                self.input@ == s,
                s.len() <= usize::MAX,
                start <= self.pos <= s.len(),
                regex_rest(s, start) == prefixed(
                    result@,
                    (self.pos - start) as nat,
                    regex_rest(s, self.pos as nat),
                ),
            decreases s.len() - self.pos,
        {
            let ghost here = self.pos as nat;
            let ghost acc = result@;
            proof {
                reveal(regex_rest);
            }
            if self.current_char() == '\\' && self.pos + 1 < self.input.len() {
                let c = self.current_char();
                result.push(c);
                self.pos = self.pos + 1;
                let d = self.current_char();
                result.push(d);
                proof {
                    lemma_prefixed_twice(acc, (here - start) as nat, seq![c, d], 2, regex_rest(s, here + 2));
                    assert(acc + seq![c, d] =~= result@);
                }
            } else {
                let c = self.current_char();
                result.push(c);
                proof {
                    lemma_prefixed_twice(acc, (here - start) as nat, seq![c], 1, regex_rest(s, here + 1));
                    assert(acc + seq![c] =~= result@);
                }
            }
            self.pos = self.pos + 1;
        }
        if self.pos >= self.input.len() {
            return Err(MatchError::ParseError("Unterminated regex".to_string()));
        }
        assert(result@ + Seq::<char>::empty() =~= result@);
        self.pos = self.pos + 1;
        Ok(result)
    }

    fn parse_unquoted_string(&mut self) -> (r: Result<String, MatchError>)
        requires
            old(self).wf(),
        ensures
            final(self).wf(),
            final(self).input@ == old(self).input@,
            match r {
                Ok(v) => v@ == token(old(self).input@, old(self).pos as nat) && v@.len() > 0
                    && final(self).pos == old(self).pos + v@.len(),
                Err(err) => token(old(self).input@, old(self).pos as nat).len() == 0
                    && err is ParseError,
            },
    {
        proof {
            reveal(token);
        }
        let ghost s = self.input@;
        let ghost start = self.pos as nat;
        let mut result = String::new();
        loop
            invariant_except_break
                token(s, start) == result@ + token(s, self.pos as nat),
            invariant
                self.wf(),
                self.input@ == s,
                start <= self.pos <= s.len(),
                self.pos - start == result@.len(),
            ensures
                token(s, start) == result@,
            decreases s.len() - self.pos,
        {
            proof {
                reveal(token);
            }
            let ch = self.current_char();
            if self.pos >= self.input.len() || is_space_char(ch) || ch == ')' || (self.char_ahead(0)
                == '&' && self.char_ahead(1) == '&') || (self.char_ahead(0) == '|'
                && self.char_ahead(1) == '|') {
                assert(result@ + Seq::<char>::empty() =~= result@);
                break;
            }
            let ghost acc = result@;
            result.push(ch);
            assert(acc + (seq![ch] + token(s, (self.pos + 1) as nat)) =~= result@ + token(s, (self.pos + 1) as nat));
            self.pos = self.pos + 1;
        }
        if result.as_str().unicode_len() == 0 {
            return Err(MatchError::ParseError("Expected value".to_string()));
        }
        Ok(result)
    }

    /// Skips whitespace; tells whether there was any.
    fn consume_whitespace(&mut self) -> (r: bool)
        requires
            old(self).wf(),
        ensures
            final(self).input@ == old(self).input@,
            final(self).pos == old(self).pos + space_run(old(self).input@, old(self).pos as nat),
            final(self).wf(),
            r == (final(self).pos > old(self).pos),
    {
        proof {
            reveal(space_run);
        }
        let ghost s = self.input@;
        let start_pos = self.pos;
        while self.pos < self.input.len() && is_space_char(self.current_char())
            invariant
                self.input@ == s,
                s.len() <= usize::MAX,
                start_pos <= self.pos <= s.len(),
                start_pos + space_run(s, start_pos as nat) == self.pos + space_run(s, self.pos as nat),
            decreases s.len() - self.pos,
        {
            proof {
                reveal(space_run);
            }
            self.pos = self.pos + 1;
        }
        proof {
            reveal(space_run);
        }
        self.pos > start_pos
    }

    /// Whether `s` stands at the cursor.
    fn peek_str(&self, s: &str) -> (r: bool)
        requires
            self.wf(),
        ensures
            r == lit_at(self.input@, self.pos as int, s@),
    {
        self.lit_at_index(self.pos, s)
    }

    /// Whether `s` stands at index `at` of the input.
    fn lit_at_index(&self, at: usize, s: &str) -> (r: bool)
        requires
            at <= self.input@.len(),
        ensures
            r == lit_at(self.input@, at as int, s@),
    {
        let lit = chars_of(s);
        if lit.len() > self.input.len() - at {
            return false;
        }
        occurs_at(self.input.as_slice(), lit.as_slice(), at)
    }

    /// Moves past `s` if it stands at the cursor.
    fn consume_str(&mut self, s: &str) -> (r: bool)
        requires
            old(self).wf(),
        ensures
            final(self).input@ == old(self).input@,
            final(self).wf(),
            r == lit_at(old(self).input@, old(self).pos as int, s@),
            final(self).pos == if r {
                old(self).pos + s@.len()
            } else {
                old(self).pos as int
            },
    {
        if self.peek_str(s) {
            self.pos = self.pos + s.unicode_len();
            true
        } else {
            false
        }
    }

    /// The character at the cursor, or `'\0'` at the end.
    fn current_char(&self) -> (c: char)
        ensures
            c == char_at(self.input@, self.pos as int),
            c != '\0' ==> self.pos < self.input@.len(),
            self.input@.len() <= usize::MAX,
    {
        self.char_ahead(0)
    }

    /// The character `k` places past the cursor, or `'\0'` past the end.
    fn char_ahead(&self, k: usize) -> (c: char)
        ensures
            c == char_at(self.input@, self.pos + k),
            c != '\0' ==> self.pos + k < self.input@.len(),
            self.input@.len() <= usize::MAX,
    {
        if self.pos < self.input.len() && k < self.input.len() - self.pos {
            self.input[self.pos + k]
        } else {
            '\0'
        }
    }
}

} // verus!
