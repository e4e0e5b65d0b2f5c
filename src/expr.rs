//! The abstract syntax of rules, and the errors of parsing and evaluation.
use vstd::prelude::*;

verus! {

/// Which fact of the context a comparison reads.
#[derive(Clone, Copy, Debug, PartialEq, Eq, Structural)]
pub enum MatchType {
    /// The selected text.
    Text,
    /// Paths and names of the file entries that are files.
    Files,
    /// Paths and names of the file entries that are directories.
    Dirs,
    /// The active file's path.
    ActiveFile,
    /// The foreground application's name.
    App,
    /// The foreground application's window title.
    AppTitle,
    /// The workspace root.
    Workspace,
    /// The extensions of the file entries that are files.
    FileExt,
}

/// How a comparison relates its value to the fact it reads.
#[derive(Clone, Copy, Debug, PartialEq, Eq, Structural)]
pub enum Operator {
    Equals,
    NotEquals,
    Contains,
    /// Part of the operator set, though no rule text produces it.
    NotContains,
    Regex,
    NotRegex,
    /// The wildcard `*`.
    Any,
}

/// The binary combinators; `Not` is spelled as `Expression::Not` instead.
#[derive(Clone, Copy, Debug, PartialEq, Eq, Structural)]
pub enum LogicalOp {
    And,
    Or,
    Not,
}

/// A parsed rule.
#[derive(Debug, PartialEq)]
pub enum Expression {
    Simple { match_type: MatchType, operator: Operator, value: String },
    Logical { left: Box<Expression>, op: LogicalOp, right: Box<Expression> },
    Not(Box<Expression>),
    Parentheses(Box<Expression>),
}

/// The mathematical form of an `Expression`, with values as character sequences.
pub enum Ast {
    Cmp { kind: MatchType, operator: Operator, value: Seq<char> },
    Logical { left: Box<Ast>, op: LogicalOp, right: Box<Ast> },
    Not(Box<Ast>),
    Group(Box<Ast>),
}

impl Expression {
    /// The tree as an `Ast`.
    pub open spec fn to_ast(&self) -> Ast
        decreases self,
    {
        match self {
            Expression::Simple { match_type, operator, value } => Ast::Cmp {
                kind: *match_type,
                operator: *operator,
                value: value@,
            },
            Expression::Logical { left, op, right } => Ast::Logical {
                left: Box::new(left.to_ast()),
                op: *op,
                right: Box::new(right.to_ast()),
            },
            Expression::Not(inner) => Ast::Not(Box::new(inner.to_ast())),
            Expression::Parentheses(inner) => Ast::Group(Box::new(inner.to_ast())),
        }
    }
}

impl Clone for Expression {
    fn clone(&self) -> (r: Self)
        ensures
            r@ == self@,
        decreases self,
    {
        match self {
            Expression::Simple { match_type, operator, value } => Expression::Simple {
                match_type: *match_type,
                operator: *operator,
                value: value.clone(),
            },
            Expression::Logical { left, op, right } => Expression::Logical {
                left: Box::new((**left).clone()),
                op: *op,
                right: Box::new((**right).clone()),
            },
            Expression::Not(inner) => Expression::Not(Box::new((**inner).clone())),
            Expression::Parentheses(inner) => Expression::Parentheses(Box::new((**inner).clone())),
        }
    }
}

impl View for Expression {
    type V = Ast;

    open spec fn view(&self) -> Ast {
        self.to_ast()
    }
}

/// Every combinator of `a` is `And` or `Or`: a binary `Not` has no meaning.
pub open spec fn well_formed(a: Ast) -> bool
    decreases a,
{
    match a {
        Ast::Cmp { .. } => true,
        Ast::Logical { left, op, right } => op != LogicalOp::Not && well_formed(*left)
            && well_formed(*right),
        Ast::Not(inner) => well_formed(*inner),
        Ast::Group(inner) => well_formed(*inner),
    }
}

/// Why a rule could not be parsed or evaluated.
#[derive(Debug)]
pub enum MatchError {
    InvalidExpression(String),
    /// The rule text is malformed; the message says how.
    ParseError(String),
    /// A `Regex` or `NotRegex` comparison holds a pattern that does not compile.
    RegexError(regex::Error),
    /// Reserved: length constraints make a comparison false rather than fail.
    LengthError { expected: [u32; 2], actual: usize },
}

} // verus!
