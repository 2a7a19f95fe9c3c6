//! The expression parser: turns a token sequence into an expression tree.
//!
//! An expression is read left to right with a stack of operands and a stack of
//! operators. Leading operators become unary operators, a binary operator whose
//! operand is itself a binary operation of lower precedence is rotated below it,
//! and parentheses are kept as explicit nodes that are removed at the end.

use vstd::prelude::*;
use crate::lexer::{Float, Operator, Token, TokenModel, tokens_view};

verus! {

/// An expression tree.
#[derive(Debug, PartialEq, Eq)]
pub enum Expr {
    IntegerValue(i128),
    FloatValue(Float),
    FunctionCall(String, Vec<Expr>),
    Variable(String),
    BinaryOperation(Box<Expr>, Operator, Box<Expr>),
    Parenthesized(Box<Expr>),
    UnaryExpression(Operator, Box<Expr>),
}

/// The mathematical value of an expression tree.
pub enum ExprModel {
    IntegerValue(int),
    FloatValue(Seq<char>),
    FunctionCall(Seq<char>, Seq<ExprModel>),
    Variable(Seq<char>),
    BinaryOperation(Box<ExprModel>, Operator, Box<ExprModel>),
    Parenthesized(Box<ExprModel>),
    UnaryExpression(Operator, Box<ExprModel>),
}

impl View for Expr {
    type V = ExprModel;

    open spec fn view(&self) -> ExprModel
        decreases self,
    {
        match self {
            Expr::IntegerValue(i) => ExprModel::IntegerValue(*i as int),
            Expr::FloatValue(f) => ExprModel::FloatValue(f.0@),
            Expr::FunctionCall(name, args) => {
                proof {
                    assert forall|i: int| 0 <= i < args@.len() implies decreases_to!(self => args@[i]) by {
                        assert(decreases_to!(self => args));
                        assert(decreases_to!(args => args@));
                        assert(decreases_to!(args@ => args@[i]));
                    }
                }
                ExprModel::FunctionCall(
                    name@,
                    Seq::new(
                        args@.len(),
                        |i: int|
                            if 0 <= i < args@.len() {
                                args@[i].view()
                            } else {
                                ExprModel::IntegerValue(0)
                            },
                    ),
                )
            },
            Expr::Variable(name) => ExprModel::Variable(name@),
            Expr::BinaryOperation(l, o, r) => ExprModel::BinaryOperation(
                Box::new((**l).view()),
                *o,
                Box::new((**r).view()),
            ),
            Expr::Parenthesized(e) => ExprModel::Parenthesized(Box::new((**e).view())),
            Expr::UnaryExpression(o, e) => ExprModel::UnaryExpression(*o, Box::new((**e).view())),
        }
    }
}

/// The models of a sequence of expressions.
pub open spec fn exprs_view(s: Seq<Expr>) -> Seq<ExprModel> {
    Seq::new(
        s.len(),
        |i: int|
            if 0 <= i < s.len() {
                s[i]@
            } else {
                ExprModel::IntegerValue(0)
            },
    )
}

/// Why a token sequence is not an expression.
#[derive(Debug, Clone, Copy, PartialEq, Eq, Structural)]
pub enum ParseError {
    /// An opening parenthesis has no matching closing one.
    MismatchedParens,
    /// The arguments of a call are not followed by a closing parenthesis.
    MissingCloseParen,
    /// Operators are left over once the operands are used up.
    UnparsedOperators,
    /// Operands are left over with no operator to combine them.
    UnparsedOperands,
    /// An expression was expected and nothing was read.
    EmptyOperandStack,
    /// Tokens follow the expression.
    RemainingTokens,
    /// No expression was read at all.
    NothingParsed,
}

impl Expr {
    /// A boxed integer literal expression.
    pub fn new_int(i: i128) -> (r: Box<Expr>)
        ensures
            r@ == ExprModel::IntegerValue(i as int),
    {
        Box::new(Expr::IntegerValue(i))
    }

    /// A boxed float literal expression.
    pub fn new_float(f: Float) -> (r: Box<Expr>)
        ensures
            r@ == ExprModel::FloatValue(f.0@),
    {
        Box::new(Expr::FloatValue(f))
    }
}

/// Binding strength of a binary operator: `*` and `/` bind tighter than the rest.
pub open spec fn spec_precedence(o: Operator) -> int {
    match o {
        Operator::Multiply => 100,
        Operator::Divide => 100,
        _ => 1,
    }
}

pub fn precedence(o: Operator) -> (r: u32)
    ensures
        r == spec_precedence(o),
{
    match o {
        Operator::Multiply => 100,
        Operator::Divide => 100,
        _ => 1,
    }
}

/// The expression with every parenthesis node replaced by its content, through
/// unary and binary operations (the arguments of calls are left as they are).
pub open spec fn spec_clean_parens(e: ExprModel) -> ExprModel
    decreases e,
{
    match e {
        ExprModel::Parenthesized(inner) => spec_clean_parens(*inner),
        ExprModel::UnaryExpression(op, inner) => ExprModel::UnaryExpression(
            op,
            Box::new(spec_clean_parens(*inner)),
        ),
        ExprModel::BinaryOperation(l, op, r) => ExprModel::BinaryOperation(
            Box::new(spec_clean_parens(*l)),
            op,
            Box::new(spec_clean_parens(*r)),
        ),
        _ => e,
    }
}

pub fn clean_parens(expr: Expr) -> (r: Expr)
    ensures
        r@ == spec_clean_parens(expr@),
    decreases expr,
{
    match expr {
        Expr::Parenthesized(e) => clean_parens(*e),
        Expr::UnaryExpression(op, e) => Expr::UnaryExpression(op, Box::new(clean_parens(*e))),
        Expr::BinaryOperation(left, op, right) => {
            let left_clean = Box::new(clean_parens(*left));
            let right_clean = Box::new(clean_parens(*right));
            Expr::BinaryOperation(left_clean, op, right_clean)
        },
        _ => expr,
    }
}

/// `e` under the unary operators `ops`, the last operator innermost.
pub open spec fn wrap_unary(ops: Seq<Operator>, e: ExprModel) -> ExprModel
    decreases ops.len(),
{
    if ops.len() == 0 {
        e
    } else {
        wrap_unary(ops.drop_last(), ExprModel::UnaryExpression(ops.last(), Box::new(e)))
    }
}

/// The binary operation `lhs op rhs`, rotated when an operand is a binary
/// operation of lower precedence than `op` (the right operand is looked at last).
pub open spec fn rotate(lhs: ExprModel, op: Operator, rhs: ExprModel) -> ExprModel {
    let plain = ExprModel::BinaryOperation(Box::new(lhs), op, Box::new(rhs));
    let after_lhs = match lhs {
        ExprModel::BinaryOperation(ld, od, rd) => if spec_precedence(op) > spec_precedence(od) {
            ExprModel::BinaryOperation(ld, od, Box::new(ExprModel::BinaryOperation(rd, op, Box::new(rhs))))
        } else {
            plain
        },
        _ => plain,
    };
    match rhs {
        ExprModel::BinaryOperation(ld, od, rd) => if spec_precedence(op) > spec_precedence(od) {
            ExprModel::BinaryOperation(ld, od, Box::new(ExprModel::BinaryOperation(rd, op, Box::new(lhs))))
        } else {
            after_lhs
        },
        _ => after_lhs,
    }
}

/// The stacks after an operand was pushed: a lone operator becomes unary, extra
/// operators before a second operand become unary operators of that operand,
/// then the top two operands are combined by the top operator.
pub open spec fn absorb_operand(ops: Seq<Operator>, opnds: Seq<ExprModel>) -> (
    Seq<Operator>,
    Seq<ExprModel>,
) {
    let (ops1, opnds1) = if opnds.len() == 1 && ops.len() == 1 {
        (Seq::<Operator>::empty(), seq![ExprModel::UnaryExpression(ops[0], Box::new(opnds[0]))])
    } else if ops.len() > 1 && opnds.len() == 2 {
        (seq![ops[0]], seq![opnds[0], wrap_unary(ops.subrange(1, ops.len() as int), opnds[1])])
    } else {
        (ops, opnds)
    };
    if opnds1.len() >= 2 && ops1.len() > 0 {
        let n = opnds1.len();
        (
            ops1.drop_last(),
            opnds1.subrange(0, n - 2).push(rotate(opnds1[n - 2], ops1.last(), opnds1[n - 1])),
        )
    } else {
        (ops1, opnds1)
    }
}

/// The index of the parenthesis that closes one opened before `i`, scanning
/// `t[i..end]` with `open` and `close` parentheses counted so far.
pub open spec fn find_close(t: Seq<TokenModel>, i: int, end: int, open: int, close: int) -> Option<int>
    decreases end - i,
{
    if i < 0 || i >= end || end > t.len() {
        None
    } else {
        let open2 = if t[i] == TokenModel::Operator(Operator::OpenParen) {
            open + 1
        } else {
            open
        };
        if t[i] == TokenModel::Operator(Operator::CloseParen) {
            if open2 == close + 1 {
                Some(i)
            } else {
                find_close(t, i + 1, end, open2, close + 1)
            }
        } else {
            find_close(t, i + 1, end, open2, close)
        }
    }
}

/// One expression of `t[pos..end]`, reading it as a parenthesized
/// comma-separated list that must take up all the tokens; the first element.
pub open spec fn spec_parse_range(t: Seq<TokenModel>, pos: int, end: int) -> Result<ExprModel, ParseError>
    decreases end - pos, 3int,
{
    if pos < 0 || pos > end || end > t.len() {
        Err(ParseError::NothingParsed)
    } else {
        match spec_parse_list(t, pos, end, Seq::empty()) {
            Err(e) => Err(e),
            Ok((exprs, rem)) => if rem != end {
                Err(ParseError::RemainingTokens)
            } else if exprs.len() == 0 {
                Err(ParseError::NothingParsed)
            } else {
                Ok(exprs[0])
            },
        }
    }
}

/// The comma-separated expressions of `t[pos..end]` after those in `acc`, with
/// the position of the first token that is not part of the list.
pub open spec fn spec_parse_list(t: Seq<TokenModel>, pos: int, end: int, acc: Seq<ExprModel>) -> Result<
    (Seq<ExprModel>, int),
    ParseError,
>
    decreases end - pos, 2int,
{
    if pos < 0 || pos > end || end > t.len() {
        Err(ParseError::NothingParsed)
    } else {
        match spec_parse_expr(t, pos, end) {
            Err(e) => Err(e),
            Ok((e, p)) => if p == pos {
                Ok((acc, end))
            } else if p < pos || p > end {
                Err(ParseError::NothingParsed)
            } else if p == end {
                Ok((acc.push(e), end))
            } else if t[p] == TokenModel::Comma {
                spec_parse_list(t, p + 1, end, acc.push(e))
            } else {
                Ok((acc.push(e), p))
            },
        }
    }
}

/// One expression at the start of `t[pos..end]`, with the position after it.
pub open spec fn spec_parse_expr(t: Seq<TokenModel>, pos: int, end: int) -> Result<(ExprModel, int), ParseError>
    decreases end - pos, 1int,
{
    if pos < 0 || pos > end || end > t.len() {
        Err(ParseError::NothingParsed)
    } else {
        match spec_expr_loop(t, pos, end, Seq::empty(), Seq::empty()) {
            Err(e) => Err(e),
            Ok((p, ops, opnds)) => finish_expr(p, ops, opnds),
        }
    }
}

/// The result of an expression once its tokens are read.
pub open spec fn finish_expr(p: int, ops: Seq<Operator>, opnds: Seq<ExprModel>) -> Result<(ExprModel, int), ParseError> {
    let (ops2, opnds2) = if opnds.len() == 1 {
        (Seq::<Operator>::empty(), seq![wrap_unary(ops, opnds[0])])
    } else {
        (ops, opnds)
    };
    if ops2.len() > 0 {
        Err(ParseError::UnparsedOperators)
    } else if opnds2.len() > 1 {
        Err(ParseError::UnparsedOperands)
    } else if opnds2.len() == 0 {
        Err(ParseError::EmptyOperandStack)
    } else {
        Ok((spec_clean_parens(opnds2[0]), p))
    }
}

/// Reads the tokens of an expression from `pos` on, with the stacks `ops` and
/// `opnds`; gives the position of the first token that is not part of it.
pub open spec fn spec_expr_loop(
    t: Seq<TokenModel>,
    pos: int,
    end: int,
    ops: Seq<Operator>,
    opnds: Seq<ExprModel>,
) -> Result<(int, Seq<Operator>, Seq<ExprModel>), ParseError>
    decreases end - pos, 0int,
{
    if pos < 0 || pos >= end || end > t.len() {
        Ok((pos, ops, opnds))
    } else {
        match t[pos] {
            TokenModel::Operator(Operator::OpenParen) => match find_close(t, pos + 1, end, 1, 0) {
                None => Err(ParseError::MismatchedParens),
                Some(c) => if pos + 1 <= c < end {
                    match spec_parse_range(t, pos + 1, c) {
                        Err(e) => Err(e),
                        Ok(sub) => {
                            let (o2, e2) = absorb_operand(
                                ops,
                                opnds.push(ExprModel::Parenthesized(Box::new(sub))),
                            );
                            spec_expr_loop(t, c + 1, end, o2, e2)
                        },
                    }
                } else {
                    Err(ParseError::MismatchedParens)
                },
            },
            TokenModel::Identifier(name) => if pos + 1 < end && t[pos + 1]
                == TokenModel::Operator(Operator::OpenParen) {
                if pos + 2 < end && t[pos + 2] == TokenModel::Operator(Operator::CloseParen) {
                    let (o2, e2) = absorb_operand(
                        ops,
                        opnds.push(ExprModel::FunctionCall(name, Seq::empty())),
                    );
                    spec_expr_loop(t, pos + 3, end, o2, e2)
                } else {
                    match spec_parse_list(t, pos + 2, end, Seq::empty()) {
                        Err(e) => Err(e),
                        Ok((args, rem)) => if pos + 2 <= rem < end && t[rem]
                            == TokenModel::Operator(Operator::CloseParen) {
                            let (o2, e2) = absorb_operand(
                                ops,
                                opnds.push(ExprModel::FunctionCall(name, args)),
                            );
                            spec_expr_loop(t, rem + 1, end, o2, e2)
                        } else {
                            Err(ParseError::MissingCloseParen)
                        },
                    }
                }
            } else {
                let (o2, e2) = absorb_operand(ops, opnds.push(ExprModel::Variable(name)));
                spec_expr_loop(t, pos + 1, end, o2, e2)
            },
            TokenModel::LiteralInteger(i) => {
                let (o2, e2) = absorb_operand(ops, opnds.push(ExprModel::IntegerValue(i)));
                spec_expr_loop(t, pos + 1, end, o2, e2)
            },
            TokenModel::LiteralFloat(f) => {
                let (o2, e2) = absorb_operand(ops, opnds.push(ExprModel::FloatValue(f)));
                spec_expr_loop(t, pos + 1, end, o2, e2)
            },
            TokenModel::Operator(Operator::CloseParen) => Ok((pos, ops, opnds)),
            TokenModel::Operator(o) => spec_expr_loop(t, pos + 1, end, ops.push(o), opnds),
            TokenModel::Comma => Ok((pos, ops, opnds)),
        }
    }
}

/// The expression that a whole token sequence denotes.
pub open spec fn spec_parse(t: Seq<TokenModel>) -> Result<ExprModel, ParseError> {
    spec_parse_range(t, 0, t.len() as int)
}


fn is_operator_token(tok: &Token, o: Operator) -> (r: bool)
    ensures
        r == (tok@ == TokenModel::Operator(o)),
{
    match tok {
        Token::Operator(x) => *x == o,
        _ => false,
    }
}

fn is_comma_token(tok: &Token) -> (r: bool)
    ensures
        r == (tok@ == TokenModel::Comma),
{
    match tok {
        Token::Comma => true,
        _ => false,
    }
}

proof fn lemma_tokens_view_index(t: Seq<Token>, i: int)
    requires
        0 <= i < t.len(),
    ensures
        tokens_view(t)[i] == t[i]@,
        tokens_view(t).len() == t.len(),
{
}

/// The index of the parenthesis that closes the one just before `start`.
fn find_close_exec(t: &Vec<Token>, start: usize, end: usize) -> (r: Option<usize>)
    requires
        start <= end <= t.len(),
    ensures
        match find_close(tokens_view(t@), start as int, end as int, 1, 0) {
            Some(c) => r == Some(c as usize) && start <= c < end,
            None => r is None,
        },
{
    let ghost tv = tokens_view(t@);
    let mut i = start;
    let mut open: u128 = 1;
    let mut close: u128 = 0;
    proof {
        lemma_find_close_range(tv, start as int, end as int, 1, 0);
    }
    while i < end
        invariant
            start <= i <= end <= t.len(),
            tv == tokens_view(t@),
            close < open <= i - start + 1,
            i - start + 1 <= usize::MAX + 1,
            find_close(tv, start as int, end as int, 1, 0) == find_close(
                tv,
                i as int,
                end as int,
                open as int,
                close as int,
            ),
            forall|c: int| #[trigger]
                find_close(tv, i as int, end as int, open as int, close as int) == Some(c)
                    ==> i <= c < end,
        decreases end - i,
    {
        proof {
            lemma_tokens_view_index(t@, i as int);
            lemma_find_close_range(tv, i as int + 1, end as int, 0, 0);
        }
        let tok = &t[i];
        if is_operator_token(tok, Operator::OpenParen) {
            open = open + 1;
        }
        if is_operator_token(tok, Operator::CloseParen) {
            if open == close + 1 {
                return Some(i);
            }
            close = close + 1;
        }
        i = i + 1;
        proof {
            lemma_find_close_range(tv, i as int, end as int, open as int, close as int);
        }
    }
    None
}

proof fn lemma_find_close_range(t: Seq<TokenModel>, i: int, end: int, open: int, close: int)
    ensures
        forall|c: int| #[trigger] find_close(t, i, end, open, close) == Some(c) ==> i <= c < end,
    decreases end - i,
{
    if i < 0 || i >= end || end > t.len() {
    } else {
        let open2 = if t[i] == TokenModel::Operator(Operator::OpenParen) {
            open + 1
        } else {
            open
        };
        lemma_find_close_range(t, i + 1, end, open2, close + 1);
        lemma_find_close_range(t, i + 1, end, open2, close);
    }
}

fn rotate_exec(lhs: Expr, op: Operator, rhs: Expr) -> (r: Expr)
    ensures
        r@ == rotate(lhs@, op, rhs@),
{
    let ghost lm = lhs@;
    let ghost rm = rhs@;
    let rotate_rhs = match &rhs {
        Expr::BinaryOperation(_, od, _) => precedence(op) > precedence(*od),
        _ => false,
    };
    let rotate_lhs = match &lhs {
        Expr::BinaryOperation(_, od, _) => precedence(op) > precedence(*od),
        _ => false,
    };
    if rotate_rhs {
        match rhs {
            Expr::BinaryOperation(ld, od, rd) => {
                let inner = Expr::BinaryOperation(rd, op, Box::new(lhs));
                assert(inner@ == ExprModel::BinaryOperation(Box::new((*rd)@), op, Box::new(lm)));
                let r = Expr::BinaryOperation(ld, od, Box::new(inner));
                r
            },
            _ => Expr::BinaryOperation(Box::new(lhs), op, Box::new(rhs)),
        }
    } else if rotate_lhs {
        match lhs {
            Expr::BinaryOperation(ld, od, rd) => {
                let inner = Expr::BinaryOperation(rd, op, Box::new(rhs));
                assert(inner@ == ExprModel::BinaryOperation(Box::new((*rd)@), op, Box::new(rm)));
                let r = Expr::BinaryOperation(ld, od, Box::new(inner));
                r
            },
            _ => Expr::BinaryOperation(Box::new(lhs), op, Box::new(rhs)),
        }
    } else {
        let r = Expr::BinaryOperation(Box::new(lhs), op, Box::new(rhs));
        assert(r@ == rotate(lm, op, rm));
        r
    }
}

proof fn lemma_exprs_view_push(s: Seq<Expr>, e: Expr)
    ensures
        exprs_view(s.push(e)) == exprs_view(s).push(e@),
{
    assert(exprs_view(s.push(e)) =~= exprs_view(s).push(e@));
}

/// Applies `absorb_operand` to the stacks, in place.
fn absorb_operand_exec(ops: &mut Vec<Operator>, opnds: &mut Vec<Expr>)
    ensures
        (final(ops)@, exprs_view(final(opnds)@)) == absorb_operand(old(ops)@, exprs_view(old(opnds)@)),
{
    let ghost o0 = ops@;
    let ghost e0 = exprs_view(opnds@);
    let ghost n = o0.len();
    let ghost stage1: (Seq<Operator>, Seq<ExprModel>) = if e0.len() == 1 && o0.len() == 1 {
        (Seq::<Operator>::empty(), seq![ExprModel::UnaryExpression(o0[0], Box::new(e0[0]))])
    } else if o0.len() > 1 && e0.len() == 2 {
        (seq![o0[0]], seq![e0[0], wrap_unary(o0.subrange(1, o0.len() as int), e0[1])])
    } else {
        (o0, e0)
    };
    if opnds.len() == 1 && ops.len() == 1 {
        let e = opnds.pop().unwrap();
        let op = ops.pop().unwrap();
        opnds.push(Expr::UnaryExpression(op, Box::new(e)));
        proof {
            assert(ops@ =~= Seq::<Operator>::empty());
            assert(exprs_view(opnds@) =~= seq![ExprModel::UnaryExpression(o0[0], Box::new(e0[0]))]);
        }
    } else if ops.len() > 1 && opnds.len() == 2 {
        while ops.len() > 1
            invariant
                1 <= ops@.len() <= n,
                n == o0.len(),
                o0.len() > 1,
                ops@ == o0.subrange(0, ops@.len() as int),
                opnds@.len() == 2,
                exprs_view(opnds@)[0] == e0[0],
                wrap_unary(o0.subrange(1, n as int), e0[1]) == wrap_unary(
                    ops@.subrange(1, ops@.len() as int),
                    exprs_view(opnds@)[1],
                ),
            decreases ops@.len(),
        {
            let ghost k = ops@.len();
            let ghost before = exprs_view(opnds@);
            let e = opnds.pop().unwrap();
            let op = ops.pop().unwrap();
            opnds.push(Expr::UnaryExpression(op, Box::new(e)));
            proof {
                assert(ops@ =~= o0.subrange(0, k - 1));
                assert(o0.subrange(0, k as int).subrange(1, k as int).drop_last() =~= o0.subrange(
                    0,
                    k - 1,
                ).subrange(1, k - 1));
                assert(exprs_view(opnds@)[0] == before[0]);
                assert(exprs_view(opnds@)[1] == ExprModel::UnaryExpression(op, Box::new(before[1])));
            }
        }
        proof {
            assert(ops@ =~= seq![o0[0]]);
            assert(ops@.subrange(1, 1) =~= Seq::<Operator>::empty());
            assert(exprs_view(opnds@) =~= seq![
                e0[0],
                wrap_unary(o0.subrange(1, o0.len() as int), e0[1]),
            ]);
        }
    }
    assert((ops@, exprs_view(opnds@)) == stage1);
    if opnds.len() >= 2 && ops.len() > 0 {
        let ghost m = opnds@.len();
        let ghost ev = exprs_view(opnds@);
        let rhs = opnds.pop().unwrap();
        let lhs = opnds.pop().unwrap();
        let op = ops.pop().unwrap();
        proof {
            assert(rhs@ == ev[m - 1]);
            assert(lhs@ == ev[m - 2]);
        }
        let combined = rotate_exec(lhs, op, rhs);
        opnds.push(combined);
        proof {
            assert(exprs_view(opnds@) =~= ev.subrange(0, m - 2).push(rotate(ev[m - 2], op, ev[m - 1])));
            assert(ops@ =~= stage1.0.drop_last());
        }
    }
}

/// Wraps the single operand in the remaining operators, then checks the stacks.
fn finish_expr_exec(p: usize, ops: Vec<Operator>, opnds: Vec<Expr>) -> (r: Result<(Expr, usize), ParseError>)
    ensures
        match finish_expr(p as int, ops@, exprs_view(opnds@)) {
            Ok((e, q)) => r matches Ok((x, y)) && x@ == e && y == q,
            Err(err) => r == Err::<(Expr, usize), ParseError>(err),
        },
{
    let ghost o0 = ops@;
    let ghost e0 = exprs_view(opnds@);
    let mut ops = ops;
    let mut opnds = opnds;
    if opnds.len() == 1 {
        let mut e = opnds.pop().unwrap();
        assert(e@ == e0[0]);
        while ops.len() > 0
            invariant
                ops@ == o0.subrange(0, ops@.len() as int),
                ops@.len() <= o0.len(),
                wrap_unary(o0, e0[0]) == wrap_unary(ops@, e@),
            decreases ops@.len(),
        {
            let ghost k = ops@.len();
            let op = ops.pop().unwrap();
            e = Expr::UnaryExpression(op, Box::new(e));
            proof {
                assert(ops@ =~= o0.subrange(0, k - 1));
                assert(o0.subrange(0, k as int).drop_last() =~= o0.subrange(0, k - 1));
            }
        }
        assert(ops@ =~= Seq::<Operator>::empty());
        opnds.push(e);
        assert(exprs_view(opnds@) =~= seq![wrap_unary(o0, e0[0])]);
    }
    if ops.len() > 0 {
        Err(ParseError::UnparsedOperators)
    } else if opnds.len() > 1 {
        Err(ParseError::UnparsedOperands)
    } else if opnds.len() == 0 {
        Err(ParseError::EmptyOperandStack)
    } else {
        let e = opnds.pop().unwrap();
        Ok((clean_parens(e), p))
    }
}

/// Exec form of `spec_parse_range`.
fn parse_range_exec(t: &Vec<Token>, pos: usize, end: usize) -> (r: Result<Expr, ParseError>)
    requires
        pos <= end <= t.len(),
    ensures
        match spec_parse_range(tokens_view(t@), pos as int, end as int) {
            Ok(e) => r matches Ok(x) && x@ == e,
            Err(err) => r == Err::<Expr, ParseError>(err),
        },
    decreases end - pos, 3int,
{
    assert(exprs_view(Seq::<Expr>::empty()) =~= Seq::<ExprModel>::empty());
    match parse_list_exec(t, pos, end, Vec::new()) {
        Err(e) => Err(e),
        Ok((exprs, rem)) => {
            if rem != end {
                Err(ParseError::RemainingTokens)
            } else if exprs.len() == 0 {
                Err(ParseError::NothingParsed)
            } else {
                let mut exprs = exprs;
                let ghost ev = exprs_view(exprs@);
                let first = exprs.swap_remove(0);
                assert(first@ == ev[0]);
                Ok(first)
            }
        },
    }
}

/// Exec form of `spec_parse_list`.
fn parse_list_exec(t: &Vec<Token>, pos: usize, end: usize, acc: Vec<Expr>) -> (r: Result<
    (Vec<Expr>, usize),
    ParseError,
>)
    requires
        pos <= end <= t.len(),
    ensures
        match spec_parse_list(tokens_view(t@), pos as int, end as int, exprs_view(acc@)) {
            Ok((es, p)) => r matches Ok((v, q)) && exprs_view(v@) == es && q == p,
            Err(err) => r matches Err(e) && e == err,
        },
    decreases end - pos, 2int,
{
    let ghost tv = tokens_view(t@);
    match parse_expr_exec(t, pos, end) {
        Err(e) => Err(e),
        Ok((e, p)) => {
            let mut acc = acc;
            let ghost em = e@;
            if p == pos {
                Ok((acc, end))
            } else if p < pos || p > end {
                Err(ParseError::NothingParsed)
            } else if p == end {
                acc.push(e);
                proof {
                    assert(exprs_view(acc@) =~= exprs_view(old_acc_view(acc@)).push(em));
                }
                Ok((acc, end))
            } else {
                proof {
                    lemma_tokens_view_index(t@, p as int);
                }
                let ghost before = exprs_view(acc@);
                acc.push(e);
                proof {
                    assert(exprs_view(acc@) =~= before.push(em));
                }
                if is_comma_token(&t[p]) {
                    parse_list_exec(t, p + 1, end, acc)
                } else {
                    Ok((acc, p))
                }
            }
        },
    }
}

spec fn old_acc_view(s: Seq<Expr>) -> Seq<Expr> {
    s.drop_last()
}

/// Exec form of `spec_parse_expr`.
fn parse_expr_exec(t: &Vec<Token>, pos: usize, end: usize) -> (r: Result<(Expr, usize), ParseError>)
    requires
        pos <= end <= t.len(),
    ensures
        match spec_parse_expr(tokens_view(t@), pos as int, end as int) {
            Ok((e, p)) => r matches Ok((x, q)) && x@ == e && q == p,
            Err(err) => r == Err::<(Expr, usize), ParseError>(err),
        },
    decreases end - pos, 1int,
{
    match expr_loop_exec(t, pos, end) {
        Err(e) => Err(e),
        Ok((p, ops, opnds)) => finish_expr_exec(p, ops, opnds),
    }
}

/// Exec form of `spec_expr_loop`, from empty stacks.
fn expr_loop_exec(t: &Vec<Token>, pos: usize, end: usize) -> (r: Result<
    (usize, Vec<Operator>, Vec<Expr>),
    ParseError,
>)
    requires
        pos <= end <= t.len(),
    ensures
        match spec_expr_loop(tokens_view(t@), pos as int, end as int, Seq::empty(), Seq::empty()) {
            Ok((p, os, es)) => r matches Ok((q, vo, ve)) && q == p && vo@ == os && exprs_view(ve@)
                == es,
            Err(err) => r matches Err(e) && e == err,
        },
    decreases end - pos, 0int,
{
    let ghost tv = tokens_view(t@);
    let mut ops: Vec<Operator> = Vec::new();
    let mut opnds: Vec<Expr> = Vec::new();
    let mut p = pos;
    assert(exprs_view(opnds@) =~= Seq::<ExprModel>::empty());
    loop
        invariant
            pos <= p <= end <= t.len(),
            tv == tokens_view(t@),
            spec_expr_loop(tv, pos as int, end as int, Seq::empty(), Seq::empty()) == spec_expr_loop(
                tv,
                p as int,
                end as int,
                ops@,
                exprs_view(opnds@),
            ),
        decreases end - p,
    {
        if p >= end {
            return Ok((p, ops, opnds));
        }
        proof {
            lemma_tokens_view_index(t@, p as int);
        }
        let ghost ev = exprs_view(opnds@);
        match &t[p] {
            Token::Operator(Operator::OpenParen) => {
                match find_close_exec(t, p + 1, end) {
                    None => {
                        return Err(ParseError::MismatchedParens);
                    },
                    Some(c) => {
                        match parse_range_exec(t, p + 1, c) {
                            Err(e) => {
                                return Err(e);
                            },
                            Ok(sub) => {
                                let ghost sm = sub@;
                                opnds.push(Expr::Parenthesized(Box::new(sub)));
                                proof {
                                    lemma_exprs_view_push(old_vec(opnds@), opnds@.last());
                                    assert(exprs_view(opnds@) =~= ev.push(
                                        ExprModel::Parenthesized(Box::new(sm)),
                                    ));
                                }
                                absorb_operand_exec(&mut ops, &mut opnds);
                                p = c + 1;
                            },
                        }
                    },
                }
            },
            Token::Identifier(name) => {
                let next_is_open = p + 1 < end && is_operator_token(&t[p + 1], Operator::OpenParen);
                if next_is_open {
                    proof {
                        lemma_tokens_view_index(t@, p + 1);
                    }
                    let next_is_close = p + 2 < end && is_operator_token(
                        &t[p + 2],
                        Operator::CloseParen,
                    );
                    if next_is_close {
                        proof {
                            lemma_tokens_view_index(t@, p + 2);
                        }
                        let call = Expr::FunctionCall(name.clone(), Vec::new());
                        proof {
                            lemma_call_view(call);
                            assert(exprs_view(Seq::<Expr>::empty()) =~= Seq::<ExprModel>::empty());
                        }
                        let ghost cm = call@;
                        opnds.push(call);
                        proof {
                            assert(exprs_view(opnds@) =~= ev.push(cm));
                        }
                        absorb_operand_exec(&mut ops, &mut opnds);
                        p = p + 3;
                    } else {
                        match parse_list_exec(t, p + 2, end, Vec::new()) {
                            Err(e) => {
                                proof {
                                    assert(exprs_view(Seq::<Expr>::empty()) =~= Seq::<ExprModel>::empty());
                                }
                                return Err(e);
                            },
                            Ok((args, rem)) => {
                                proof {
                                    assert(exprs_view(Seq::<Expr>::empty()) =~= Seq::<ExprModel>::empty());
                                }
                                if p + 2 <= rem && rem < end && is_operator_token(
                                    &t[rem],
                                    Operator::CloseParen,
                                ) {
                                    proof {
                                        lemma_tokens_view_index(t@, rem as int);
                                    }
                                    let ghost am = exprs_view(args@);
                                    let call = Expr::FunctionCall(name.clone(), args);
                                    proof {
                                        lemma_call_view(call);
                                    }
                                    let ghost cm = call@;
                                    opnds.push(call);
                                    proof {
                                        assert(exprs_view(opnds@) =~= ev.push(cm));
                                    }
                                    absorb_operand_exec(&mut ops, &mut opnds);
                                    p = rem + 1;
                                } else {
                                    proof {
                                        if p + 2 <= rem && rem < end {
                                            lemma_tokens_view_index(t@, rem as int);
                                        }
                                    }
                                    return Err(ParseError::MissingCloseParen);
                                }
                            },
                        }
                    }
                } else {
                    let v = Expr::Variable(name.clone());
                    let ghost vm = v@;
                    opnds.push(v);
                    proof {
                        assert(exprs_view(opnds@) =~= ev.push(vm));
                    }
                    absorb_operand_exec(&mut ops, &mut opnds);
                    p = p + 1;
                }
            },
            Token::LiteralInteger(i) => {
                let v = Expr::IntegerValue(*i);
                let ghost vm = v@;
                opnds.push(v);
                proof {
                    assert(exprs_view(opnds@) =~= ev.push(vm));
                }
                absorb_operand_exec(&mut ops, &mut opnds);
                p = p + 1;
            },
            Token::LiteralFloat(f) => {
                let v = Expr::FloatValue(Float(f.0.clone()));
                let ghost vm = v@;
                opnds.push(v);
                proof {
                    assert(exprs_view(opnds@) =~= ev.push(vm));
                }
                absorb_operand_exec(&mut ops, &mut opnds);
                p = p + 1;
            },
            Token::Operator(Operator::CloseParen) => {
                return Ok((p, ops, opnds));
            },
            Token::Operator(o) => {
                ops.push(*o);
                p = p + 1;
            },
            Token::Comma => {
                return Ok((p, ops, opnds));
            },
        }
    }
}

proof fn lemma_call_view(e: Expr)
    ensures
        e matches Expr::FunctionCall(name, args) ==> e@ == ExprModel::FunctionCall(
            name@,
            exprs_view(args@),
        ),
{
    match e {
        Expr::FunctionCall(name, args) => {
            assert(e@->FunctionCall_1 =~= exprs_view(args@));
        },
        _ => {},
    }
}

spec fn old_vec(s: Seq<Expr>) -> Seq<Expr> {
    s.drop_last()
}

/// The expression of a whole token sequence, or why there is none.
pub fn try_parse(tokens: &Vec<Token>) -> (r: Result<Expr, ParseError>)
    ensures
        match spec_parse(tokens_view(tokens@)) {
            Ok(e) => r matches Ok(x) && x@ == e,
            Err(err) => r == Err::<Expr, ParseError>(err),
        },
{
    parse_range_exec(tokens, 0, tokens.len())
}

/// The expression of a whole token sequence, for sequences that denote one.
pub fn parse(tokens: Vec<Token>) -> (r: Expr)
    requires
        spec_parse(tokens_view(tokens@)) is Ok,
    ensures
        spec_parse(tokens_view(tokens@)) == Ok::<ExprModel, ParseError>(r@),
{
    match try_parse(&tokens) {
        Ok(e) => e,
        Err(_) => {
            proof {
                assert(false);
            }
            Expr::IntegerValue(0)
        },
    }
}

/// The expression holds no parenthesis node, at any depth.
pub open spec fn paren_free(e: ExprModel) -> bool
    decreases e,
{
    match e {
        ExprModel::Parenthesized(_) => false,
        ExprModel::UnaryExpression(_, inner) => paren_free(*inner),
        ExprModel::BinaryOperation(l, _, r) => paren_free(*l) && paren_free(*r),
        ExprModel::FunctionCall(_, args) => args_paren_free(args),
        _ => true,
    }
}

/// No argument holds a parenthesis node.
pub open spec fn args_paren_free(args: Seq<ExprModel>) -> bool
    decreases args,
{
    if args.len() == 0 {
        true
    } else {
        paren_free(args[0]) && args_paren_free(args.drop_first())
    }
}

/// Every parenthesis node of `e` stands outside any call, and the arguments of
/// its calls hold none.
pub open spec fn calls_clean(e: ExprModel) -> bool
    decreases e,
{
    match e {
        ExprModel::Parenthesized(inner) => calls_clean(*inner),
        ExprModel::UnaryExpression(_, inner) => calls_clean(*inner),
        ExprModel::BinaryOperation(l, _, r) => calls_clean(*l) && calls_clean(*r),
        ExprModel::FunctionCall(_, args) => args_paren_free(args),
        _ => true,
    }
}

pub open spec fn all_calls_clean(s: Seq<ExprModel>) -> bool {
    forall|i: int| 0 <= i < s.len() ==> #[trigger] calls_clean(s[i])
}

pub open spec fn all_paren_free(s: Seq<ExprModel>) -> bool {
    forall|i: int| 0 <= i < s.len() ==> #[trigger] paren_free(s[i])
}

proof fn lemma_all_paren_free_args(s: Seq<ExprModel>)
    requires
        all_paren_free(s),
    ensures
        args_paren_free(s),
    decreases s.len(),
{
    if s.len() > 0 {
        assert(paren_free(s[0]));
        assert forall|i: int| 0 <= i < s.drop_first().len() implies #[trigger] paren_free(s.drop_first()[i]) by {
            assert(s.drop_first()[i] == s[i + 1]);
        }
        lemma_all_paren_free_args(s.drop_first());
    }
}

proof fn lemma_clean_parens_free(e: ExprModel)
    requires
        calls_clean(e),
    ensures
        paren_free(spec_clean_parens(e)),
    decreases e,
{
    match e {
        ExprModel::Parenthesized(inner) => lemma_clean_parens_free(*inner),
        ExprModel::UnaryExpression(_, inner) => lemma_clean_parens_free(*inner),
        ExprModel::BinaryOperation(l, _, r) => {
            lemma_clean_parens_free(*l);
            lemma_clean_parens_free(*r);
        },
        _ => {},
    }
}

proof fn lemma_wrap_unary_clean(ops: Seq<Operator>, e: ExprModel)
    requires
        calls_clean(e),
    ensures
        calls_clean(wrap_unary(ops, e)),
    decreases ops.len(),
{
    if ops.len() > 0 {
        lemma_wrap_unary_clean(ops.drop_last(), ExprModel::UnaryExpression(ops.last(), Box::new(e)));
    }
}

proof fn lemma_absorb_clean(ops: Seq<Operator>, opnds: Seq<ExprModel>)
    requires
        all_calls_clean(opnds),
    ensures
        all_calls_clean(absorb_operand(ops, opnds).1),
{
    let (ops1, opnds1) = if opnds.len() == 1 && ops.len() == 1 {
        (Seq::<Operator>::empty(), seq![ExprModel::UnaryExpression(ops[0], Box::new(opnds[0]))])
    } else if ops.len() > 1 && opnds.len() == 2 {
        (seq![ops[0]], seq![opnds[0], wrap_unary(ops.subrange(1, ops.len() as int), opnds[1])])
    } else {
        (ops, opnds)
    };
    if opnds.len() == 1 && ops.len() == 1 {
        assert(calls_clean(opnds[0]));
        assert(calls_clean(opnds1[0]));
    } else if ops.len() > 1 && opnds.len() == 2 {
        assert(calls_clean(opnds[0]));
        assert(calls_clean(opnds[1]));
        lemma_wrap_unary_clean(ops.subrange(1, ops.len() as int), opnds[1]);
    }
    assert(all_calls_clean(opnds1));
    if opnds1.len() >= 2 && ops1.len() > 0 {
        let n = opnds1.len();
        assert(calls_clean(opnds1[n - 2]));
        assert(calls_clean(opnds1[n - 1]));
        let r = rotate(opnds1[n - 2], ops1.last(), opnds1[n - 1]);
        lemma_rotate_clean(opnds1[n - 2], ops1.last(), opnds1[n - 1]);
        let out = opnds1.subrange(0, n - 2).push(r);
        assert forall|i: int| 0 <= i < out.len() implies #[trigger] calls_clean(out[i]) by {
            if i < n - 2 {
                assert(out[i] == opnds1[i]);
            }
        }
    }
}

proof fn lemma_rotate_clean(lhs: ExprModel, op: Operator, rhs: ExprModel)
    requires
        calls_clean(lhs),
        calls_clean(rhs),
    ensures
        calls_clean(rotate(lhs, op, rhs)),
{
    let plain = ExprModel::BinaryOperation(Box::new(lhs), op, Box::new(rhs));
    assert(calls_clean(plain));
    let after_lhs = match lhs {
        ExprModel::BinaryOperation(ld, od, rd) => if spec_precedence(op) > spec_precedence(od) {
            ExprModel::BinaryOperation(ld, od, Box::new(ExprModel::BinaryOperation(rd, op, Box::new(rhs))))
        } else {
            plain
        },
        _ => plain,
    };
    if let ExprModel::BinaryOperation(ld, od, rd) = lhs {
        assert(calls_clean(*ld) && calls_clean(*rd));
        assert(calls_clean(ExprModel::BinaryOperation(rd, op, Box::new(rhs))));
    }
    assert(calls_clean(after_lhs));
    if let ExprModel::BinaryOperation(ld, od, rd) = rhs {
        assert(calls_clean(*ld) && calls_clean(*rd));
        assert(calls_clean(ExprModel::BinaryOperation(rd, op, Box::new(lhs))));
    }
}

proof fn lemma_loop_clean(t: Seq<TokenModel>, pos: int, end: int, ops: Seq<Operator>, opnds: Seq<ExprModel>)
    requires
        all_calls_clean(opnds),
    ensures
        spec_expr_loop(t, pos, end, ops, opnds) matches Ok((_, _, o)) ==> all_calls_clean(o),
    decreases end - pos, 0int,
{
    if !(pos < 0 || pos >= end || end > t.len()) {
        match t[pos] {
            TokenModel::Operator(Operator::OpenParen) => match find_close(t, pos + 1, end, 1, 0) {
                None => {},
                Some(c) => if pos + 1 <= c < end {
                    lemma_range_clean(t, pos + 1, c);
                    if let Ok(sub) = spec_parse_range(t, pos + 1, c) {
                        let pushed = opnds.push(ExprModel::Parenthesized(Box::new(sub)));
                        assert(calls_clean(ExprModel::Parenthesized(Box::new(sub)))) by {
                            lemma_free_is_clean(sub);
                        }
                        assert(all_calls_clean(pushed)) by {
                            assert forall|i: int| 0 <= i < pushed.len() implies #[trigger] calls_clean(pushed[i]) by {
                                if i < opnds.len() {
                                    assert(pushed[i] == opnds[i]);
                                }
                            }
                        }
                        lemma_absorb_clean(ops, pushed);
                        let (o2, e2) = absorb_operand(ops, pushed);
                        lemma_loop_clean(t, c + 1, end, o2, e2);
                    }
                },
            },
            TokenModel::Identifier(name) => if pos + 1 < end && t[pos + 1] == TokenModel::Operator(Operator::OpenParen) {
                if pos + 2 < end && t[pos + 2] == TokenModel::Operator(Operator::CloseParen) {
                    let pushed = opnds.push(ExprModel::FunctionCall(name, Seq::empty()));
                    lemma_push_clean(opnds, ExprModel::FunctionCall(name, Seq::empty()));
                    lemma_absorb_clean(ops, pushed);
                    let (o2, e2) = absorb_operand(ops, pushed);
                    lemma_loop_clean(t, pos + 3, end, o2, e2);
                } else {
                    lemma_list_clean(t, pos + 2, end, Seq::empty());
                    if let Ok((args, rem)) = spec_parse_list(t, pos + 2, end, Seq::empty()) {
                        if pos + 2 <= rem < end && t[rem] == TokenModel::Operator(Operator::CloseParen) {
                            lemma_all_paren_free_args(args);
                            lemma_push_clean(opnds, ExprModel::FunctionCall(name, args));
                            let pushed = opnds.push(ExprModel::FunctionCall(name, args));
                            lemma_absorb_clean(ops, pushed);
                            let (o2, e2) = absorb_operand(ops, pushed);
                            lemma_loop_clean(t, rem + 1, end, o2, e2);
                        }
                    }
                }
            } else {
                lemma_push_clean(opnds, ExprModel::Variable(name));
                lemma_absorb_clean(ops, opnds.push(ExprModel::Variable(name)));
                let (o2, e2) = absorb_operand(ops, opnds.push(ExprModel::Variable(name)));
                lemma_loop_clean(t, pos + 1, end, o2, e2);
            },
            TokenModel::LiteralInteger(i) => {
                lemma_push_clean(opnds, ExprModel::IntegerValue(i));
                lemma_absorb_clean(ops, opnds.push(ExprModel::IntegerValue(i)));
                let (o2, e2) = absorb_operand(ops, opnds.push(ExprModel::IntegerValue(i)));
                lemma_loop_clean(t, pos + 1, end, o2, e2);
            },
            TokenModel::LiteralFloat(f) => {
                lemma_push_clean(opnds, ExprModel::FloatValue(f));
                lemma_absorb_clean(ops, opnds.push(ExprModel::FloatValue(f)));
                let (o2, e2) = absorb_operand(ops, opnds.push(ExprModel::FloatValue(f)));
                lemma_loop_clean(t, pos + 1, end, o2, e2);
            },
            TokenModel::Operator(Operator::CloseParen) => {},
            TokenModel::Operator(o) => {
                lemma_loop_clean(t, pos + 1, end, ops.push(o), opnds);
            },
            TokenModel::Comma => {},
        }
    }
}

proof fn lemma_free_is_clean(e: ExprModel)
    requires
        paren_free(e),
    ensures
        calls_clean(e),
    decreases e,
{
    match e {
        ExprModel::UnaryExpression(_, inner) => lemma_free_is_clean(*inner),
        ExprModel::BinaryOperation(l, _, r) => {
            lemma_free_is_clean(*l);
            lemma_free_is_clean(*r);
        },
        _ => {},
    }
}

proof fn lemma_push_clean(s: Seq<ExprModel>, e: ExprModel)
    requires
        all_calls_clean(s),
        calls_clean(e),
    ensures
        all_calls_clean(s.push(e)),
{
    assert forall|i: int| 0 <= i < s.push(e).len() implies #[trigger] calls_clean(s.push(e)[i]) by {
        if i < s.len() {
            assert(s.push(e)[i] == s[i]);
        }
    }
}

proof fn lemma_expr_clean(t: Seq<TokenModel>, pos: int, end: int)
    ensures
        spec_parse_expr(t, pos, end) matches Ok((e, _)) ==> paren_free(e),
    decreases end - pos, 1int,
{
    if !(pos < 0 || pos > end || end > t.len()) {
        lemma_loop_clean(t, pos, end, Seq::empty(), Seq::empty());
        if let Ok((p, ops, opnds)) = spec_expr_loop(t, pos, end, Seq::empty(), Seq::empty()) {
            if opnds.len() == 1 {
                assert(calls_clean(opnds[0]));
                lemma_wrap_unary_clean(ops, opnds[0]);
                lemma_clean_parens_free(wrap_unary(ops, opnds[0]));
            } else if opnds.len() > 0 {
                assert(calls_clean(opnds[0]));
                lemma_clean_parens_free(opnds[0]);
            }
        }
    }
}

proof fn lemma_list_clean(t: Seq<TokenModel>, pos: int, end: int, acc: Seq<ExprModel>)
    requires
        all_paren_free(acc),
    ensures
        spec_parse_list(t, pos, end, acc) matches Ok((exprs, _)) ==> all_paren_free(exprs),
    decreases end - pos, 2int,
{
    if !(pos < 0 || pos > end || end > t.len()) {
        lemma_expr_clean(t, pos, end);
        if let Ok((e, p)) = spec_parse_expr(t, pos, end) {
            let pushed = acc.push(e);
            assert forall|i: int| 0 <= i < pushed.len() implies #[trigger] paren_free(pushed[i]) by {
                if i < acc.len() {
                    assert(pushed[i] == acc[i]);
                }
            }
            if p > pos && p < end && t[p] == TokenModel::Comma {
                lemma_list_clean(t, p + 1, end, pushed);
            }
        }
    }
}

proof fn lemma_range_clean(t: Seq<TokenModel>, pos: int, end: int)
    ensures
        spec_parse_range(t, pos, end) matches Ok(e) ==> paren_free(e),
    decreases end - pos, 3int,
{
    if !(pos < 0 || pos > end || end > t.len()) {
        lemma_list_clean(t, pos, end, Seq::empty());
    }
}

/// The expression that a token sequence denotes holds no parenthesis node:
/// parentheses only group.
pub proof fn law_parse_paren_free(t: Seq<TokenModel>)
    ensures
        spec_parse(t) matches Ok(e) ==> paren_free(e),
{
    lemma_range_clean(t, 0, t.len() as int);
}


/// Multiplication and division bind tighter than every other operator, and
/// bind equally tightly; addition, subtraction and the comparisons bind
/// equally loosely.
pub proof fn law_precedence_order(o: Operator)
    ensures
        spec_precedence(Operator::Multiply) == spec_precedence(Operator::Divide),
        (o == Operator::Multiply || o == Operator::Divide) <==> spec_precedence(o) > spec_precedence(Operator::Plus),
        spec_precedence(o) >= spec_precedence(Operator::Plus),
        spec_precedence(Operator::Plus) == spec_precedence(Operator::Minus),
        spec_precedence(Operator::Plus) == spec_precedence(Operator::Equals),
        spec_precedence(Operator::Plus) == spec_precedence(Operator::NotEquals),
{
}

} // verus!
