//! The bytecode compiler: expressions and statements become a flat list of
//! stack-machine instructions, with a pool of the constants they load.

use vstd::prelude::*;
use vstd::string::*;
use crate::lexer::{Float, Operator};
use crate::parser::{Expr, ExprModel, args_paren_free, exprs_view, paren_free, spec_parse, law_parse_paren_free};

verus! {

/// A constant value of a program.
#[derive(Debug, Clone, PartialEq, Eq)]
pub enum Const {
    Integer(i128),
    Float(Float),
    Boolean(bool),
    String(String),
}

/// The mathematical value of a constant.
pub enum ConstModel {
    Integer(int),
    Float(Seq<char>),
    Boolean(bool),
    String(Seq<char>),
}

impl View for Const {
    type V = ConstModel;

    open spec fn view(&self) -> ConstModel {
        match self {
            Const::Integer(i) => ConstModel::Integer(*i as int),
            Const::Float(f) => ConstModel::Float(f.0@),
            Const::Boolean(b) => ConstModel::Boolean(*b),
            Const::String(s) => ConstModel::String(s@),
        }
    }
}

pub open spec fn consts_view(s: Seq<Const>) -> Seq<ConstModel> {
    s.map_values(|c: Const| c@)
}

/// A copy of a constant.
pub fn copy_const(c: &Const) -> (r: Const)
    ensures
        r@ == c@,
{
    match c {
        Const::Integer(i) => Const::Integer(*i),
        Const::Float(f) => Const::Float(Float(f.0.clone())),
        Const::Boolean(b) => Const::Boolean(*b),
        Const::String(t) => Const::String(t.clone()),
    }
}

/// A copy of a constant pool.
pub fn copy_consts(v: &Vec<Const>) -> (r: Vec<Const>)
    ensures
        consts_view(r@) == consts_view(v@),
{
    let mut r: Vec<Const> = Vec::new();
    let mut i: usize = 0;
    while i < v.len()
        invariant
            i <= v.len(),
            r@.len() == i,
            forall|j: int| 0 <= j < i ==> #[trigger] r@[j]@ == v@[j]@,
        decreases v.len() - i,
    {
        r.push(copy_const(&v[i]));
        i = i + 1;
    }
    assert(consts_view(r@) =~= consts_view(v@));
    r
}

/// An instruction of the stack machine.
#[derive(Debug, Clone, PartialEq, Eq)]
pub enum Instruction {
    /// Pushes the constant with this index in the program's pool.
    LoadConst(usize),
    /// Replaces the object on top of the stack by itself and its method of this name.
    LoadMethod(String),
    /// Pushes the builtin function (or constructor) of this name.
    LoadFunction(String),
    /// Pops the top of the stack into the local of this name.
    StoreName(String),
    /// Pushes the local of this name.
    LoadName(String),
    /// Calls a method with this many arguments on the stack.
    CallMethod { number_arguments: usize },
    /// Calls a function with this many arguments on the stack.
    CallFunction { number_arguments: usize },
    /// Pops the top of the stack and jumps to this index when it is false.
    JumpIfFalseAndPopStack(usize),
    /// Jumps to this index.
    JumpUnconditional(usize),
    /// A `break` whose target is not known yet.
    UnresolvedBreak,
    /// Pops two operands and pushes their sum (numbers directly, else by `__add__`).
    BinaryAdd,
    /// Pops two operands and pushes the remainder (numbers directly, else by `__mod__`).
    BinaryModulus,
    /// Pops two operands and pushes the difference (numbers directly, else by `__sub__`).
    BinarySubtract,
    /// Pops two operands and pushes the product (numbers directly, else by `__mul__`).
    BinaryMultiply,
    /// Pops two operands and pushes the quotient as a float (numbers directly, else by `__truediv__`).
    BinaryTrueDivision,
    /// Pops two operands and pushes whether the first is at most the second.
    CompareLessEquals,
    /// Pops two operands and pushes whether the first is at least the second.
    CompareGreaterEquals,
    /// Pops two operands and pushes whether the first is greater than the second.
    CompareGreaterThan,
    /// Pops two operands and pushes whether the first is less than the second.
    CompareLessThan,
    /// Pops two operands and pushes whether they are equal.
    CompareEquals,
    /// Pops two operands and pushes whether they differ.
    CompareNotEquals,
    /// Pops this many values and pushes a new list of them, in the order they were pushed.
    BuildList { number_elements: usize },
    /// Pops an index and a list and pushes the list's element at that index.
    IndexAccess,
    /// Pops an exception object and raises it, which ends the program.
    Raise,
    /// Ends the running function; the top of the stack is its result.
    ReturnValue,
}

/// The mathematical value of an instruction.
pub enum InstructionModel {
    LoadConst(int),
    LoadMethod(Seq<char>),
    LoadFunction(Seq<char>),
    StoreName(Seq<char>),
    LoadName(Seq<char>),
    CallMethod(int),
    CallFunction(int),
    JumpIfFalseAndPopStack(int),
    JumpUnconditional(int),
    UnresolvedBreak,
    BinaryAdd,
    BinaryModulus,
    BinarySubtract,
    BinaryMultiply,
    BinaryTrueDivision,
    CompareLessEquals,
    CompareGreaterEquals,
    CompareGreaterThan,
    CompareLessThan,
    CompareEquals,
    CompareNotEquals,
    BuildList(int),
    IndexAccess,
    Raise,
    ReturnValue,
}

impl View for Instruction {
    type V = InstructionModel;

    open spec fn view(&self) -> InstructionModel {
        match self {
            Instruction::LoadConst(i) => InstructionModel::LoadConst(*i as int),
            Instruction::LoadMethod(s) => InstructionModel::LoadMethod(s@),
            Instruction::LoadFunction(s) => InstructionModel::LoadFunction(s@),
            Instruction::StoreName(s) => InstructionModel::StoreName(s@),
            Instruction::LoadName(s) => InstructionModel::LoadName(s@),
            Instruction::CallMethod { number_arguments } => InstructionModel::CallMethod(
                *number_arguments as int,
            ),
            Instruction::CallFunction { number_arguments } => InstructionModel::CallFunction(
                *number_arguments as int,
            ),
            Instruction::JumpIfFalseAndPopStack(d) => InstructionModel::JumpIfFalseAndPopStack(
                *d as int,
            ),
            Instruction::JumpUnconditional(d) => InstructionModel::JumpUnconditional(*d as int),
            Instruction::UnresolvedBreak => InstructionModel::UnresolvedBreak,
            Instruction::BinaryAdd => InstructionModel::BinaryAdd,
            Instruction::BinaryModulus => InstructionModel::BinaryModulus,
            Instruction::BinarySubtract => InstructionModel::BinarySubtract,
            Instruction::BinaryMultiply => InstructionModel::BinaryMultiply,
            Instruction::BinaryTrueDivision => InstructionModel::BinaryTrueDivision,
            Instruction::CompareLessEquals => InstructionModel::CompareLessEquals,
            Instruction::CompareGreaterEquals => InstructionModel::CompareGreaterEquals,
            Instruction::CompareGreaterThan => InstructionModel::CompareGreaterThan,
            Instruction::CompareLessThan => InstructionModel::CompareLessThan,
            Instruction::CompareEquals => InstructionModel::CompareEquals,
            Instruction::CompareNotEquals => InstructionModel::CompareNotEquals,
            Instruction::BuildList { number_elements } => InstructionModel::BuildList(*number_elements as int),
            Instruction::IndexAccess => InstructionModel::IndexAccess,
            Instruction::Raise => InstructionModel::Raise,
            Instruction::ReturnValue => InstructionModel::ReturnValue,
        }
    }
}

pub open spec fn instrs_view(s: Seq<Instruction>) -> Seq<InstructionModel> {
    s.map_values(|i: Instruction| i@)
}

/// A copy of an instruction.
pub fn copy_instruction(i: &Instruction) -> (r: Instruction)
    ensures
        r@ == i@,
{
    match i {
        Instruction::LoadConst(k) => Instruction::LoadConst(*k),
        Instruction::LoadMethod(n) => Instruction::LoadMethod(n.clone()),
        Instruction::LoadFunction(n) => Instruction::LoadFunction(n.clone()),
        Instruction::StoreName(n) => Instruction::StoreName(n.clone()),
        Instruction::LoadName(n) => Instruction::LoadName(n.clone()),
        Instruction::CallMethod { number_arguments } => Instruction::CallMethod { number_arguments: *number_arguments },
        Instruction::CallFunction { number_arguments } => Instruction::CallFunction {
            number_arguments: *number_arguments,
        },
        Instruction::JumpIfFalseAndPopStack(d) => Instruction::JumpIfFalseAndPopStack(*d),
        Instruction::JumpUnconditional(d) => Instruction::JumpUnconditional(*d),
        Instruction::UnresolvedBreak => Instruction::UnresolvedBreak,
        Instruction::BinaryAdd => Instruction::BinaryAdd,
        Instruction::BinaryModulus => Instruction::BinaryModulus,
        Instruction::BinarySubtract => Instruction::BinarySubtract,
        Instruction::BinaryMultiply => Instruction::BinaryMultiply,
        Instruction::BinaryTrueDivision => Instruction::BinaryTrueDivision,
        Instruction::CompareLessEquals => Instruction::CompareLessEquals,
        Instruction::CompareGreaterEquals => Instruction::CompareGreaterEquals,
        Instruction::CompareGreaterThan => Instruction::CompareGreaterThan,
        Instruction::CompareLessThan => Instruction::CompareLessThan,
        Instruction::CompareEquals => Instruction::CompareEquals,
        Instruction::CompareNotEquals => Instruction::CompareNotEquals,
        Instruction::BuildList { number_elements } => Instruction::BuildList { number_elements: *number_elements },
        Instruction::IndexAccess => Instruction::IndexAccess,
        Instruction::Raise => Instruction::Raise,
        Instruction::ReturnValue => Instruction::ReturnValue,
    }
}

/// A copy of a list of instructions.
pub fn copy_instructions(v: &Vec<Instruction>) -> (r: Vec<Instruction>)
    ensures
        instrs_view(r@) == instrs_view(v@),
{
    let mut r: Vec<Instruction> = Vec::new();
    let mut i: usize = 0;
    while i < v.len()
        invariant
            i <= v.len(),
            r@.len() == i,
            forall|j: int| 0 <= j < i ==> #[trigger] r@[j]@ == v@[j]@,
        decreases v.len() - i,
    {
        r.push(copy_instruction(&v[i]));
        i = i + 1;
    }
    assert(instrs_view(r@) =~= instrs_view(v@));
    r
}

/// A compiled program: the constant pool and the instructions.
pub struct Program {
    pub data: Vec<Const>,
    pub code: Vec<Instruction>,
}

/// Why an expression or statement cannot be compiled.
#[derive(Debug, Clone, Copy, PartialEq, Eq, Structural)]
pub enum CompileError {
    /// The operator has no method to stand for it.
    OperatorNotImplemented(Operator),
    /// A parenthesis node reached the compiler.
    ParenthesizedExpression,
    /// A jump target does not fit in a machine word.
    ProgramTooLarge,
}

/// The method that stands for a binary operator.
pub open spec fn binary_method(op: Operator) -> Option<Seq<char>> {
    match op {
        Operator::Plus => Some("__add__"@),
        Operator::Minus => Some("__sub__"@),
        Operator::Multiply => Some("__mul__"@),
        Operator::Divide => Some("__truediv__"@),
        Operator::Equals => Some("__eq__"@),
        Operator::NotEquals => Some("__ne__"@),
        _ => None,
    }
}

/// The method that stands for a unary operator.
pub open spec fn unary_method(op: Operator) -> Option<Seq<char>> {
    match op {
        Operator::Plus => Some("__pos__"@),
        Operator::Not => Some("__not__"@),
        Operator::Minus => Some("__neg__"@),
        _ => None,
    }
}

/// The index of the first occurrence of `c` in `pool`, if any.
pub open spec fn const_index(pool: Seq<ConstModel>, c: ConstModel) -> Option<int>
    decreases pool.len(),
{
    if pool.len() == 0 {
        None
    } else {
        match const_index(pool.drop_last(), c) {
            Some(i) => Some(i),
            None => if pool.last() == c {
                Some(pool.len() - 1)
            } else {
                None
            },
        }
    }
}

/// The load of constant `c`: its index in the pool, where it is added when absent.
pub open spec fn spec_process_constval(c: ConstModel, pool: Seq<ConstModel>) -> (
    Seq<InstructionModel>,
    Seq<ConstModel>,
) {
    match const_index(pool, c) {
        Some(i) => (seq![InstructionModel::LoadConst(i)], pool),
        None => (seq![InstructionModel::LoadConst(pool.len() as int)], pool.push(c)),
    }
}

pub type CompileResult = Result<(Seq<InstructionModel>, Seq<ConstModel>), CompileError>;

/// The instructions that compute `e` and leave its value on the stack, with the
/// constant pool after its constants were added.
pub open spec fn spec_compile_expr(e: ExprModel, pool: Seq<ConstModel>) -> CompileResult
    decreases e,
{
    match e {
        ExprModel::IntegerValue(i) => Ok(spec_process_constval(ConstModel::Integer(i), pool)),
        ExprModel::FloatValue(f) => Ok(spec_process_constval(ConstModel::Float(f), pool)),
        ExprModel::BinaryOperation(lhs, op, rhs) => match binary_method(op) {
            None => Err(CompileError::OperatorNotImplemented(op)),
            Some(m) => match spec_compile_expr(*lhs, pool) {
                Err(err) => Err(err),
                Ok((lc, p1)) => match spec_compile_expr(*rhs, p1) {
                    Err(err) => Err(err),
                    Ok((rc, p2)) => Ok(
                        (
                            lc + seq![InstructionModel::LoadMethod(m)] + rc + seq![
                                InstructionModel::CallMethod(1),
                            ],
                            p2,
                        ),
                    ),
                },
            },
        },
        ExprModel::UnaryExpression(op, rhs) => match unary_method(op) {
            None => Err(CompileError::OperatorNotImplemented(op)),
            Some(m) => match spec_compile_expr(*rhs, pool) {
                Err(err) => Err(err),
                Ok((rc, p1)) => Ok(
                    (
                        rc + seq![InstructionModel::LoadMethod(m), InstructionModel::CallMethod(0)],
                        p1,
                    ),
                ),
            },
        },
        ExprModel::FunctionCall(name, args) => match spec_compile_args(args, pool) {
            Err(err) => Err(err),
            Ok((ac, p1)) => Ok(
                (
                    seq![InstructionModel::LoadFunction(name)] + ac + seq![
                        InstructionModel::CallFunction(args.len() as int),
                    ],
                    p1,
                ),
            ),
        },
        ExprModel::Variable(name) => Ok((seq![InstructionModel::LoadName(name)], pool)),
        ExprModel::Parenthesized(_) => Err(CompileError::ParenthesizedExpression),
    }
}

/// The instructions of the arguments of a call, left to right.
pub open spec fn spec_compile_args(args: Seq<ExprModel>, pool: Seq<ConstModel>) -> CompileResult
    decreases args,
{
    if args.len() == 0 {
        Ok((Seq::empty(), pool))
    } else {
        match spec_compile_expr(args[0], pool) {
            Err(err) => Err(err),
            Ok((c0, p1)) => match spec_compile_args(args.drop_first(), p1) {
                Err(err) => Err(err),
                Ok((cs, p2)) => Ok((c0 + cs, p2)),
            },
        }
    }
}


/// No constant occurs twice in the pool.
pub open spec fn distinct_consts(p: Seq<ConstModel>) -> bool {
    forall|i: int, j: int| 0 <= i < j < p.len() ==> p[i] != p[j]
}

proof fn lemma_const_index_found(s: Seq<ConstModel>, c: ConstModel)
    ensures
        const_index(s, c) matches Some(i) ==> 0 <= i < s.len() && s[i] == c,
        const_index(s, c) is None ==> forall|j: int| 0 <= j < s.len() ==> s[j] != c,
    decreases s.len(),
{
    if s.len() > 0 {
        lemma_const_index_found(s.drop_last(), c);
        assert forall|j: int| 0 <= j < s.len() - 1 implies s.drop_last()[j] == s[j] by {}
    }
}

/// A constant is loaded from the index where the pool holds it; the pool only
/// grows, and a constant already in it is not added again.
pub proof fn law_constant_load(c: ConstModel, pool: Seq<ConstModel>)
    requires
        distinct_consts(pool),
    ensures
        spec_process_constval(c, pool).0.len() == 1,
        spec_process_constval(c, pool).0[0] matches InstructionModel::LoadConst(i) && 0 <= i
            < spec_process_constval(c, pool).1.len() && spec_process_constval(c, pool).1[i] == c,
        pool.is_prefix_of(spec_process_constval(c, pool).1),
        distinct_consts(spec_process_constval(c, pool).1),
{
    lemma_const_index_found(pool, c);
    let p2 = spec_process_constval(c, pool).1;
    assert(pool.is_prefix_of(p2)) by {
        assert(p2.subrange(0, pool.len() as int) =~= pool);
    }
}

/// Compiling an expression keeps the pool free of repeated constants and only adds to it.
pub proof fn law_compile_expr_pool(e: ExprModel, pool: Seq<ConstModel>)
    requires
        distinct_consts(pool),
    ensures
        spec_compile_expr(e, pool) matches Ok((_, p2)) ==> distinct_consts(p2) && pool.is_prefix_of(p2),
    decreases e,
{
    match e {
        ExprModel::IntegerValue(i) => law_constant_load(ConstModel::Integer(i), pool),
        ExprModel::FloatValue(f) => law_constant_load(ConstModel::Float(f), pool),
        ExprModel::BinaryOperation(lhs, op, rhs) => {
            law_compile_expr_pool(*lhs, pool);
            if let Ok((_, p1)) = spec_compile_expr(*lhs, pool) {
                law_compile_expr_pool(*rhs, p1);
            }
        },
        ExprModel::UnaryExpression(op, rhs) => {
            law_compile_expr_pool(*rhs, pool);
        },
        ExprModel::FunctionCall(name, args) => {
            law_compile_args_pool(args, pool);
        },
        _ => {
            assert(pool.is_prefix_of(pool)) by {
                assert(pool.subrange(0, pool.len() as int) =~= pool);
            }
        },
    }
}

/// Compiling the arguments of a call keeps the pool free of repeated constants and only adds to it.
pub proof fn law_compile_args_pool(args: Seq<ExprModel>, pool: Seq<ConstModel>)
    requires
        distinct_consts(pool),
    ensures
        spec_compile_args(args, pool) matches Ok((_, p2)) ==> distinct_consts(p2) && pool.is_prefix_of(p2),
    decreases args,
{
    if args.len() == 0 {
        assert(pool.is_prefix_of(pool)) by {
            assert(pool.subrange(0, pool.len() as int) =~= pool);
        }
    } else {
        assert(decreases_to!(args => args[0]));
        law_compile_expr_pool(args[0], pool);
        if let Ok((_, p1)) = spec_compile_expr(args[0], pool) {
            law_compile_args_pool(args.drop_first(), p1);
        }
    }
}

/// An expression without parenthesis nodes never fails to compile for one.
pub proof fn law_paren_free_compiles(e: ExprModel, pool: Seq<ConstModel>)
    requires
        paren_free(e),
    ensures
        spec_compile_expr(e, pool) != Err::<(Seq<InstructionModel>, Seq<ConstModel>), CompileError>(
            CompileError::ParenthesizedExpression,
        ),
    decreases e,
{
    match e {
        ExprModel::BinaryOperation(lhs, op, rhs) => {
            law_paren_free_compiles(*lhs, pool);
            if let Ok((_, p1)) = spec_compile_expr(*lhs, pool) {
                law_paren_free_compiles(*rhs, p1);
            }
        },
        ExprModel::UnaryExpression(op, rhs) => {
            law_paren_free_compiles(*rhs, pool);
        },
        ExprModel::FunctionCall(name, args) => {
            law_paren_free_args_compile(args, pool);
        },
        _ => {},
    }
}

/// Arguments without parenthesis nodes never fail to compile for one.
pub proof fn law_paren_free_args_compile(args: Seq<ExprModel>, pool: Seq<ConstModel>)
    requires
        args_paren_free(args),
    ensures
        spec_compile_args(args, pool) != Err::<(Seq<InstructionModel>, Seq<ConstModel>), CompileError>(
            CompileError::ParenthesizedExpression,
        ),
    decreases args,
{
    if args.len() > 0 {
        assert(decreases_to!(args => args[0]));
        law_paren_free_compiles(args[0], pool);
        if let Ok((_, p1)) = spec_compile_expr(args[0], pool) {
            law_paren_free_args_compile(args.drop_first(), p1);
        }
    }
}

fn consts_equal(a: &Const, b: &Const) -> (r: bool)
    ensures
        r == (a@ == b@),
{
    match (a, b) {
        (Const::Integer(x), Const::Integer(y)) => *x == *y,
        (Const::Float(x), Const::Float(y)) => x.0 == y.0,
        (Const::Boolean(x), Const::Boolean(y)) => *x == *y,
        (Const::String(x), Const::String(y)) => *x == *y,
        _ => false,
    }
}

proof fn lemma_const_index_take(s: Seq<ConstModel>, i: int, c: ConstModel)
    requires
        0 <= i < s.len(),
    ensures
        const_index(s.take(i + 1), c) == (match const_index(s.take(i), c) {
            Some(j) => Some(j),
            None => if s[i] == c {
                Some(i)
            } else {
                None
            },
        }),
{
    assert(s.take(i + 1).drop_last() =~= s.take(i));
}

proof fn lemma_const_index_bound(s: Seq<ConstModel>, c: ConstModel)
    ensures
        const_index(s, c) matches Some(i) ==> 0 <= i < s.len(),
    decreases s.len(),
{
    if s.len() > 0 {
        lemma_const_index_bound(s.drop_last(), c);
    }
}

/// The load of constant `c` from `pool`, where it is added when absent.
pub fn process_constval(c: Const, pool: &mut Vec<Const>) -> (r: Vec<Instruction>)
    ensures
        (instrs_view(r@), consts_view(final(pool)@)) == spec_process_constval(
            c@,
            consts_view(old(pool)@),
        ),
{
    let ghost pv = consts_view(pool@);
    let mut i: usize = 0;
    assert(pv.take(0) =~= Seq::<ConstModel>::empty());
    while i < pool.len()
        invariant
            i <= pool.len(),
            pv == consts_view(pool@),
            const_index(pv.take(i as int), c@) is None,
        decreases pool.len() - i,
    {
        proof {
            lemma_const_index_take(pv, i as int, c@);
        }
        if consts_equal(&pool[i], &c) {
            let r = vec![Instruction::LoadConst(i)];
            proof {
                assert(pv.take(pool@.len() as int) =~= pv);
                lemma_const_index_prefix(pv, i as int + 1, c@);
                assert(instrs_view(r@) =~= seq![InstructionModel::LoadConst(i as int)]);
            }
            return r;
        }
        i = i + 1;
    }
    assert(pv.take(pool@.len() as int) =~= pv);
    let len = pool.len();
    pool.push(c);
    let r = vec![Instruction::LoadConst(len)];
    proof {
        assert(consts_view(pool@) =~= pv.push(c@));
        assert(instrs_view(r@) =~= seq![InstructionModel::LoadConst(len as int)]);
    }
    r
}

/// Once a prefix holds `c`, the whole sequence finds it at the same index.
proof fn lemma_const_index_prefix(s: Seq<ConstModel>, k: int, c: ConstModel)
    requires
        0 <= k <= s.len(),
        const_index(s.take(k), c) is Some,
    ensures
        const_index(s, c) == const_index(s.take(k), c),
    decreases s.len() - k,
{
    if k < s.len() {
        lemma_const_index_take(s, k, c);
        lemma_const_index_prefix(s, k + 1, c);
    } else {
        assert(s.take(k) =~= s);
    }
}

fn method_name(name: &str) -> (r: String)
    ensures
        r@ == name@,
{
    String::from_str(name)
}

fn binary_method_exec(op: Operator) -> (r: Option<String>)
    ensures
        match binary_method(op) {
            Some(m) => r matches Some(s) && s@ == m,
            None => r is None,
        },
{
    match op {
        Operator::Plus => Some(method_name("__add__")),
        Operator::Minus => Some(method_name("__sub__")),
        Operator::Multiply => Some(method_name("__mul__")),
        Operator::Divide => Some(method_name("__truediv__")),
        Operator::Equals => Some(method_name("__eq__")),
        Operator::NotEquals => Some(method_name("__ne__")),
        _ => None,
    }
}

fn unary_method_exec(op: Operator) -> (r: Option<String>)
    ensures
        match unary_method(op) {
            Some(m) => r matches Some(s) && s@ == m,
            None => r is None,
        },
{
    match op {
        Operator::Plus => Some(method_name("__pos__")),
        Operator::Not => Some(method_name("__not__")),
        Operator::Minus => Some(method_name("__neg__")),
        _ => None,
    }
}

/// `acc` in front of the instructions of `r`, or the error of `r`.
pub open spec fn prepend_code(acc: Seq<InstructionModel>, r: CompileResult) -> CompileResult {
    match r {
        Ok((c, p)) => Ok((acc + c, p)),
        Err(e) => Err(e),
    }
}

/// The instructions that compute `expr`; constants are added to `pool`.
pub fn compile_expr(expr: Expr, pool: &mut Vec<Const>) -> (r: Result<Vec<Instruction>, CompileError>)
    ensures
        match spec_compile_expr(expr@, consts_view(old(pool)@)) {
            Ok((c, p)) => r matches Ok(v) && instrs_view(v@) == c && consts_view(final(pool)@) == p,
            Err(e) => r == Err::<Vec<Instruction>, CompileError>(e),
        },
    decreases expr,
{
    let ghost e0 = expr@;
    match expr {
        Expr::IntegerValue(i) => Ok(process_constval(Const::Integer(i), pool)),
        Expr::FloatValue(f) => Ok(process_constval(Const::Float(f), pool)),
        Expr::BinaryOperation(lhs, op, rhs) => {
            let m = match binary_method_exec(op) {
                None => {
                    return Err(CompileError::OperatorNotImplemented(op));
                },
                Some(m) => m,
            };
            let mut lhs_program = compile_expr(*lhs, pool)?;
            let mut rhs_program = compile_expr(*rhs, pool)?;
            let mut final_instructions: Vec<Instruction> = Vec::new();
            let ghost lc = instrs_view(lhs_program@);
            let ghost rc = instrs_view(rhs_program@);
            final_instructions.append(&mut lhs_program);
            final_instructions.push(Instruction::LoadMethod(m));
            final_instructions.append(&mut rhs_program);
            final_instructions.push(Instruction::CallMethod { number_arguments: 1 });
            proof {
                assert(instrs_view(final_instructions@) =~= lc + seq![
                    InstructionModel::LoadMethod(binary_method(op)->Some_0),
                ] + rc + seq![InstructionModel::CallMethod(1)]);
            }
            Ok(final_instructions)
        },
        Expr::UnaryExpression(op, rhs) => {
            let m = match unary_method_exec(op) {
                None => {
                    return Err(CompileError::OperatorNotImplemented(op));
                },
                Some(m) => m,
            };
            let mut final_instructions = compile_expr(*rhs, pool)?;
            let ghost rc = instrs_view(final_instructions@);
            final_instructions.push(Instruction::LoadMethod(m));
            final_instructions.push(Instruction::CallMethod { number_arguments: 0 });
            proof {
                assert(instrs_view(final_instructions@) =~= rc + seq![
                    InstructionModel::LoadMethod(unary_method(op)->Some_0),
                    InstructionModel::CallMethod(0),
                ]);
            }
            Ok(final_instructions)
        },
        Expr::FunctionCall(fname, params) => {
            let ghost args = exprs_view(params@);
            let ghost orig = params@;
            let ghost orig_vec = params;
            let len_params = params.len();
            let mut final_instructions: Vec<Instruction> = Vec::new();
            final_instructions.push(Instruction::LoadFunction(fname));
            let ghost head = instrs_view(final_instructions@);
            let mut rest = params;
            let mut k: usize = 0;
            proof {
                assert(e0 == ExprModel::FunctionCall(fname@, args)) by {
                    assert(e0->FunctionCall_1 =~= args);
                }
                assert(args.skip(0) =~= args);
                assert(decreases_to!(expr => orig_vec));
            }
            while rest.len() > 0
                invariant
                    decreases_to!(expr => orig_vec),
                    orig == orig_vec@,
                    e0 == expr@,
                    k <= len_params,
                    len_params == orig.len(),
                    rest@ == orig.skip(k as int),
                    args == exprs_view(orig),
                    e0 == ExprModel::FunctionCall(fname@, args),
                    head == seq![InstructionModel::LoadFunction(fname@)],
                    prepend_code(head, spec_compile_args(args, consts_view(old(pool)@)))
                        == prepend_code(
                        instrs_view(final_instructions@),
                        spec_compile_args(args.skip(k as int), consts_view(pool@)),
                    ),
                decreases rest.len(),
            {
                let p = rest.remove(0);
                proof {
                    assert(p == orig[k as int]);
                    assert(p@ == args[k as int]);
                    assert(args.skip(k as int)[0] == args[k as int]);
                    assert(args.skip(k as int).drop_first() =~= args.skip(k + 1));
                    assert(rest@ =~= orig.skip(k + 1));
                    assert(k < orig.len());
                    assert(decreases_to!(expr => orig[k as int])) by {
                        assert(decreases_to!(orig_vec => orig_vec@));
                        assert(decreases_to!(orig_vec@ => orig_vec@[k as int]));
                    }
                }
                let ghost before = instrs_view(final_instructions@);
                let ghost pool_before = consts_view(pool@);
                let mut code = match compile_expr(p, pool) {
                    Ok(c) => c,
                    Err(e) => {
                        assert(spec_compile_args(args.skip(k as int), pool_before) == Err::<
                            (Seq<InstructionModel>, Seq<ConstModel>),
                            CompileError,
                        >(e));
                        assert(spec_compile_args(args, consts_view(old(pool)@)) == Err::<
                            (Seq<InstructionModel>, Seq<ConstModel>),
                            CompileError,
                        >(e));
                        return Err(e);
                    },
                };
                let ghost cc = instrs_view(code@);
                final_instructions.append(&mut code);
                proof {
                    assert(instrs_view(final_instructions@) =~= before + cc);
                    match spec_compile_args(args.skip(k + 1), consts_view(pool@)) {
                        Ok((cs, p2)) => {
                            assert(before + (cc + cs) =~= (before + cc) + cs);
                        },
                        Err(_) => {},
                    }
                }
                k = k + 1;
            }
            proof {
                assert(args.skip(k as int) =~= Seq::<ExprModel>::empty());
            }
            let ghost body = instrs_view(final_instructions@);
            final_instructions.push(Instruction::CallFunction { number_arguments: len_params });
            proof {
                match spec_compile_args(args, consts_view(old(pool)@)) {
                    Ok((ac, p1)) => {
                        assert(body == head + ac);
                        assert(instrs_view(final_instructions@) =~= head + ac + seq![
                            InstructionModel::CallFunction(args.len() as int),
                        ]);
                    },
                    Err(_) => {},
                }
            }
            Ok(final_instructions)
        },
        Expr::Variable(var_name) => {
            let r = vec![Instruction::LoadName(var_name)];
            proof {
                assert(instrs_view(r@) =~= seq![InstructionModel::LoadName(e0->Variable_0)]);
            }
            Ok(r)
        },
        Expr::Parenthesized(_) => Err(CompileError::ParenthesizedExpression),
    }
}

/// A branch of an `if` statement: its condition and its statements.
#[derive(Debug, PartialEq, Eq)]
pub struct IfStatementBranch {
    pub expression: Expr,
    pub statements: Vec<AST>,
}

/// A statement.
#[derive(Debug, PartialEq, Eq)]
pub enum AST {
    Assign { variable_name: String, expression: Expr },
    StandaloneExpr(Expr),
    IfStatement {
        true_branch: IfStatementBranch,
        elifs: Vec<IfStatementBranch>,
        final_else: Option<Vec<AST>>,
    },
    WhileStatement { expression: Expr, body: Vec<AST> },
    Break,
}

/// The code with every pending `break` turned into a jump to `target`.
pub open spec fn resolve_breaks(code: Seq<InstructionModel>, target: int) -> Seq<InstructionModel> {
    code.map_values(
        |i: InstructionModel|
            if i == InstructionModel::UnresolvedBreak {
                InstructionModel::JumpUnconditional(target)
            } else {
                i
            },
    )
}

/// The instructions of the statements `items`, placed at index `offset` of the
/// program, after the instructions `acc` of the earlier statements of the block.
pub open spec fn spec_compile_items(
    items: Seq<AST>,
    offset: int,
    acc: Seq<InstructionModel>,
    pool: Seq<ConstModel>,
) -> CompileResult
    decreases items,
{
    if items.len() == 0 {
        Ok((acc, pool))
    } else {
        proof {
            assert(decreases_to!(items => items[0]));
        }
        match spec_compile_step(items[0], offset, acc, pool) {
            Err(e) => Err(e),
            Ok((acc2, pool2)) => spec_compile_items(items.drop_first(), offset, acc2, pool2),
        }
    }
}

/// The instructions `acc` of a block placed at index `offset`, followed by those
/// of the statement `item`; constants are added to `pool`.
/// Jump targets are absolute instruction indices. An `if` jumps over its true
/// branch when the condition is false, and the true branch ends with a jump to
/// the first instruction after the `else` branch; a `while` tests its
/// condition, jumps past its body when it is false, and its body jumps back to
/// the test, `break` jumping past the body. `elif` branches are not compiled.
pub open spec fn spec_compile_step(
    item: AST,
    offset: int,
    acc: Seq<InstructionModel>,
    pool: Seq<ConstModel>,
) -> CompileResult
    decreases item,
{
    match item {
        AST::Assign { variable_name, expression } => match spec_compile_expr(expression@, pool) {
            Err(e) => Err(e),
            Ok((c, p1)) => Ok((acc + c + seq![InstructionModel::StoreName(variable_name@)], p1)),
        },
        AST::StandaloneExpr(expression) => match spec_compile_expr(expression@, pool) {
            Err(e) => Err(e),
            Ok((c, p1)) => Ok((acc + c, p1)),
        },
        AST::IfStatement { true_branch, elifs, final_else } => {
            proof {
                assert(decreases_to!(item => true_branch));
                assert(decreases_to!(true_branch => true_branch.statements));
                assert(decreases_to!(true_branch.statements => true_branch.statements@));
            }
            match spec_compile_expr(true_branch.expression@, pool) {
                Err(e) => Err(e),
                Ok((cond, p1)) => {
                    let acc1 = acc + cond;
                    let before_if = offset + acc1.len() + 1;
                    if before_if > usize::MAX {
                        Err(CompileError::ProgramTooLarge)
                    } else {
                        match spec_compile_items(true_branch.statements@, before_if, Seq::empty(), p1) {
                            Err(e) => Err(e),
                            Ok((tb, p2)) => match final_else {
                                Some(else_ast) => {
                                    proof {
                                        assert(decreases_to!(item => final_else));
                                        assert(decreases_to!(final_else => else_ast));
                                        assert(decreases_to!(else_ast => else_ast@));
                                    }
                                    let after_true = before_if + tb.len() + 1;
                                    if after_true > usize::MAX {
                                        Err(CompileError::ProgramTooLarge)
                                    } else {
                                        match spec_compile_items(else_ast@, after_true, Seq::empty(), p2) {
                                            Err(e) => Err(e),
                                            Ok((fb, p3)) => {
                                                let after_else = after_true + fb.len();
                                                if after_else > usize::MAX {
                                                    Err(CompileError::ProgramTooLarge)
                                                } else {
                                                    Ok(
                                                        (
                                                            acc1 + seq![
                                                                InstructionModel::JumpIfFalseAndPopStack(
                                                                    after_true,
                                                                ),
                                                            ] + tb + seq![
                                                                InstructionModel::JumpUnconditional(
                                                                    after_else,
                                                                ),
                                                            ] + fb,
                                                            p3,
                                                        ),
                                                    )
                                                }
                                            },
                                        }
                                    }
                                },
                                None => {
                                    let after_true = before_if + tb.len();
                                    if after_true > usize::MAX {
                                        Err(CompileError::ProgramTooLarge)
                                    } else {
                                        Ok(
                                            (
                                                acc1 + seq![
                                                    InstructionModel::JumpIfFalseAndPopStack(
                                                        after_true,
                                                    ),
                                                ] + tb,
                                                p2,
                                            ),
                                        )
                                    }
                                },
                            },
                        }
                    }
                },
            }
        },
        AST::WhileStatement { expression, body } => {
            proof {
                assert(decreases_to!(item => body));
                assert(decreases_to!(body => body@));
            }
            let before_while = acc.len() + offset;
            match spec_compile_expr(expression@, pool) {
                Err(e) => Err(e),
                Ok((ce, p1)) => {
                    let after_expr: int = offset + acc.len() + ce.len() + 1;
                    if before_while > usize::MAX || after_expr > usize::MAX {
                        Err(CompileError::ProgramTooLarge)
                    } else {
                        match spec_compile_items(body@, after_expr, Seq::empty(), p1) {
                            Err(e) => Err(e),
                            Ok((cb, p2)) => {
                                let after_body: int = after_expr + cb.len() as int + 1;
                                if after_body > usize::MAX {
                                    Err(CompileError::ProgramTooLarge)
                                } else {
                                    Ok(
                                        (
                                            acc + ce + seq![
                                                InstructionModel::JumpIfFalseAndPopStack(after_body),
                                            ] + resolve_breaks(cb, after_body) + seq![
                                                InstructionModel::JumpUnconditional(before_while),
                                            ],
                                            p2,
                                        ),
                                    )
                                }
                            },
                        }
                    }
                },
            }
        },
        AST::Break => Ok((acc.push(InstructionModel::UnresolvedBreak), pool)),
    }
}

/// The instructions of a block of statements placed at index `offset`.
pub open spec fn spec_compile_ast(items: Seq<AST>, offset: int, pool: Seq<ConstModel>) -> CompileResult {
    spec_compile_items(items, offset, Seq::empty(), pool)
}

/// Turns every pending `break` of `code` into a jump to `target`.
fn resolve_breaks_exec(code: &mut Vec<Instruction>, target: usize)
    ensures
        instrs_view(final(code)@) == resolve_breaks(instrs_view(old(code)@), target as int),
{
    let ghost c0 = instrs_view(code@);
    let mut i: usize = 0;
    assert(forall|j: int| 0 <= j < code@.len() ==> #[trigger] code@[j]@ == c0[j]);
    while i < code.len()
        invariant
            i <= code.len(),
            code@.len() == c0.len(),
            forall|j: int| 0 <= j < i ==> #[trigger] code@[j]@ == resolve_breaks(c0, target as int)[j],
            forall|j: int| i <= j < code@.len() ==> #[trigger] code@[j]@ == c0[j],
        decreases code.len() - i,
    {
        let is_break = match &code[i] {
            Instruction::UnresolvedBreak => true,
            _ => false,
        };
        assert(code@[i as int]@ == c0[i as int]);
        assert(is_break == (c0[i as int] == InstructionModel::UnresolvedBreak));
        assert(resolve_breaks(c0, target as int)[i as int] == (if c0[i as int]
            == InstructionModel::UnresolvedBreak {
            InstructionModel::JumpUnconditional(target as int)
        } else {
            c0[i as int]
        }));
        if is_break {
            code.set(i, Instruction::JumpUnconditional(target));
        }
        i = i + 1;
    }
    assert(instrs_view(code@) =~= resolve_breaks(c0, target as int));
}

proof fn lemma_skip_first<A>(s: Seq<A>, k: int)
    requires
        0 <= k < s.len(),
    ensures
        s.skip(k)[0] == s[k],
        s.skip(k).drop_first() == s.skip(k + 1),
        s.skip(k).len() > 0,
{
    assert(s.skip(k).drop_first() =~= s.skip(k + 1));
}

/// The result of a statement step, as the exec functions return it.
pub open spec fn step_matches(
    spec_r: CompileResult,
    r: Result<(), CompileError>,
    acc: Seq<Instruction>,
    pool: Seq<Const>,
) -> bool {
    match spec_r {
        Ok((c, p)) => r is Ok && instrs_view(acc) == c && consts_view(pool) == p,
        Err(e) => r == Err::<(), CompileError>(e),
    }
}

fn add_checked(a: usize, b: usize, c: usize) -> (r: Result<usize, CompileError>)
    ensures
        a + b + c <= usize::MAX ==> r == Ok::<usize, CompileError>((a + b + c) as usize),
        a + b + c > usize::MAX ==> r == Err::<usize, CompileError>(CompileError::ProgramTooLarge),
{
    match a.checked_add(b) {
        Some(x) => match x.checked_add(c) {
            Some(y) => Ok(y),
            None => Err(CompileError::ProgramTooLarge),
        },
        None => Err(CompileError::ProgramTooLarge),
    }
}

/// Appends the instructions of the `if` statement to `acc`.
fn compile_if(
    true_branch: IfStatementBranch,
    final_else: Option<Vec<AST>>,
    offset: usize,
    acc: &mut Vec<Instruction>,
    pool: &mut Vec<Const>,
    Ghost(item): Ghost<AST>,
) -> (r: Result<(), CompileError>)
    requires
        item matches AST::IfStatement { true_branch: tb, elifs: _, final_else: fe } && tb
            == true_branch && fe == final_else,
    ensures
        step_matches(
            spec_compile_step(item, offset as int, instrs_view(old(acc)@), consts_view(old(pool)@)),
            r,
            final(acc)@,
            final(pool)@,
        ),
    decreases item, 0int,
{
    let ghost acc0 = instrs_view(acc@);
    let ghost tb0 = true_branch;
    proof {
        assert(decreases_to!(item => tb0));
    }
    let IfStatementBranch { expression, statements } = true_branch;
    let mut cond = compile_expr(expression, pool)?;
    let ghost condm = instrs_view(cond@);
    acc.append(&mut cond);
    let ghost acc1 = instrs_view(acc@);
    proof {
        assert(acc1 =~= acc0 + condm);
    }
    let before_if = add_checked(offset, acc.len(), 1)?;
    proof {
        assert(decreases_to!(tb0 => tb0.statements));
    }
    let mut tb = compile_ast(statements, before_if, pool)?;
    let ghost tbm = instrs_view(tb@);
    match final_else {
        Some(else_ast) => {
            let after_true = add_checked(before_if, tb.len(), 1)?;
            proof {
                assert(decreases_to!(item => final_else));
            }
            let mut fb = compile_ast(else_ast, after_true, pool)?;
            let ghost fbm = instrs_view(fb@);
            let after_else = add_checked(after_true, fb.len(), 0)?;
            acc.push(Instruction::JumpIfFalseAndPopStack(after_true));
            acc.append(&mut tb);
            acc.push(Instruction::JumpUnconditional(after_else));
            acc.append(&mut fb);
            proof {
                assert(instrs_view(acc@) =~= acc1 + seq![
                    InstructionModel::JumpIfFalseAndPopStack(after_true as int),
                ] + tbm + seq![InstructionModel::JumpUnconditional(after_else as int)] + fbm);
            }
        },
        None => {
            let after_true = add_checked(before_if, tb.len(), 0)?;
            acc.push(Instruction::JumpIfFalseAndPopStack(after_true));
            acc.append(&mut tb);
            proof {
                assert(instrs_view(acc@) =~= acc1 + seq![
                    InstructionModel::JumpIfFalseAndPopStack(after_true as int),
                ] + tbm);
            }
        },
    }
    Ok(())
}

/// Appends the instructions of the `while` statement to `acc`.
fn compile_while(
    expression: Expr,
    body: Vec<AST>,
    offset: usize,
    acc: &mut Vec<Instruction>,
    pool: &mut Vec<Const>,
    Ghost(item): Ghost<AST>,
) -> (r: Result<(), CompileError>)
    requires
        item matches AST::WhileStatement { expression: e, body: b } && e == expression && b
            == body,
    ensures
        step_matches(
            spec_compile_step(item, offset as int, instrs_view(old(acc)@), consts_view(old(pool)@)),
            r,
            final(acc)@,
            final(pool)@,
        ),
    decreases item, 0int,
{
    let ghost acc0 = instrs_view(acc@);
    let mut ce = compile_expr(expression, pool)?;
    let ghost cem = instrs_view(ce@);
    let before_while = add_checked(acc.len(), offset, 0)?;
    let after_expr = add_checked(before_while, ce.len(), 1)?;
    proof {
        assert(decreases_to!(item => body));
    }
    let mut cb = compile_ast(body, after_expr, pool)?;
    let after_body = add_checked(after_expr, cb.len(), 1)?;
    resolve_breaks_exec(&mut cb, after_body);
    let ghost cbr = instrs_view(cb@);
    acc.append(&mut ce);
    acc.push(Instruction::JumpIfFalseAndPopStack(after_body));
    acc.append(&mut cb);
    acc.push(Instruction::JumpUnconditional(before_while));
    proof {
        assert(instrs_view(acc@) =~= acc0 + cem + seq![
            InstructionModel::JumpIfFalseAndPopStack(after_body as int),
        ] + cbr + seq![InstructionModel::JumpUnconditional(before_while as int)]);
    }
    Ok(())
}

/// Appends the instructions of the statement `item` to `acc`.
fn compile_step(item: AST, offset: usize, acc: &mut Vec<Instruction>, pool: &mut Vec<Const>) -> (r:
    Result<(), CompileError>)
    ensures
        step_matches(
            spec_compile_step(item, offset as int, instrs_view(old(acc)@), consts_view(old(pool)@)),
            r,
            final(acc)@,
            final(pool)@,
        ),
    decreases item, 1int,
{
    let ghost acc0 = instrs_view(acc@);
    let ghost item0 = item;
    match item {
        AST::Assign { variable_name, expression } => {
            let mut code = compile_expr(expression, pool)?;
            let ghost cm = instrs_view(code@);
            acc.append(&mut code);
            acc.push(Instruction::StoreName(variable_name));
            proof {
                assert(instrs_view(acc@) =~= acc0 + cm + seq![
                    InstructionModel::StoreName(variable_name@),
                ]);
            }
            Ok(())
        },
        AST::StandaloneExpr(expression) => {
            let mut code = compile_expr(expression, pool)?;
            let ghost cm = instrs_view(code@);
            acc.append(&mut code);
            proof {
                assert(instrs_view(acc@) =~= acc0 + cm);
            }
            Ok(())
        },
        AST::IfStatement { true_branch, elifs, final_else } => compile_if(
            true_branch,
            final_else,
            offset,
            acc,
            pool,
            Ghost(item0),
        ),
        AST::WhileStatement { expression, body } => compile_while(
            expression,
            body,
            offset,
            acc,
            pool,
            Ghost(item0),
        ),
        AST::Break => {
            acc.push(Instruction::UnresolvedBreak);
            proof {
                assert(instrs_view(acc@) =~= acc0.push(InstructionModel::UnresolvedBreak));
            }
            Ok(())
        },
    }
}

/// The instructions of a block of statements placed at index `offset` of the
/// program; constants are added to `pool`.
pub fn compile_ast(ast: Vec<AST>, offset: usize, pool: &mut Vec<Const>) -> (r: Result<
    Vec<Instruction>,
    CompileError,
>)
    ensures
        match spec_compile_ast(ast@, offset as int, consts_view(old(pool)@)) {
            Ok((c, p)) => r matches Ok(v) && instrs_view(v@) == c && consts_view(final(pool)@) == p,
            Err(e) => r == Err::<Vec<Instruction>, CompileError>(e),
        },
    decreases ast, 2int,
{
    let ghost orig = ast@;
    let ghost orig_vec = ast;
    let ghost pool0 = consts_view(pool@);
    let mut all_instructions: Vec<Instruction> = Vec::new();
    let mut rest = ast;
    let mut k: usize = 0;
    proof {
        assert(orig.skip(0) =~= orig);
        assert(instrs_view(all_instructions@) =~= Seq::<InstructionModel>::empty());
    }
    assert(orig.len() == orig_vec.len());
    while rest.len() > 0
        invariant
            k <= orig.len(),
            orig.len() <= usize::MAX,
            rest@ == orig.skip(k as int),
            orig == orig_vec@,
            ast == orig_vec,
            pool0 == consts_view(old(pool)@),
            spec_compile_ast(orig, offset as int, pool0) == spec_compile_items(
                orig.skip(k as int),
                offset as int,
                instrs_view(all_instructions@),
                consts_view(pool@),
            ),
        decreases rest.len(),
    {
        let item = rest.remove(0);
        proof {
            assert(k < orig.len());
            lemma_skip_first(orig, k as int);
            assert(rest@ =~= orig.skip(k + 1));
            assert(item == orig[k as int]);
            assert(decreases_to!(ast => item)) by {
                assert(decreases_to!(orig_vec => orig_vec@));
                assert(decreases_to!(orig_vec@ => orig_vec@[k as int]));
            }
        }
        match compile_step(item, offset, &mut all_instructions, pool) {
            Ok(()) => {},
            Err(e) => {
                return Err(e);
            },
        }
        k = k + 1;
    }
    proof {
        assert(orig.skip(k as int) =~= Seq::<AST>::empty());
    }
    Ok(all_instructions)
}

/// The program of a block of statements: its constant pool, in the order the
/// constants were first met, and its instructions.
pub open spec fn spec_compile(ast: Seq<AST>) -> Result<
    (Seq<ConstModel>, Seq<InstructionModel>),
    CompileError,
> {
    match spec_compile_ast(ast, 0, Seq::empty()) {
        Ok((code, pool)) => Ok((pool, code)),
        Err(e) => Err(e),
    }
}

/// The program of a block of statements, or why it cannot be compiled.
pub fn try_compile(ast: Vec<AST>) -> (r: Result<Program, CompileError>)
    ensures
        match spec_compile(ast@) {
            Ok((pool, code)) => r matches Ok(p) && consts_view(p.data@) == pool && instrs_view(
                p.code@,
            ) == code,
            Err(e) => r matches Err(x) && x == e,
        },
{
    let mut pool: Vec<Const> = Vec::new();
    assert(consts_view(pool@) =~= Seq::<ConstModel>::empty());
    match compile_ast(ast, 0, &mut pool) {
        Ok(code) => Ok(Program { data: pool, code }),
        Err(e) => Err(e),
    }
}

/// The program of a block of statements that can be compiled.
pub fn compile(ast: Vec<AST>) -> (r: Program)
    requires
        spec_compile(ast@) is Ok,
    ensures
        spec_compile(ast@) == Ok::<(Seq<ConstModel>, Seq<InstructionModel>), CompileError>(
            (consts_view(r.data@), instrs_view(r.code@)),
        ),
{
    match try_compile(ast) {
        Ok(p) => p,
        Err(_) => {
            proof {
                assert(false);
            }
            Program { data: Vec::new(), code: Vec::new() }
        },
    }
}

/// Every `LoadConst` of `code` names an index below `n`.
pub open spec fn loads_within(code: Seq<InstructionModel>, n: int) -> bool {
    forall|i: int| 0 <= i < code.len() ==> (#[trigger] code[i] matches InstructionModel::LoadConst(k) ==> 0 <= k < n)
}

proof fn lemma_loads_concat(a: Seq<InstructionModel>, b: Seq<InstructionModel>, n: int)
    requires
        loads_within(a, n),
        loads_within(b, n),
    ensures
        loads_within(a + b, n),
{
    assert forall|i: int| 0 <= i < (a + b).len() implies (#[trigger] (a + b)[i] matches InstructionModel::LoadConst(k)
        ==> 0 <= k < n) by {
        if i < a.len() {
            assert((a + b)[i] == a[i]);
        } else {
            assert((a + b)[i] == b[i - a.len()]);
        }
    }
}

proof fn lemma_loads_resolve(code: Seq<InstructionModel>, target: int, n: int)
    requires
        loads_within(code, n),
    ensures
        loads_within(resolve_breaks(code, target), n),
{
    assert forall|i: int| 0 <= i < resolve_breaks(code, target).len() implies (#[trigger] resolve_breaks(
        code,
        target,
    )[i] matches InstructionModel::LoadConst(k) ==> 0 <= k < n) by {
        assert(code[i] matches InstructionModel::LoadConst(k) ==> 0 <= k < n);
    }
}

/// The code of an expression loads only constants of the pool it leaves, which extends the pool it was given.
pub proof fn law_expr_loads_in_pool(e: ExprModel, pool: Seq<ConstModel>)
    ensures
        spec_compile_expr(e, pool) matches Ok((c, p2)) ==> loads_within(c, p2.len() as int) && pool.len()
            <= p2.len(),
    decreases e,
{
    match e {
        ExprModel::IntegerValue(i) => {
            lemma_const_index_bound(pool, ConstModel::Integer(i));
        },
        ExprModel::FloatValue(f) => {
            lemma_const_index_bound(pool, ConstModel::Float(f));
        },
        ExprModel::BinaryOperation(lhs, op, rhs) => {
            law_expr_loads_in_pool(*lhs, pool);
            if let Ok((lc, p1)) = spec_compile_expr(*lhs, pool) {
                law_expr_loads_in_pool(*rhs, p1);
                if let Ok((rc, p2)) = spec_compile_expr(*rhs, p1) {
                    if let Some(m) = binary_method(op) {
                        let n = p2.len() as int;
                        lemma_loads_concat(lc, seq![InstructionModel::LoadMethod(m)], n);
                        lemma_loads_concat(lc + seq![InstructionModel::LoadMethod(m)], rc, n);
                        lemma_loads_concat(
                            lc + seq![InstructionModel::LoadMethod(m)] + rc,
                            seq![InstructionModel::CallMethod(1)],
                            n,
                        );
                    }
                }
            }
        },
        ExprModel::UnaryExpression(op, rhs) => {
            law_expr_loads_in_pool(*rhs, pool);
            if let Ok((rc, p1)) = spec_compile_expr(*rhs, pool) {
                if let Some(m) = unary_method(op) {
                    lemma_loads_concat(
                        rc,
                        seq![InstructionModel::LoadMethod(m), InstructionModel::CallMethod(0)],
                        p1.len() as int,
                    );
                }
            }
        },
        ExprModel::FunctionCall(name, args) => {
            law_args_loads_in_pool(args, pool);
            if let Ok((ac, p1)) = spec_compile_args(args, pool) {
                let n = p1.len() as int;
                lemma_loads_concat(seq![InstructionModel::LoadFunction(name)], ac, n);
                lemma_loads_concat(
                    seq![InstructionModel::LoadFunction(name)] + ac,
                    seq![InstructionModel::CallFunction(args.len() as int)],
                    n,
                );
            }
        },
        _ => {},
    }
}

/// The code of the arguments of a call loads only constants of the pool it leaves.
pub proof fn law_args_loads_in_pool(args: Seq<ExprModel>, pool: Seq<ConstModel>)
    ensures
        spec_compile_args(args, pool) matches Ok((c, p2)) ==> loads_within(c, p2.len() as int) && pool.len()
            <= p2.len(),
    decreases args,
{
    if args.len() > 0 {
        assert(decreases_to!(args => args[0]));
        law_expr_loads_in_pool(args[0], pool);
        if let Ok((c0, p1)) = spec_compile_expr(args[0], pool) {
            law_args_loads_in_pool(args.drop_first(), p1);
            if let Ok((cs, p2)) = spec_compile_args(args.drop_first(), p1) {
                lemma_loads_concat(c0, cs, p2.len() as int);
            }
        }
    }
}

proof fn lemma_items_loads(items: Seq<AST>, offset: int, acc: Seq<InstructionModel>, pool: Seq<ConstModel>)
    requires
        loads_within(acc, pool.len() as int),
    ensures
        spec_compile_items(items, offset, acc, pool) matches Ok((c, p2)) ==> loads_within(c, p2.len() as int)
            && pool.len() <= p2.len(),
    decreases items,
{
    if items.len() > 0 {
        assert(decreases_to!(items => items[0]));
        lemma_step_loads(items[0], offset, acc, pool);
        if let Ok((acc2, pool2)) = spec_compile_step(items[0], offset, acc, pool) {
            lemma_items_loads(items.drop_first(), offset, acc2, pool2);
        }
    }
}

proof fn lemma_step_loads(item: AST, offset: int, acc: Seq<InstructionModel>, pool: Seq<ConstModel>)
    requires
        loads_within(acc, pool.len() as int),
    ensures
        spec_compile_step(item, offset, acc, pool) matches Ok((c, p2)) ==> loads_within(c, p2.len() as int)
            && pool.len() <= p2.len(),
    decreases item,
{
    match item {
        AST::Assign { variable_name, expression } => {
            law_expr_loads_in_pool(expression@, pool);
            if let Ok((c, p1)) = spec_compile_expr(expression@, pool) {
                let n = p1.len() as int;
                lemma_loads_concat(acc, c, n);
                lemma_loads_concat(acc + c, seq![InstructionModel::StoreName(variable_name@)], n);
            }
        },
        AST::StandaloneExpr(expression) => {
            law_expr_loads_in_pool(expression@, pool);
            if let Ok((c, p1)) = spec_compile_expr(expression@, pool) {
                lemma_loads_concat(acc, c, p1.len() as int);
            }
        },
        AST::IfStatement { true_branch, elifs, final_else } => {
            assert(decreases_to!(item => true_branch));
            assert(decreases_to!(true_branch => true_branch.statements));
            assert(decreases_to!(true_branch.statements => true_branch.statements@));
            law_expr_loads_in_pool(true_branch.expression@, pool);
            if let Ok((cond, p1)) = spec_compile_expr(true_branch.expression@, pool) {
                let acc1 = acc + cond;
                lemma_loads_concat(acc, cond, p1.len() as int);
                let before_if = offset + acc1.len() + 1;
                lemma_items_loads(true_branch.statements@, before_if, Seq::empty(), p1);
                if let Ok((tb, p2)) = spec_compile_items(true_branch.statements@, before_if, Seq::empty(), p1) {
                    match final_else {
                        Some(else_ast) => {
                            assert(decreases_to!(item => final_else));
                            assert(decreases_to!(final_else => else_ast));
                            assert(decreases_to!(else_ast => else_ast@));
                            let after_true = before_if + tb.len() + 1;
                            lemma_items_loads(else_ast@, after_true, Seq::empty(), p2);
                            if let Ok((fb, p3)) = spec_compile_items(else_ast@, after_true, Seq::empty(), p2) {
                                let after_else = after_true + fb.len();
                                let n = p3.len() as int;
                                let j1 = seq![InstructionModel::JumpIfFalseAndPopStack(after_true)];
                                let j2 = seq![InstructionModel::JumpUnconditional(after_else)];
                                lemma_loads_concat(acc1, j1, n);
                                lemma_loads_concat(acc1 + j1, tb, n);
                                lemma_loads_concat(acc1 + j1 + tb, j2, n);
                                lemma_loads_concat(acc1 + j1 + tb + j2, fb, n);
                            }
                        },
                        None => {
                            let after_true = before_if + tb.len();
                            let n = p2.len() as int;
                            let j1 = seq![InstructionModel::JumpIfFalseAndPopStack(after_true)];
                            lemma_loads_concat(acc1, j1, n);
                            lemma_loads_concat(acc1 + j1, tb, n);
                        },
                    }
                }
            }
        },
        AST::WhileStatement { expression, body } => {
            assert(decreases_to!(item => body));
            assert(decreases_to!(body => body@));
            law_expr_loads_in_pool(expression@, pool);
            if let Ok((ce, p1)) = spec_compile_expr(expression@, pool) {
                let after_expr: int = offset + acc.len() + ce.len() + 1;
                lemma_items_loads(body@, after_expr, Seq::empty(), p1);
                if let Ok((cb, p2)) = spec_compile_items(body@, after_expr, Seq::empty(), p1) {
                    let after_body: int = after_expr + cb.len() as int + 1;
                    let before_while = acc.len() + offset;
                    let n = p2.len() as int;
                    let j1 = seq![InstructionModel::JumpIfFalseAndPopStack(after_body)];
                    let j2 = seq![InstructionModel::JumpUnconditional(before_while)];
                    lemma_loads_concat(acc, ce, n);
                    lemma_loads_concat(acc + ce, j1, n);
                    lemma_loads_resolve(cb, after_body, n);
                    lemma_loads_concat(acc + ce + j1, resolve_breaks(cb, after_body), n);
                    lemma_loads_concat(acc + ce + j1 + resolve_breaks(cb, after_body), j2, n);
                }
            }
        },
        AST::Break => {
            lemma_loads_concat(acc, seq![InstructionModel::UnresolvedBreak], pool.len() as int);
            assert(acc.push(InstructionModel::UnresolvedBreak) =~= acc + seq![InstructionModel::UnresolvedBreak]);
        },
    }
}

/// Every constant that a compiled program loads is in its constant pool.
pub proof fn law_compiled_loads_in_pool(ast: Seq<AST>)
    ensures
        spec_compile(ast) matches Ok((pool, code)) ==> loads_within(code, pool.len() as int),
{
    lemma_items_loads(ast, 0, Seq::empty(), Seq::empty());
}

/// The pool of a compiled program holds no constant twice.
pub proof fn law_compiled_pool_distinct(ast: Seq<AST>)
    ensures
        spec_compile(ast) matches Ok((pool, code)) ==> distinct_consts(pool),
{
    lemma_items_pool(ast, 0, Seq::empty(), Seq::empty());
}

/// The code of a statement placed after `acc` is `acc` followed by the code of
/// that statement compiled on its own at the index where `acc` ends.
proof fn lemma_step_shift(item: AST, offset: int, acc: Seq<InstructionModel>, pool: Seq<ConstModel>)
    ensures
        spec_compile_step(item, offset, acc, pool) == prepend_code(
            acc,
            spec_compile_step(item, offset + acc.len(), Seq::empty(), pool),
        ),
{
    let e = Seq::<InstructionModel>::empty();
    match item {
        AST::Assign { variable_name, expression } => {
            if let Ok((c, p1)) = spec_compile_expr(expression@, pool) {
                let j = seq![InstructionModel::StoreName(variable_name@)];
                assert(acc + c + j =~= acc + (e + c + j));
            }
        },
        AST::StandaloneExpr(expression) => {
            if let Ok((c, p1)) = spec_compile_expr(expression@, pool) {
                assert(acc + c =~= acc + (e + c));
            }
        },
        AST::IfStatement { true_branch, elifs, final_else } => {
            if let Ok((cond, p1)) = spec_compile_expr(true_branch.expression@, pool) {
                assert((acc + cond).len() == acc.len() + (e + cond).len());
                let before_if = offset + (acc + cond).len() + 1;
                if let Ok((tb, p2)) = spec_compile_items(true_branch.statements@, before_if, e, p1) {
                    match final_else {
                        Some(else_ast) => {
                            let after_true = before_if + tb.len() + 1;
                            if let Ok((fb, p3)) = spec_compile_items(else_ast@, after_true, e, p2) {
                                let j1 = seq![InstructionModel::JumpIfFalseAndPopStack(after_true)];
                                let j2 = seq![InstructionModel::JumpUnconditional(after_true + fb.len())];
                                assert(acc + cond + j1 + tb + j2 + fb =~= acc + (e + cond + j1 + tb + j2 + fb));
                            }
                        },
                        None => {
                            let j1 = seq![InstructionModel::JumpIfFalseAndPopStack(before_if + tb.len())];
                            assert(acc + cond + j1 + tb =~= acc + (e + cond + j1 + tb));
                        },
                    }
                }
            }
        },
        AST::WhileStatement { expression, body } => {
            if let Ok((ce, p1)) = spec_compile_expr(expression@, pool) {
                let after_expr: int = offset + acc.len() + ce.len() + 1;
                if let Ok((cb, p2)) = spec_compile_items(body@, after_expr, e, p1) {
                    let after_body: int = after_expr + cb.len() as int + 1;
                    let j1 = seq![InstructionModel::JumpIfFalseAndPopStack(after_body)];
                    let j2 = seq![InstructionModel::JumpUnconditional(acc.len() + offset)];
                    let rb = resolve_breaks(cb, after_body);
                    assert(acc + ce + j1 + rb + j2 =~= acc + (e + ce + j1 + rb + j2));
                }
            }
        },
        AST::Break => {
            assert(acc.push(InstructionModel::UnresolvedBreak) =~= acc + e.push(InstructionModel::UnresolvedBreak));
        },
    }
}

/// The code of statements placed after `acc` is `acc` followed by the code of
/// those statements compiled on their own at the index where `acc` ends.
proof fn lemma_items_shift(items: Seq<AST>, offset: int, acc: Seq<InstructionModel>, pool: Seq<ConstModel>)
    ensures
        spec_compile_items(items, offset, acc, pool) == prepend_code(
            acc,
            spec_compile_items(items, offset + acc.len(), Seq::empty(), pool),
        ),
    decreases items.len(),
{
    let e = Seq::<InstructionModel>::empty();
    if items.len() == 0 {
        assert(acc + e =~= acc);
    } else {
        lemma_step_shift(items[0], offset, acc, pool);
        lemma_step_shift(items[0], offset + acc.len(), e, pool);
        assert(e + e =~= e);
        if let Ok((c0, p1)) = spec_compile_step(items[0], offset + acc.len(), e, pool) {
            assert(e + c0 =~= c0);
            lemma_items_shift(items.drop_first(), offset, acc + c0, p1);
            lemma_items_shift(items.drop_first(), offset + acc.len(), c0, p1);
            if let Ok((x, p2)) = spec_compile_items(items.drop_first(), offset + acc.len() + c0.len(), e, p1) {
                assert(acc + (c0 + x) =~= acc + c0 + x);
            }
        }
    }
}

/// The code of `a ++ b` is the code of `a` followed by that of `b`, with `b`
/// compiled from where `a` left the instructions and the pool.
proof fn lemma_items_concat(
    a: Seq<AST>,
    b: Seq<AST>,
    offset: int,
    acc: Seq<InstructionModel>,
    pool: Seq<ConstModel>,
)
    ensures
        spec_compile_items(a + b, offset, acc, pool) == match spec_compile_items(a, offset, acc, pool) {
            Ok((c, p)) => spec_compile_items(b, offset, c, p),
            Err(e) => Err(e),
        },
    decreases a.len(),
{
    if a.len() == 0 {
        assert(a + b =~= b);
    } else {
        assert((a + b)[0] == a[0]);
        assert((a + b).drop_first() =~= a.drop_first() + b);
        if let Ok((acc2, pool2)) = spec_compile_step(a[0], offset, acc, pool) {
            lemma_items_concat(a.drop_first(), b, offset, acc2, pool2);
        }
    }
}

/// Jump targets are absolute: compiled on its own at index `offset`, an `if`
/// with an `else` ends its true branch with a jump to the index just after the
/// whole statement, its conditional jump going to the instruction just after
/// that one; a `while` ends with a jump back to its first instruction, and its
/// conditional jump goes to the index just after the whole statement.
pub proof fn law_branch_targets(item: AST, offset: int, pool: Seq<ConstModel>)
    ensures
        (item matches AST::IfStatement { final_else, .. } && final_else is Some) ==> (spec_compile_step(
            item,
            offset,
            Seq::empty(),
            pool,
        ) matches Ok((c, p)) ==> exists|i: int, j: int|
            0 <= i < j < c.len() && c[i] == InstructionModel::JumpIfFalseAndPopStack(offset + j + 1) && c[j]
                == InstructionModel::JumpUnconditional(offset + c.len())),
        item is WhileStatement ==> (spec_compile_step(item, offset, Seq::empty(), pool) matches Ok((c, p))
            ==> c.len() > 0 && c.last() == InstructionModel::JumpUnconditional(offset) && exists|i: int|
            0 <= i < c.len() && c[i] == InstructionModel::JumpIfFalseAndPopStack(offset + c.len())),
{
    let e = Seq::<InstructionModel>::empty();
    match item {
        AST::IfStatement { true_branch, elifs, final_else } => {
            if let Ok((cond, p1)) = spec_compile_expr(true_branch.expression@, pool) {
                let before_if = offset + (e + cond).len() + 1;
                if let Ok((tb, p2)) = spec_compile_items(true_branch.statements@, before_if, e, p1) {
                    if let Some(else_ast) = final_else {
                        let after_true = before_if + tb.len() + 1;
                        if let Ok((fb, p3)) = spec_compile_items(else_ast@, after_true, e, p2) {
                            let c = e + cond + seq![InstructionModel::JumpIfFalseAndPopStack(after_true)] + tb
                                + seq![InstructionModel::JumpUnconditional(after_true + fb.len())] + fb;
                            let i = cond.len() as int;
                            let j = i + tb.len() + 1;
                            assert(c[i] == InstructionModel::JumpIfFalseAndPopStack(offset + j + 1));
                            assert(c[j] == InstructionModel::JumpUnconditional(offset + c.len()));
                        }
                    }
                }
            }
        },
        AST::WhileStatement { expression, body } => {
            if let Ok((ce, p1)) = spec_compile_expr(expression@, pool) {
                let after_expr: int = offset + ce.len() + 1;
                if let Ok((cb, p2)) = spec_compile_items(body@, after_expr, e, p1) {
                    let after_body: int = after_expr + cb.len() as int + 1;
                    let rb = resolve_breaks(cb, after_body);
                    let c = e + ce + seq![InstructionModel::JumpIfFalseAndPopStack(after_body)] + rb + seq![
                        InstructionModel::JumpUnconditional(e.len() + offset),
                    ];
                    assert(c[ce.len() as int] == InstructionModel::JumpIfFalseAndPopStack(offset + c.len()));
                }
            }
        },
        _ => {},
    }
}

/// The code of `l op r` when `op` calls the method `m`: the code of `l`, a load
/// of its method `m`, the code of `r` compiled with the pool that `l` left, and
/// a call with one argument.
pub open spec fn binary_call_code(l: ExprModel, m: Seq<char>, r: ExprModel, pool: Seq<ConstModel>) -> CompileResult {
    match spec_compile_expr(l, pool) {
        Err(x) => Err(x),
        Ok((lc, p1)) => match spec_compile_expr(r, p1) {
            Err(x) => Err(x),
            Ok((rc, p2)) => Ok((lc + seq![InstructionModel::LoadMethod(m)] + rc + seq![InstructionModel::CallMethod(1)], p2)),
        },
    }
}

/// A binary expression compiles to a call of the left operand's method for the
/// operator with the right operand: `__add__` for `+`, `__sub__` for `-`,
/// `__mul__` for `*`, `__truediv__` for `/`, `__eq__` for `==` and `__ne__` for
/// `!=`; the shift operators and `!` are not compiled.
pub proof fn law_binary_compiles_to_method_call(l: ExprModel, op: Operator, r: ExprModel, pool: Seq<ConstModel>)
    ensures
        op == Operator::Plus ==> spec_compile_expr(ExprModel::BinaryOperation(Box::new(l), op, Box::new(r)), pool)
            == binary_call_code(l, "__add__"@, r, pool),
        op == Operator::Minus ==> spec_compile_expr(ExprModel::BinaryOperation(Box::new(l), op, Box::new(r)), pool)
            == binary_call_code(l, "__sub__"@, r, pool),
        op == Operator::Multiply ==> spec_compile_expr(ExprModel::BinaryOperation(Box::new(l), op, Box::new(r)), pool)
            == binary_call_code(l, "__mul__"@, r, pool),
        op == Operator::Divide ==> spec_compile_expr(ExprModel::BinaryOperation(Box::new(l), op, Box::new(r)), pool)
            == binary_call_code(l, "__truediv__"@, r, pool),
        op == Operator::Equals ==> spec_compile_expr(ExprModel::BinaryOperation(Box::new(l), op, Box::new(r)), pool)
            == binary_call_code(l, "__eq__"@, r, pool),
        op == Operator::NotEquals ==> spec_compile_expr(ExprModel::BinaryOperation(Box::new(l), op, Box::new(r)), pool)
            == binary_call_code(l, "__ne__"@, r, pool),
        op == Operator::BitShiftLeft || op == Operator::BitShiftRight || op == Operator::Not ==> spec_compile_expr(
            ExprModel::BinaryOperation(Box::new(l), op, Box::new(r)),
            pool,
        ) == Err::<(Seq<InstructionModel>, Seq<ConstModel>), CompileError>(CompileError::OperatorNotImplemented(op)),
{
}

/// An assignment `x = e` compiles to the code of `e` followed by a store under
/// `x`, and a standalone expression to its code alone; a variable compiles to
/// a load of its name, leaving the pool as it was; a call `f(a1, .., an)`
/// compiles to a load of `f`, the code of the arguments left to right, and a
/// call with `n` arguments.
pub proof fn law_simple_compiles(
    x: String,
    e: Expr,
    name: Seq<char>,
    f: Seq<char>,
    args: Seq<ExprModel>,
    offset: int,
    pool: Seq<ConstModel>,
)
    ensures
        spec_compile_step(AST::Assign { variable_name: x, expression: e }, offset, Seq::empty(), pool) == match spec_compile_expr(
            e@,
            pool,
        ) {
            Ok((c, p)) => Ok((c.push(InstructionModel::StoreName(x@)), p)),
            Err(err) => Err(err),
        },
        spec_compile_step(AST::StandaloneExpr(e), offset, Seq::empty(), pool) == spec_compile_expr(e@, pool),
        spec_compile_expr(ExprModel::Variable(name), pool) == Ok::<(Seq<InstructionModel>, Seq<ConstModel>), CompileError>(
            (seq![InstructionModel::LoadName(name)], pool),
        ),
        spec_compile_expr(ExprModel::FunctionCall(f, args), pool) == match spec_compile_args(args, pool) {
            Ok((c, p)) => Ok(
                (seq![InstructionModel::LoadFunction(f)] + c + seq![InstructionModel::CallFunction(args.len() as int)], p),
            ),
            Err(err) => Err(err),
        },
{
    if let Ok((c, p)) = spec_compile_expr(e@, pool) {
        assert(Seq::<InstructionModel>::empty() + c + seq![InstructionModel::StoreName(x@)] =~= c.push(
            InstructionModel::StoreName(x@),
        ));
        assert(Seq::<InstructionModel>::empty() + c =~= c);
    }
}

/// A unary expression compiles to its operand's code followed by a call of the
/// operand's method for the operator: `__pos__` for `+`, `__neg__` for `-` and
/// `__not__` for `!`, with no arguments; the pool is the operand's.
pub proof fn law_unary_compiles_to_method_call(e: ExprModel, pool: Seq<ConstModel>)
    ensures
        spec_compile_expr(ExprModel::UnaryExpression(Operator::Plus, Box::new(e)), pool) == match spec_compile_expr(
            e,
            pool,
        ) {
            Ok((c, p)) => Ok(
                (c + seq![InstructionModel::LoadMethod("__pos__"@), InstructionModel::CallMethod(0)], p),
            ),
            Err(x) => Err(x),
        },
        spec_compile_expr(ExprModel::UnaryExpression(Operator::Minus, Box::new(e)), pool) == match spec_compile_expr(
            e,
            pool,
        ) {
            Ok((c, p)) => Ok(
                (c + seq![InstructionModel::LoadMethod("__neg__"@), InstructionModel::CallMethod(0)], p),
            ),
            Err(x) => Err(x),
        },
        spec_compile_expr(ExprModel::UnaryExpression(Operator::Not, Box::new(e)), pool) == match spec_compile_expr(
            e,
            pool,
        ) {
            Ok((c, p)) => Ok(
                (c + seq![InstructionModel::LoadMethod("__not__"@), InstructionModel::CallMethod(0)], p),
            ),
            Err(x) => Err(x),
        },
{
}

/// Compiling a block `a ++ b` at index `offset` gives the code of `a`, then the
/// code of `b` compiled at the index where the code of `a` ends, with the pool
/// that `a` left: jump targets are absolute instruction indices.
pub proof fn law_compile_concat(a: Seq<AST>, b: Seq<AST>, offset: int, pool: Seq<ConstModel>)
    ensures
        spec_compile_ast(a + b, offset, pool) == match spec_compile_ast(a, offset, pool) {
            Ok((x, p)) => prepend_code(x, spec_compile_ast(b, offset + x.len(), p)),
            Err(e) => Err(e),
        },
{
    lemma_items_concat(a, b, offset, Seq::empty(), pool);
    if let Ok((x, p)) = spec_compile_ast(a, offset, pool) {
        lemma_items_shift(b, offset, x, p);
    }
}

proof fn lemma_items_pool(items: Seq<AST>, offset: int, acc: Seq<InstructionModel>, pool: Seq<ConstModel>)
    requires
        distinct_consts(pool),
    ensures
        spec_compile_items(items, offset, acc, pool) matches Ok((c, p2)) ==> distinct_consts(p2),
    decreases items,
{
    if items.len() > 0 {
        assert(decreases_to!(items => items[0]));
        lemma_step_pool(items[0], offset, acc, pool);
        if let Ok((acc2, pool2)) = spec_compile_step(items[0], offset, acc, pool) {
            lemma_items_pool(items.drop_first(), offset, acc2, pool2);
        }
    }
}

proof fn lemma_step_pool(item: AST, offset: int, acc: Seq<InstructionModel>, pool: Seq<ConstModel>)
    requires
        distinct_consts(pool),
    ensures
        spec_compile_step(item, offset, acc, pool) matches Ok((c, p2)) ==> distinct_consts(p2),
    decreases item,
{
    match item {
        AST::Assign { variable_name, expression } => {
            law_compile_expr_pool(expression@, pool);
        },
        AST::StandaloneExpr(expression) => {
            law_compile_expr_pool(expression@, pool);
        },
        AST::IfStatement { true_branch, elifs, final_else } => {
            assert(decreases_to!(item => true_branch));
            assert(decreases_to!(true_branch => true_branch.statements));
            assert(decreases_to!(true_branch.statements => true_branch.statements@));
            law_compile_expr_pool(true_branch.expression@, pool);
            if let Ok((cond, p1)) = spec_compile_expr(true_branch.expression@, pool) {
                let before_if = offset + (acc + cond).len() + 1;
                lemma_items_pool(true_branch.statements@, before_if, Seq::empty(), p1);
                if let Ok((tb, p2)) = spec_compile_items(true_branch.statements@, before_if, Seq::empty(), p1) {
                    if let Some(else_ast) = final_else {
                        assert(decreases_to!(item => final_else));
                        assert(decreases_to!(final_else => else_ast));
                        assert(decreases_to!(else_ast => else_ast@));
                        let after_true = before_if + tb.len() + 1;
                        lemma_items_pool(else_ast@, after_true, Seq::empty(), p2);
                    }
                }
            }
        },
        AST::WhileStatement { expression, body } => {
            assert(decreases_to!(item => body));
            assert(decreases_to!(body => body@));
            law_compile_expr_pool(expression@, pool);
            if let Ok((ce, p1)) = spec_compile_expr(expression@, pool) {
                let after_expr: int = offset + acc.len() + ce.len() + 1;
                lemma_items_pool(body@, after_expr, Seq::empty(), p1);
            }
        },
        AST::Break => {},
    }
}

/// The expression that a token sequence denotes never fails to compile for a
/// parenthesis node.
pub proof fn law_parsed_expression_compiles(t: Seq<crate::lexer::TokenModel>, pool: Seq<ConstModel>)
    ensures
        spec_parse(t) matches Ok(e) ==> spec_compile_expr(e, pool) != Err::<
            (Seq<InstructionModel>, Seq<ConstModel>),
            CompileError,
        >(CompileError::ParenthesizedExpression),
{
    law_parse_paren_free(t);
    if let Ok(e) = spec_parse(t) {
        law_paren_free_compiles(e, pool);
    }
}

} // verus!
