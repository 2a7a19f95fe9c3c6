use horse::compiler::{compile, try_compile, CompileError, Const, Instruction, IfStatementBranch, Program, AST};
use horse::instructions::{
    binary_operation_query, compare_operation_query, execute_instructions, execute_program, handle_binary_operation_answered,
    handle_compare_operation_answered, handle_function_call, handle_jump_if_false_pop, handle_load_function, handle_load_method,
    handle_load_name, handle_method_call,
    handle_build_list, handle_index_access, handle_store_name,
};
use horse::lexer::{tokenize, Float, Operator, Token};
use horse::parser::{parse, try_parse, Expr, ParseError};
use horse::runtime::builtins::register_builtins;
use horse::runtime::error::RuntimeError;
use horse::runtime::floats::{FloatAnswer, FloatHost, FloatOperand, FloatQuery};
use horse::runtime::machine::{Runtime, SpecialValue, BUILTIN_MODULE, MAIN_MODULE};
use horse::runtime::memory::Memory;
use horse::runtime::object::{ArithOp, BuiltInTypeData, CompareOp, FloatUnaryOp, NativeFunction, PyObject, PyObjectStructure};
use horse::text::{concatenate, int_to_string};

/// Float computations on `f64`, answered with the values' `{:?}` text.
struct F64Host;

fn value(o: &FloatOperand) -> f64 {
    match o {
        FloatOperand::Int(i) => *i as f64,
        FloatOperand::Float(f) => f.0.parse::<f64>().unwrap(),
    }
}

fn float_answer(x: f64) -> FloatAnswer {
    FloatAnswer::Float(Float(format!("{:?}", x)))
}

impl FloatHost for F64Host {
    fn compute(&self, query: &FloatQuery) -> FloatAnswer {
        match query {
            FloatQuery::Arith(op, a, b) => {
                let (x, y) = (value(a), value(b));
                float_answer(match op {
                    ArithOp::Add => x + y,
                    ArithOp::Sub => x - y,
                    ArithOp::Mul => x * y,
                    ArithOp::Mod => x % y,
                    ArithOp::TrueDiv => x / y,
                })
            }
            FloatQuery::Compare(op, a, b) => {
                let (x, y) = (value(a), value(b));
                FloatAnswer::Bool(match op {
                    CompareOp::Eq => x == y,
                    CompareOp::Ne => x != y,
                    CompareOp::Lt => x < y,
                    CompareOp::Le => x <= y,
                    CompareOp::Gt => x > y,
                    CompareOp::Ge => x >= y,
                })
            }
            FloatQuery::Unary(op, a) => {
                let x = value(a);
                match op {
                    FloatUnaryOp::Neg => float_answer(x * -1.0),
                    FloatUnaryOp::Pos | FloatUnaryOp::FromInt => float_answer(x),
                    FloatUnaryOp::Bool => FloatAnswer::Bool(x != 0.0),
                    FloatUnaryOp::Int => FloatAnswer::Int(x as i128),
                    FloatUnaryOp::Str | FloatUnaryOp::Repr => FloatAnswer::Text(format!("{:?}", x)),
                    FloatUnaryOp::Sin => float_answer(x.sin()),
                    FloatUnaryOp::Cos => float_answer(x.cos()),
                    FloatUnaryOp::Tanh => float_answer(x.tanh()),
                }
            }
        }
    }
}

/// A host that never answers.
struct FailingHost;

impl FloatHost for FailingHost {
    fn compute(&self, _query: &FloatQuery) -> FloatAnswer {
        FloatAnswer::Failed
    }
}

fn runtime() -> Runtime {
    let mut interpreter = Runtime::new();
    register_builtins(&mut interpreter).unwrap();
    interpreter
}

fn expr(source: &str) -> Expr {
    parse(tokenize(source).unwrap())
}

fn assign(name: &str, source: &str) -> AST {
    AST::Assign { variable_name: name.to_string(), expression: expr(source) }
}

fn int_obj(interpreter: &mut Runtime, value: i128) -> usize {
    interpreter.allocate_builtin_type_byname_raw("int", BuiltInTypeData::Int(value)).unwrap()
}

fn str_obj(interpreter: &mut Runtime, text: &str) -> usize {
    interpreter.allocate_builtin_type_byname_raw("str", BuiltInTypeData::String(text.to_string())).unwrap()
}

fn int_of(interpreter: &Runtime, addr: usize) -> i128 {
    interpreter.get_raw_data_of_pyobj(addr).unwrap().take_int()
}

fn str_of(interpreter: &Runtime, addr: usize) -> String {
    interpreter.get_raw_data_of_pyobj(addr).unwrap().take_string()
}

fn call(interpreter: &mut Runtime, addr: usize, name: &str, args: Vec<usize>) -> Result<Option<usize>, RuntimeError> {
    interpreter.call_method(addr, name, &args, &F64Host)
}

/// Runs the statements and gives the runtime and the outcome.
fn run_statements(ast: Vec<AST>, max_steps: usize) -> (Runtime, Result<(), RuntimeError>) {
    let mut interpreter = runtime();
    let program = compile(ast);
    let r = execute_program(&mut interpreter, &program, &F64Host, max_steps);
    (interpreter, r)
}

fn run_expr(source: &str) -> (Runtime, Result<(), RuntimeError>) {
    run_statements(vec![AST::StandaloneExpr(expr(source))], 10_000)
}

// ---------------------------------------------------------------- lexer

#[test]
fn tokenizer_identifiers_calls_and_commas() {
    let result = tokenize("f(x_1, 2)").unwrap();
    assert_eq!(
        result,
        [
            Token::Identifier("f".to_string()),
            Token::Operator(Operator::OpenParen),
            Token::Identifier("x_1".to_string()),
            Token::Comma,
            Token::LiteralInteger(2),
            Token::Operator(Operator::CloseParen),
        ]
    );
}

#[test]
fn tokenizer_unrecognized_token_message() {
    assert_eq!(tokenize("10 ^ 12"), Err("Unrecognized token ^".to_string()));
}

#[test]
fn tokenizer_integer_too_large() {
    let big = "170141183460469231731687303715884105728";
    assert_eq!(tokenize(big), Err(format!("Error parsing integer value {}", big)));
    assert_eq!(
        tokenize("170141183460469231731687303715884105727"),
        Ok(vec![Token::LiteralInteger(i128::MAX)])
    );
}

#[test]
fn tokenizer_float_without_exponent_digits() {
    assert_eq!(tokenize("1e"), Err("Error parsing float value 1e".to_string()));
}

#[test]
fn tokenizer_empty_and_blank() {
    assert_eq!(tokenize(""), Ok(vec![]));
    assert_eq!(tokenize("  \t\n "), Ok(vec![]));
}

// ---------------------------------------------------------------- parser

#[test]
fn parser_errors() {
    assert_eq!(try_parse(&tokenize("(1 + 2").unwrap()), Err(ParseError::MismatchedParens));
    assert_eq!(try_parse(&vec![]), Err(ParseError::EmptyOperandStack));
    assert_eq!(
        try_parse(&tokenize("1 +").unwrap()),
        Ok(Expr::UnaryExpression(Operator::Plus, Expr::new_int(1)))
    );
    assert_eq!(try_parse(&tokenize("1 2").unwrap()), Err(ParseError::UnparsedOperands));
    assert_eq!(try_parse(&tokenize("f(1").unwrap()), Err(ParseError::MissingCloseParen));
    assert_eq!(try_parse(&tokenize("1, 2").unwrap()), Ok(Expr::IntegerValue(1)));
}

#[test]
fn parser_division_binds_tighter_than_minus() {
    let expected = Expr::BinaryOperation(
        Expr::new_int(8),
        Operator::Minus,
        Box::new(Expr::BinaryOperation(Expr::new_int(4), Operator::Divide, Expr::new_int(2))),
    );
    assert_eq!(expr("8 - 4 / 2"), expected);
}

#[test]
fn parser_output_has_no_parentheses() {
    let e = expr("((f((1)) + (2)))");
    let expected = Expr::BinaryOperation(
        Box::new(Expr::FunctionCall("f".to_string(), vec![Expr::IntegerValue(1)])),
        Operator::Plus,
        Expr::new_int(2),
    );
    assert_eq!(e, expected);
}

// ---------------------------------------------------------------- compiler

#[test]
fn compiler_reuses_constants() {
    let program = compile(vec![AST::StandaloneExpr(expr("1 + 1"))]);
    assert_eq!(program.data, vec![Const::Integer(1)]);
    assert_eq!(
        program.code,
        vec![
            Instruction::LoadConst(0),
            Instruction::LoadMethod("__add__".to_string()),
            Instruction::LoadConst(0),
            Instruction::CallMethod { number_arguments: 1 },
        ]
    );
}

#[test]
fn compiler_pool_holds_every_loaded_constant_once() {
    let program = compile(vec![assign("x", "1 + 2.5"), assign("y", "2.5 * 1 - 3")]);
    assert_eq!(
        program.data,
        vec![Const::Integer(1), Const::Float(Float("2.5".to_string())), Const::Integer(3)]
    );
    for instruction in program.code.iter() {
        if let Instruction::LoadConst(i) = instruction {
            assert!(*i < program.data.len());
        }
    }
}

#[test]
fn compiler_operator_not_implemented() {
    let r = try_compile(vec![AST::StandaloneExpr(expr("1 << 2"))]);
    assert!(matches!(r, Err(CompileError::OperatorNotImplemented(Operator::BitShiftLeft))));
}

#[test]
fn compiler_parenthesized_expression() {
    let r = try_compile(vec![AST::StandaloneExpr(Expr::Parenthesized(Expr::new_int(1)))]);
    assert!(matches!(r, Err(CompileError::ParenthesizedExpression)));
}

#[test]
fn compiler_while_and_break() {
    let program = compile(vec![AST::WhileStatement { expression: expr("x"), body: vec![AST::Break] }]);
    assert_eq!(
        program.code,
        vec![
            Instruction::LoadName("x".to_string()),
            Instruction::JumpIfFalseAndPopStack(4),
            Instruction::JumpUnconditional(4),
            Instruction::JumpUnconditional(0),
        ]
    );
}

// ---------------------------------------------------------------- memory

fn none_object() -> PyObject {
    PyObject { type_addr: 0, structure: PyObjectStructure::NoneObject }
}

#[test]
fn memory_reuses_the_last_freed_cell() {
    let mut memory = Memory::new();
    let a = memory.allocate_and_write(none_object());
    let b = memory.allocate_and_write(none_object());
    assert_eq!((a, b), (0, 1));
    memory.deallocate(a).unwrap();
    let stats = memory.get_statistics();
    assert_eq!((stats.allocated_slots, stats.slots_in_use), (2, 1));
    assert_eq!(stats.slots_in_use + memory.recently_deallocated_indexes.len(), stats.allocated_slots);
    assert_eq!(memory.allocate_and_write(none_object()), 0);
    assert_eq!(memory.allocate_and_write(none_object()), 2);
}

#[test]
fn memory_errors() {
    let mut memory = Memory::new();
    let a = memory.allocate_and_write(none_object());
    assert_eq!(memory.deallocate(5), Err(RuntimeError::InvalidAddress(5)));
    memory.deallocate(a).unwrap();
    assert_eq!(memory.deallocate(a), Err(RuntimeError::AlreadyFreed(0)));
    assert!(matches!(memory.get(a), Err(RuntimeError::InvalidAddress(0))));
    assert_eq!(memory.write(a, none_object()), Err(RuntimeError::InvalidAddress(0)));
    assert_eq!(memory.make_const(a), Err(RuntimeError::InvalidAddress(0)));
}

#[test]
fn memory_constant_cells_are_never_freed() {
    let mut memory = Memory::new();
    let a = memory.allocate_and_write(none_object());
    memory.make_const(a).unwrap();
    memory.deallocate(a).unwrap();
    assert!(memory.get(a).is_ok());
    assert_eq!(memory.get_statistics().slots_in_use, 1);
}

// ---------------------------------------------------------------- runtime

#[test]
fn runtime_new_has_special_objects() {
    let interpreter = Runtime::new();
    let stats = interpreter.get_statistics();
    assert_eq!((stats.allocated_slots, stats.slots_in_use), (11, 11));
    assert_eq!(interpreter.find_in_module("__builtin__", "int"), Ok(None));
    assert_eq!(interpreter.find_in_module("nope", "int"), Err(RuntimeError::UnknownModule));
}

#[test]
fn runtime_push_then_pop() {
    let mut interpreter = runtime();
    interpreter.push_onto_stack(42).unwrap();
    interpreter.push_onto_stack(7).unwrap();
    assert_eq!(interpreter.get_stack_offset(0), Ok(7));
    assert_eq!(interpreter.get_stack_offset(-1), Ok(42));
    assert_eq!(interpreter.get_stack_offset(-2), Err(RuntimeError::NoSuchStackEntry));
    assert_eq!(interpreter.pop_stack(), Ok(7));
    assert_eq!(interpreter.top_stack(), Ok(42));
    assert_eq!(interpreter.pop_stack(), Ok(42));
    assert_eq!(interpreter.pop_stack(), Err(RuntimeError::EmptyStack));
    interpreter.pop_stack_frame().unwrap();
    assert_eq!(interpreter.pop_stack(), Err(RuntimeError::NoStackFrame));
}

#[test]
fn runtime_bind_then_get_local() {
    let mut interpreter = runtime();
    interpreter.bind_local("a", 3).unwrap();
    interpreter.bind_local("b", 4).unwrap();
    interpreter.bind_local("a", 5).unwrap();
    assert_eq!(interpreter.get_local("a"), Ok(Some(5)));
    assert_eq!(interpreter.get_local("b"), Ok(Some(4)));
    assert_eq!(interpreter.get_local("c"), Ok(None));
}

#[test]
fn runtime_refcounts() {
    let mut interpreter = runtime();
    let a = int_obj(&mut interpreter, 9);
    interpreter.increase_refcount(a).unwrap();
    interpreter.increase_refcount(a).unwrap();
    assert_eq!(interpreter.get_refcount(a), Ok(2));
    interpreter.decrease_refcount(a).unwrap();
    assert_eq!(interpreter.get_refcount(a), Ok(1));
    interpreter.increase_refcount(a).unwrap();
    interpreter.decrease_refcount(a).unwrap();
    assert_eq!(interpreter.get_refcount(a), Ok(1));
    interpreter.decrease_refcount(a).unwrap();
    assert_eq!(interpreter.get_refcount(a), Err(RuntimeError::InvalidAddress(a)));
    let t = interpreter.builtin_type_addrs.int;
    assert_eq!(interpreter.get_refcount(t), Err(RuntimeError::NotAnObject(t)));
}

#[test]
fn runtime_bool_inherits_int_methods() {
    let interpreter = runtime();
    let b = interpreter.builtin_type_addrs.boolean;
    let i = interpreter.builtin_type_addrs.int;
    let from_bool = interpreter.get_type_method_addr_byname(b, "__add__").unwrap();
    assert!(from_bool.is_some());
    assert_eq!(from_bool, interpreter.get_type_method_addr_byname(i, "__add__").unwrap());
    assert_ne!(
        interpreter.get_type_method_addr_byname(b, "__bool__").unwrap(),
        interpreter.get_type_method_addr_byname(i, "__bool__").unwrap()
    );
    assert_eq!(interpreter.get_type_method_addr_byname(i, "missing"), Ok(None));
    assert_eq!(interpreter.get_type_name(b), Ok("bool"));
}

#[test]
fn runtime_add_to_module_twice() {
    let mut interpreter = runtime();
    assert_eq!(interpreter.add_to_module("__builtin__", "int", 0), Err(RuntimeError::NameExists));
}

#[test]
fn int_arithmetic_and_errors() {
    let mut interpreter = runtime();
    let a = int_obj(&mut interpreter, -7);
    let b = int_obj(&mut interpreter, 2);
    let r = call(&mut interpreter, a, "__sub__", vec![b]).unwrap().unwrap();
    assert_eq!(int_of(&interpreter, r), -9);
    let r = call(&mut interpreter, a, "__mod__", vec![b]).unwrap().unwrap();
    assert_eq!(int_of(&interpreter, r), -1);
    let zero = int_obj(&mut interpreter, 0);
    assert_eq!(call(&mut interpreter, a, "__mod__", vec![zero]), Err(RuntimeError::DivisionByZero));
    let big = int_obj(&mut interpreter, i128::MAX);
    assert_eq!(call(&mut interpreter, big, "__add__", vec![b]), Err(RuntimeError::Overflow));
    let min = int_obj(&mut interpreter, i128::MIN);
    assert_eq!(call(&mut interpreter, min, "__neg__", vec![]), Err(RuntimeError::Overflow));
    assert_eq!(
        call(&mut interpreter, a, "__add__", vec![]),
        Err(RuntimeError::ArgumentCount { expected: 1, got: 0 })
    );
    let s = str_obj(&mut interpreter, "x");
    let not_implemented = interpreter.special_values.not_implemented_value;
    assert_eq!(call(&mut interpreter, a, "__add__", vec![s]), Ok(Some(not_implemented)));
}

#[test]
fn int_comparisons() {
    let mut interpreter = runtime();
    let three = int_obj(&mut interpreter, 3);
    let two = int_obj(&mut interpreter, 2);
    let t = interpreter.builtin_type_addrs.true_val;
    let f = interpreter.builtin_type_addrs.false_val;
    assert_eq!(call(&mut interpreter, three, "__gt__", vec![two]), Ok(Some(t)));
    assert_eq!(call(&mut interpreter, three, "__lt__", vec![two]), Ok(Some(f)));
    assert_eq!(call(&mut interpreter, three, "__ge__", vec![two]), Ok(Some(f)));
    assert_eq!(call(&mut interpreter, two, "__ge__", vec![three]), Ok(Some(t)));
    assert_eq!(call(&mut interpreter, three, "__ne__", vec![two]), Ok(Some(t)));
    assert_eq!(call(&mut interpreter, three, "__bool__", vec![]), Ok(Some(f)));
    let one = int_obj(&mut interpreter, 1);
    assert_eq!(call(&mut interpreter, one, "__bool__", vec![]), Ok(Some(t)));
}

#[test]
fn int_texts() {
    let mut interpreter = runtime();
    let a = int_obj(&mut interpreter, -42);
    let r = call(&mut interpreter, a, "__str__", vec![]).unwrap().unwrap();
    assert_eq!(str_of(&interpreter, r), "-42");
    let m = int_obj(&mut interpreter, i128::MIN);
    let r = call(&mut interpreter, m, "__repr__", vec![]).unwrap().unwrap();
    assert_eq!(str_of(&interpreter, r), i128::MIN.to_string());
    assert_eq!(int_to_string(12), "12");
    assert_eq!(int_to_string(0), "0");
    assert_eq!(concatenate("ab", "cd"), "abcd");
}

#[test]
fn int_true_division_gives_a_float() {
    let mut interpreter = runtime();
    let a = int_obj(&mut interpreter, 1);
    let b = int_obj(&mut interpreter, 2);
    let r = call(&mut interpreter, a, "__truediv__", vec![b]).unwrap().unwrap();
    let text = interpreter.get_raw_data_of_pyobj(r).unwrap().take_float();
    assert_eq!(text.0, "0.5");
    assert_eq!(interpreter.call_method(a, "__truediv__", &vec![b], &FailingHost), Err(RuntimeError::FloatFailed));
}

#[test]
fn str_methods() {
    let mut interpreter = runtime();
    let a = str_obj(&mut interpreter, "ab");
    let b = str_obj(&mut interpreter, "cd");
    let r = call(&mut interpreter, a, "__add__", vec![b]).unwrap().unwrap();
    assert_eq!(str_of(&interpreter, r), "abcd");
    let r = call(&mut interpreter, a, "__repr__", vec![]).unwrap().unwrap();
    assert_eq!(str_of(&interpreter, r), "'ab'");
    let t = interpreter.builtin_type_addrs.true_val;
    let f = interpreter.builtin_type_addrs.false_val;
    let a2 = str_obj(&mut interpreter, "ab");
    assert_eq!(call(&mut interpreter, a, "__eq__", vec![a2]), Ok(Some(t)));
    assert_eq!(call(&mut interpreter, a, "__neq__", vec![b]), Ok(Some(t)));
    let one = int_obj(&mut interpreter, 1);
    assert_eq!(call(&mut interpreter, a, "__eq__", vec![one]), Ok(Some(f)));
    assert_eq!(call(&mut interpreter, a, "__add__", vec![one]), Err(RuntimeError::UnsupportedOperand));
    assert_eq!(call(&mut interpreter, a, "__ne__", vec![b]), Ok(None));
}

#[test]
fn bool_and_none_methods() {
    let mut interpreter = runtime();
    let t = interpreter.builtin_type_addrs.true_val;
    let f = interpreter.builtin_type_addrs.false_val;
    let none = interpreter.special_values.none_value;
    assert_eq!(call(&mut interpreter, t, "__and__", vec![f]), Ok(Some(f)));
    assert_eq!(call(&mut interpreter, t, "__or__", vec![f]), Ok(Some(t)));
    assert_eq!(call(&mut interpreter, t, "__xor__", vec![t]), Ok(Some(f)));
    assert_eq!(call(&mut interpreter, f, "__not__", vec![]), Ok(Some(t)));
    let one = int_obj(&mut interpreter, 1);
    assert_eq!(call(&mut interpreter, t, "__and__", vec![one]), Ok(Some(one)));
    assert_eq!(call(&mut interpreter, f, "__or__", vec![one]), Ok(Some(f)));
    let r = call(&mut interpreter, f, "__str__", vec![]).unwrap().unwrap();
    assert_eq!(str_of(&interpreter, r), "False");
    let r = call(&mut interpreter, t, "__float__", vec![]).unwrap().unwrap();
    assert_eq!(interpreter.get_raw_data_of_pyobj(r).unwrap().take_float().0, "1.0");
    let r = call(&mut interpreter, none, "__str__", vec![]).unwrap().unwrap();
    assert_eq!(str_of(&interpreter, r), "None");
    assert_eq!(call(&mut interpreter, none, "__eq__", vec![none]), Ok(Some(t)));
    assert_eq!(call(&mut interpreter, none, "__eq__", vec![one]), Ok(Some(f)));
    assert_eq!(call(&mut interpreter, none, "__bool__", vec![]), Ok(Some(f)));
}

#[test]
fn data_descriptions() {
    assert_eq!(BuiltInTypeData::Int(-3).to_string(), "-3");
    assert_eq!(BuiltInTypeData::Float(Float("2.5".to_string())).to_string(), "2.5");
    assert_eq!(BuiltInTypeData::String("hi".to_string()).to_string(), "String \"hi\"");
}

// ---------------------------------------------------------------- execution

#[test]
fn execute_print_and_functions() {
    let (interpreter, r) = run_statements(
        vec![
            AST::StandaloneExpr(expr("print(1 + 2)")),
            AST::StandaloneExpr(expr("print(str(4))")),
            AST::StandaloneExpr(expr("print(2.5 * 2)")),
        ],
        1000,
    );
    assert_eq!(r, Ok(()));
    assert_eq!(interpreter.output, vec!["3".to_string(), "4".to_string(), "5.0".to_string()]);
}

#[test]
fn execute_panic_prints_and_stops() {
    let (interpreter, r) = run_expr("panic(7)");
    assert_eq!(r, Err(RuntimeError::ProgramPanicked));
    assert_eq!(interpreter.output, vec!["7".to_string()]);
}

#[test]
fn execute_while_loop() {
    let (interpreter, r) = run_statements(
        vec![
            assign("x", "3"),
            assign("y", "0"),
            AST::WhileStatement {
                expression: expr("x != 0"),
                body: vec![assign("x", "x - 1"), assign("y", "y + 2")],
            },
        ],
        10_000,
    );
    assert_eq!(r, Ok(()));
    let y = interpreter.get_local("y").unwrap().unwrap();
    assert_eq!(int_of(&interpreter, y), 6);
}

#[test]
fn execute_while_with_break() {
    let (interpreter, r) = run_statements(
        vec![
            assign("x", "0"),
            AST::WhileStatement {
                expression: expr("1 == 1"),
                body: vec![
                    assign("x", "x + 1"),
                    AST::IfStatement {
                        true_branch: IfStatementBranch { expression: expr("x == 5"), statements: vec![AST::Break] },
                        elifs: vec![],
                        final_else: None,
                    },
                ],
            },
        ],
        10_000,
    );
    assert_eq!(r, Ok(()));
    let x = interpreter.get_local("x").unwrap().unwrap();
    assert_eq!(int_of(&interpreter, x), 5);
}

#[test]
fn execute_errors() {
    assert_eq!(run_expr("nothing").1, Err(RuntimeError::NoSuchName));
    assert_eq!(run_expr("nothing(1)").1, Err(RuntimeError::NoSuchFunction));
    assert_eq!(run_expr("len(1)").1, Err(RuntimeError::NoSuchMethod));
    assert_eq!(run_expr("print(1, 2)").1, Err(RuntimeError::ArgumentCount { expected: 1, got: 2 }));
    let (_, r) = run_statements(vec![AST::Break], 10);
    assert_eq!(r, Err(RuntimeError::UnresolvedBreak));
    let (_, r) = run_statements(
        vec![AST::WhileStatement { expression: expr("1 == 1"), body: vec![assign("x", "1")] }],
        50,
    );
    assert_eq!(r, Err(RuntimeError::OutOfSteps));
    let mut interpreter = runtime();
    let program = Program { data: vec![], code: vec![Instruction::LoadConst(3)] };
    assert_eq!(execute_program(&mut interpreter, &program, &F64Host, 10), Err(RuntimeError::NoSuchConstant));
}

#[test]
fn execute_leaves_the_value_on_the_stack() {
    let (mut interpreter, r) = run_expr("-(2 * 3) + 10");
    assert_eq!(r, Ok(()));
    let top = interpreter.pop_stack().unwrap();
    assert_eq!(int_of(&interpreter, top), 4);
    let stats = interpreter.get_statistics();
    assert_eq!(stats.slots_in_use + interpreter.memory.recently_deallocated_indexes.len(), stats.allocated_slots);
}

#[test]
fn execute_instructions_by_hand() {
    let mut interpreter = runtime();
    let data = vec![Const::Integer(6), Const::Boolean(true)];
    let code = vec![
        Instruction::LoadConst(1),
        Instruction::JumpIfFalseAndPopStack(4),
        Instruction::LoadConst(0),
        Instruction::JumpUnconditional(5),
        Instruction::LoadConst(1),
    ];
    assert_eq!(execute_instructions(&mut interpreter, &code, &data, &F64Host, 100), Ok(()));
    let top = interpreter.pop_stack().unwrap();
    assert_eq!(int_of(&interpreter, top), 6);
    assert_eq!(interpreter.get_pc(), 5);
}

fn run_code(data: Vec<Const>, code: Vec<Instruction>) -> (Runtime, Result<(), RuntimeError>) {
    let mut interpreter = runtime();
    let r = execute_instructions(&mut interpreter, &code, &data, &F64Host, 1000);
    (interpreter, r)
}

#[test]
fn binary_instructions_on_numbers() {
    let data = vec![Const::Integer(7), Const::Integer(2)];
    let cases = vec![
        (Instruction::BinaryAdd, 9),
        (Instruction::BinarySubtract, 5),
        (Instruction::BinaryMultiply, 14),
        (Instruction::BinaryModulus, 1),
    ];
    for (instruction, expected) in cases {
        let (mut interpreter, r) = run_code(
            data.clone(),
            vec![Instruction::LoadConst(0), Instruction::LoadConst(1), instruction],
        );
        assert_eq!(r, Ok(()));
        let top = interpreter.pop_stack().unwrap();
        assert_eq!(int_of(&interpreter, top), expected);
    }
    let (mut interpreter, r) = run_code(
        data.clone(),
        vec![Instruction::LoadConst(0), Instruction::LoadConst(1), Instruction::BinaryTrueDivision],
    );
    assert_eq!(r, Ok(()));
    let top = interpreter.pop_stack().unwrap();
    assert_eq!(interpreter.get_raw_data_of_pyobj(top).unwrap().take_float().0, "3.5");
}

#[test]
fn binary_instructions_free_temporaries() {
    let data = vec![Const::Integer(7), Const::Integer(2)];
    let (interpreter, r) = run_code(
        data,
        vec![Instruction::LoadConst(0), Instruction::LoadConst(1), Instruction::BinaryAdd],
    );
    assert_eq!(r, Ok(()));
    let before = runtime().get_statistics().slots_in_use;
    assert_eq!(interpreter.get_statistics().slots_in_use, before + 1);
}

#[test]
fn comparison_instructions() {
    let data = vec![Const::Integer(2), Const::Integer(2), Const::Float(Float("2.5".to_string()))];
    let interpreter = runtime();
    let t = interpreter.builtin_type_addrs.true_val;
    let f = interpreter.builtin_type_addrs.false_val;
    let cases = vec![
        (Instruction::CompareGreaterEquals, 1, t),
        (Instruction::CompareGreaterThan, 1, f),
        (Instruction::CompareEquals, 1, t),
        (Instruction::CompareNotEquals, 1, f),
        (Instruction::CompareLessThan, 2, t),
        (Instruction::CompareLessEquals, 2, t),
    ];
    for (instruction, rhs, expected) in cases {
        let (mut interpreter, r) = run_code(
            data.clone(),
            vec![Instruction::LoadConst(0), Instruction::LoadConst(rhs), instruction],
        );
        assert_eq!(r, Ok(()));
        assert_eq!(interpreter.pop_stack(), Ok(expected));
    }
}

#[test]
fn binary_instruction_falls_back_to_methods() {
    let data = vec![Const::String("ab".to_string()), Const::String("cd".to_string())];
    let (mut interpreter, r) = run_code(
        data,
        vec![Instruction::LoadConst(0), Instruction::LoadConst(1), Instruction::BinaryAdd],
    );
    assert_eq!(r, Ok(()));
    let top = interpreter.pop_stack().unwrap();
    assert_eq!(str_of(&interpreter, top), "abcd");
}

#[test]
fn binary_instruction_errors() {
    let data = vec![Const::Integer(7), Const::Integer(0)];
    let (_, r) = run_code(
        data,
        vec![Instruction::LoadConst(0), Instruction::LoadConst(1), Instruction::BinaryModulus],
    );
    assert_eq!(r, Err(RuntimeError::DivisionByZero));
    let (_, r) = run_code(vec![Const::Integer(1)], vec![Instruction::LoadConst(0), Instruction::BinaryAdd]);
    assert_eq!(r, Err(RuntimeError::EmptyStack));
}

#[test]
fn jump_pc_moves_and_refuses_negative_counters() {
    let mut runtime = Runtime::new();
    runtime.set_pc(5);
    assert_eq!(runtime.jump_pc(3), Ok(8));
    assert_eq!(runtime.get_pc(), 8);
    assert_eq!(runtime.jump_pc(-2), Ok(6));
    assert_eq!(runtime.jump_pc(-10), Err(RuntimeError::Overflow));
    assert_eq!(runtime.get_pc(), 6);
}

#[test]
fn find_module_finds_the_builtin_module_only() {
    let runtime = Runtime::new();
    assert!(runtime.find_module(BUILTIN_MODULE).is_ok());
    assert!(matches!(runtime.find_module("nowhere"), Err(RuntimeError::UnknownModule)));
}

#[test]
fn register_bounded_func_by_type_name() {
    let mut runtime = Runtime::new();
    let t = runtime.create_type(BUILTIN_MODULE, "thing", None).unwrap();
    assert_eq!(runtime.get_type_method_addr_byname(t, "__foo__"), Ok(None));
    assert_eq!(runtime.register_bounded_func(BUILTIN_MODULE, "thing", "__foo__", NativeFunction::IntNeg), Ok(()));
    assert!(matches!(runtime.get_type_method_addr_byname(t, "__foo__"), Ok(Some(_))));
    assert_eq!(
        runtime.register_bounded_func(BUILTIN_MODULE, "missing", "__foo__", NativeFunction::IntNeg),
        Err(RuntimeError::NotAType(0))
    );
}

#[test]
fn register_bounded_func_on_addr_adds_a_method() {
    let mut runtime = Runtime::new();
    let t = runtime.create_type(BUILTIN_MODULE, "thing", None).unwrap();
    assert_eq!(runtime.register_bounded_func_on_addr(t, "__bar__", NativeFunction::IntPos), Ok(()));
    assert!(matches!(runtime.get_type_method_addr_byname(t, "__bar__"), Ok(Some(_))));
    assert_eq!(runtime.get_type_method_addr_byname(t, "__baz__"), Ok(None));
}

#[test]
fn type_name_of_an_int_object() {
    let mut runtime = Runtime::new();
    register_builtins(&mut runtime).unwrap();
    let a = runtime.allocate_builtin_type_byname_raw("int", BuiltInTypeData::Int(3)).unwrap();
    assert_eq!(runtime.get_pyobj_type_name(a), Ok("int"));
}

#[test]
fn allocate_struct_keeps_its_type() {
    let mut runtime = Runtime::new();
    let t = runtime.create_type(BUILTIN_MODULE, "thing", None).unwrap();
    let a = runtime.allocate_type_byaddr_raw_struct(t, PyObjectStructure::NoneObject).unwrap();
    let obj = runtime.get_pyobj_byaddr(a).unwrap();
    assert_eq!(obj.type_addr, t);
    assert!(matches!(obj.structure, PyObjectStructure::NoneObject));
}

#[test]
fn stored_constants_are_indexed_in_order() {
    let mut runtime = Runtime::new();
    register_builtins(&mut runtime).unwrap();
    let a = runtime.allocate_builtin_type_byname_raw("int", BuiltInTypeData::Int(1)).unwrap();
    let b = runtime.allocate_builtin_type_byname_raw("int", BuiltInTypeData::Int(2)).unwrap();
    assert_eq!(runtime.get_const(0), None);
    assert_eq!(runtime.store_const(a), Ok(()));
    assert_eq!(runtime.store_const(b), Ok(()));
    assert_eq!(runtime.get_const(0), Some(a));
    assert_eq!(runtime.get_const(1), Some(b));
    assert_eq!(runtime.get_const(2), None);
}

#[test]
fn memory_allocates_builtin_objects() {
    let mut memory = Memory::new();
    let a = memory.allocate_and_write_builtin(0, BuiltInTypeData::Int(7));
    let obj = memory.get(a).unwrap();
    assert_eq!(obj.type_addr, 0);
    match &obj.structure {
        PyObjectStructure::Object { raw_data: BuiltInTypeData::Int(v), refcount } => {
            assert_eq!(*v, 7);
            assert_eq!(*refcount, 0);
        }
        _ => panic!("not an int object"),
    }
    assert_eq!(memory.get_statistics().slots_in_use, 1);
}

#[test]
fn function_addresses_of_functions_and_types() {
    let mut runtime = Runtime::new();
    register_builtins(&mut runtime).unwrap();
    let print = runtime.find_in_module(BUILTIN_MODULE, "print").unwrap().unwrap();
    assert_eq!(runtime.try_load_function_addr(print), Ok(print));
    let str_type = runtime.builtin_type_addrs.string;
    let constructor = runtime.try_load_function_addr(str_type).unwrap();
    assert_ne!(constructor, str_type);
    assert_eq!(runtime.get_function_name(constructor), Ok(String::from("__new__")));
    assert!(matches!(
        runtime.try_load_function(str_type).unwrap().structure,
        PyObjectStructure::NativeCallable { code: NativeFunction::StrNew, .. }
    ));
    let int_type = runtime.builtin_type_addrs.int;
    assert_eq!(runtime.try_load_function_addr(int_type), Err(RuntimeError::NoConstructor));
    let one = runtime.allocate_builtin_type_byname_raw("int", BuiltInTypeData::Int(1)).unwrap();
    assert_eq!(runtime.try_load_function_addr(one), Err(RuntimeError::NotCallable(one)));
}

#[test]
fn function_names() {
    let mut runtime = Runtime::new();
    register_builtins(&mut runtime).unwrap();
    let print = runtime.find_in_module(BUILTIN_MODULE, "print").unwrap().unwrap();
    assert_eq!(runtime.get_function_name(print), Ok(String::from("print")));
    let int_type = runtime.builtin_type_addrs.int;
    assert_eq!(runtime.get_function_name(int_type), Ok(String::from("int")));
    let one = runtime.allocate_builtin_type_byname_raw("int", BuiltInTypeData::Int(1)).unwrap();
    assert_eq!(runtime.get_function_name(one), Ok(String::from("unknown")));
    let nameless = runtime.create_callable_pyobj(NativeFunction::IntNeg, None).unwrap();
    assert_eq!(runtime.get_function_name(nameless), Ok(String::from("unknown")));
}

#[test]
fn functions_are_found_along_supertypes() {
    let mut runtime = Runtime::new();
    let base = runtime.create_type(BUILTIN_MODULE, "base", None).unwrap();
    let derived = runtime.create_type(BUILTIN_MODULE, "derived", Some(base)).unwrap();
    let f = runtime.create_callable_pyobj(NativeFunction::IntNeg, Some(String::from("f"))).unwrap();
    assert_eq!(runtime.get_method_addr_byname(derived, "f"), Ok(None));
    assert_eq!(runtime.register_method_addr_on_type(base, "f", f), Ok(()));
    assert_eq!(runtime.get_method_addr_byname(base, "f"), Ok(Some(f)));
    assert_eq!(runtime.get_method_addr_byname(derived, "f"), Ok(Some(f)));
    assert_eq!(runtime.get_type_method_addr_byname(derived, "f"), Ok(None));
    assert_eq!(runtime.register_method_addr_on_type(f, "g", f), Err(RuntimeError::NotAType(f)));
}

#[test]
fn names_found_through_a_module_address() {
    let mut runtime = Runtime::new();
    register_builtins(&mut runtime).unwrap();
    let module = runtime.find_module_addr(BUILTIN_MODULE).unwrap();
    let print = runtime.find_in_module(BUILTIN_MODULE, "print").unwrap();
    assert!(print.is_some());
    assert_eq!(runtime.find_in_module_addr(module, "print"), Ok(print));
    assert_eq!(runtime.find_in_module_addr(module, "nothing"), Ok(None));
    let int_type = runtime.builtin_type_addrs.int;
    assert_eq!(runtime.find_in_module_addr(int_type, "print"), Err(RuntimeError::NotAModule(int_type)));
}

#[test]
fn clear_stacks_releases_what_the_frames_held() {
    let mut runtime = Runtime::new();
    register_builtins(&mut runtime).unwrap();
    let a = runtime.allocate_builtin_type_byname_raw("int", BuiltInTypeData::Int(41)).unwrap();
    runtime.increase_refcount(a).unwrap();
    runtime.increase_refcount(a).unwrap();
    runtime.push_onto_stack(a).unwrap();
    runtime.new_stack_frame();
    runtime.push_onto_stack(a).unwrap();
    assert_eq!(runtime.stack.len(), 2);
    assert_eq!(runtime.clear_stacks(), Ok(()));
    assert_eq!(runtime.stack.len(), 1);
    assert_eq!(runtime.top_stack(), Err(RuntimeError::EmptyStack));
    assert!(matches!(runtime.get_pyobj_byaddr(a), Err(RuntimeError::InvalidAddress(_))));
}

#[test]
fn print_stack_lists_the_top_first() {
    let mut runtime = Runtime::new();
    register_builtins(&mut runtime).unwrap();
    let a = runtime.allocate_builtin_type_byname_raw("int", BuiltInTypeData::Int(5)).unwrap();
    let none = runtime.special_values.none_value;
    runtime.push_onto_stack(a).unwrap();
    runtime.push_onto_stack(none).unwrap();
    assert_eq!(runtime.print_stack(), Ok(()));
    assert_eq!(
        runtime.output.last().unwrap(),
        &format!("Stack: [[a function]    5 at {}    ]", a)
    );
    runtime.stack.clear();
    assert_eq!(runtime.print_stack(), Err(RuntimeError::NoStackFrame));
}

#[test]
fn compiler_if_else_jumps_to_the_next_statement() {
    let program = compile(vec![
        AST::IfStatement {
            true_branch: IfStatementBranch { expression: expr("x"), statements: vec![assign("y", "1")] },
            elifs: vec![],
            final_else: Some(vec![assign("y", "2")]),
        },
        assign("z", "3"),
    ]);
    assert_eq!(
        program.code,
        vec![
            Instruction::LoadName("x".to_string()),
            Instruction::JumpIfFalseAndPopStack(5),
            Instruction::LoadConst(0),
            Instruction::StoreName("y".to_string()),
            Instruction::JumpUnconditional(7),
            Instruction::LoadConst(1),
            Instruction::StoreName("y".to_string()),
            Instruction::LoadConst(2),
            Instruction::StoreName("z".to_string()),
        ]
    );
}

#[test]
fn execute_statement_after_if_else() {
    let (interpreter, r) = run_statements(
        vec![
            assign("x", "0"),
            AST::IfStatement {
                true_branch: IfStatementBranch { expression: expr("x == 0"), statements: vec![assign("y", "2")] },
                elifs: vec![],
                final_else: Some(vec![assign("y", "3")]),
            },
            assign("z", "5"),
        ],
        1000,
    );
    assert_eq!(r, Ok(()));
    let y = interpreter.get_local("y").unwrap().unwrap();
    assert_eq!(int_of(&interpreter, y), 2);
    let z = interpreter.get_local("z").unwrap().unwrap();
    assert_eq!(int_of(&interpreter, z), 5);
}

#[test]
fn compiler_nested_while_targets_are_absolute() {
    let program = compile(vec![
        assign("x", "3"),
        AST::IfStatement {
            true_branch: IfStatementBranch {
                expression: expr("x"),
                statements: vec![AST::WhileStatement { expression: expr("x"), body: vec![AST::Break] }],
            },
            elifs: vec![],
            final_else: None,
        },
    ]);
    assert_eq!(
        program.code,
        vec![
            Instruction::LoadConst(0),
            Instruction::StoreName("x".to_string()),
            Instruction::LoadName("x".to_string()),
            Instruction::JumpIfFalseAndPopStack(8),
            Instruction::LoadName("x".to_string()),
            Instruction::JumpIfFalseAndPopStack(8),
            Instruction::JumpUnconditional(8),
            Instruction::JumpUnconditional(4),
        ]
    );
}

#[test]
fn execute_while_inside_if() {
    let (interpreter, r) = run_statements(
        vec![
            assign("x", "3"),
            assign("y", "0"),
            AST::IfStatement {
                true_branch: IfStatementBranch {
                    expression: expr("x != 0"),
                    statements: vec![AST::WhileStatement {
                        expression: expr("x != 0"),
                        body: vec![assign("x", "x - 1"), assign("y", "y + 2")],
                    }],
                },
                elifs: vec![],
                final_else: None,
            },
            assign("z", "1"),
        ],
        10_000,
    );
    assert_eq!(r, Ok(()));
    let y = interpreter.get_local("y").unwrap().unwrap();
    assert_eq!(int_of(&interpreter, y), 6);
    let z = interpreter.get_local("z").unwrap().unwrap();
    assert_eq!(int_of(&interpreter, z), 1);
}

#[test]
fn store_under_the_same_name_keeps_the_object() {
    let (mut interpreter, r) = run_statements(vec![assign("x", "1"), assign("x", "x")], 100);
    assert_eq!(r, Ok(()));
    let x = interpreter.get_local("x").unwrap().unwrap();
    assert_eq!(int_of(&interpreter, x), 1);
    assert_eq!(interpreter.get_refcount(x), Ok(1));
    assert_eq!(interpreter.top_stack(), Err(RuntimeError::EmptyStack));
    interpreter.push_onto_stack(x).unwrap();
    assert_eq!(handle_store_name(&mut interpreter, "x"), Ok(()));
    assert_eq!(interpreter.get_local("x"), Ok(Some(x)));
    assert_eq!(interpreter.get_refcount(x), Ok(1));
}

#[test]
fn calls_without_their_values_change_nothing() {
    let (interpreter, r) = run_code(vec![Const::Integer(1)], vec![Instruction::LoadConst(0), Instruction::CallFunction {
        number_arguments: 1,
    }]);
    assert_eq!(r, Err(RuntimeError::EmptyStack));
    assert_eq!(interpreter.get_pc(), 1);
    let top = interpreter.top_stack().unwrap();
    assert_eq!(int_of(&interpreter, top), 1);
    let (interpreter, r) = run_code(vec![Const::Integer(1)], vec![Instruction::LoadConst(0), Instruction::CallMethod {
        number_arguments: 0,
    }]);
    assert_eq!(r, Err(RuntimeError::EmptyStack));
    let top = interpreter.top_stack().unwrap();
    assert_eq!(int_of(&interpreter, top), 1);
}

#[test]
fn loading_a_missing_method_changes_nothing() {
    let (mut interpreter, r) =
        run_code(vec![Const::Integer(1)], vec![Instruction::LoadConst(0), Instruction::LoadMethod("nothing".to_string())]);
    assert_eq!(r, Err(RuntimeError::NoSuchMethod));
    let top = interpreter.pop_stack().unwrap();
    assert_eq!(int_of(&interpreter, top), 1);
    assert_eq!(interpreter.pop_stack(), Err(RuntimeError::EmptyStack));
}

#[test]
fn jump_on_a_value_without_bool_changes_nothing() {
    let (interpreter, r) = run_code(
        vec![Const::String("a".to_string())],
        vec![Instruction::LoadConst(0), Instruction::JumpIfFalseAndPopStack(9)],
    );
    assert_eq!(r, Err(RuntimeError::NoSuchMethod));
    let top = interpreter.top_stack().unwrap();
    assert_eq!(str_of(&interpreter, top), "a");
    assert_eq!(interpreter.get_pc(), 1);
}

#[test]
fn binary_query_names_the_lower_operand_first() {
    let mut interpreter = runtime();
    let seven = int_obj(&mut interpreter, 7);
    let two = int_obj(&mut interpreter, 2);
    interpreter.push_onto_stack(seven).unwrap();
    interpreter.push_onto_stack(two).unwrap();
    assert!(binary_operation_query(&interpreter, ArithOp::Add).is_none());
    assert!(matches!(
        binary_operation_query(&interpreter, ArithOp::TrueDiv),
        Some(FloatQuery::Arith(ArithOp::TrueDiv, FloatOperand::Int(7), FloatOperand::Int(2)))
    ));
    assert!(compare_operation_query(&interpreter, CompareOp::Lt).is_none());
    let answer = FloatAnswer::Float(Float("3.5".to_string()));
    assert_eq!(handle_binary_operation_answered(&mut interpreter, ArithOp::TrueDiv, &answer), Ok(()));
    let top = interpreter.pop_stack().unwrap();
    assert_eq!(interpreter.get_raw_data_of_pyobj(top).unwrap().take_float().0, "3.5");
}

#[test]
fn compare_answered_uses_the_answer() {
    let mut interpreter = runtime();
    let half = interpreter.allocate_builtin_type_byname_raw("float", BuiltInTypeData::Float(Float("0.5".to_string()))).unwrap();
    let one = int_obj(&mut interpreter, 1);
    interpreter.push_onto_stack(half).unwrap();
    interpreter.push_onto_stack(one).unwrap();
    match compare_operation_query(&interpreter, CompareOp::Lt) {
        Some(FloatQuery::Compare(CompareOp::Lt, FloatOperand::Float(f), FloatOperand::Int(1))) => assert_eq!(f.0, "0.5"),
        other => panic!("unexpected query {:?}", other),
    }
    assert_eq!(handle_compare_operation_answered(&mut interpreter, CompareOp::Lt, &FloatAnswer::Bool(true)), Ok(()));
    assert_eq!(interpreter.pop_stack(), Ok(interpreter.builtin_type_addrs.true_val));
}

#[test]
fn take_output_hands_over_the_printed_lines() {
    let (mut interpreter, r) = run_expr("print(3)");
    assert_eq!(r, Ok(()));
    assert_eq!(interpreter.take_output(), vec!["3".to_string()]);
    assert!(interpreter.output.is_empty());
}

#[test]
fn run_function_runs_in_a_frame_of_its_own() {
    let mut interpreter = runtime();
    let print = interpreter.find_in_module(BUILTIN_MODULE, "print").unwrap().unwrap();
    let seven = int_obj(&mut interpreter, 7);
    let frames = interpreter.stack.len();
    let r = interpreter.run_function(print, None, &vec![seven], &F64Host, 100);
    assert_eq!(r, Ok(interpreter.special_values.none_value));
    assert_eq!(interpreter.stack.len(), frames);
    assert_eq!(interpreter.output, vec!["7".to_string()]);
    let str_type = interpreter.builtin_type_addrs.string;
    let empty = interpreter.run_function(str_type, None, &vec![], &F64Host, 100).unwrap();
    assert_eq!(str_of(&interpreter, empty), "");
    assert_eq!(interpreter.get_refcount(empty), Ok(1));
    assert_eq!(interpreter.run_function(seven, None, &vec![], &F64Host, 100), Err(RuntimeError::NotCallable(seven)));
}

fn list_items(interpreter: &Runtime, addr: usize) -> Vec<i128> {
    let items = interpreter.get_list(addr).unwrap();
    items.iter().map(|a| int_of(interpreter, *a)).collect()
}

#[test]
fn build_list_and_index_it() {
    let data = vec![Const::Integer(10), Const::Integer(20), Const::Integer(30), Const::Integer(1)];
    let code = vec![
        Instruction::LoadConst(0),
        Instruction::LoadConst(1),
        Instruction::LoadConst(2),
        Instruction::BuildList { number_elements: 3 },
        Instruction::StoreName("l".to_string()),
        Instruction::LoadName("l".to_string()),
        Instruction::LoadConst(3),
        Instruction::IndexAccess,
    ];
    let (mut interpreter, r) = run_code(data, code);
    assert_eq!(r, Ok(()));
    let top = interpreter.pop_stack().unwrap();
    assert_eq!(int_of(&interpreter, top), 20);
    let l = interpreter.get_local("l").unwrap().unwrap();
    assert_eq!(list_items(&interpreter, l), vec![10, 20, 30]);
    assert_eq!(interpreter.get_pyobj_type_name(l), Ok("list"));
}

#[test]
fn index_outside_the_list_changes_nothing() {
    let data = vec![Const::Integer(10), Const::Integer(1)];
    let code = vec![
        Instruction::LoadConst(0),
        Instruction::BuildList { number_elements: 1 },
        Instruction::LoadConst(1),
        Instruction::IndexAccess,
    ];
    let (interpreter, r) = run_code(data, code);
    assert_eq!(r, Err(RuntimeError::IndexOutOfRange));
    assert_eq!(interpreter.get_pc(), 3);
    let top = interpreter.top_stack().unwrap();
    assert_eq!(int_of(&interpreter, top), 1);
}

#[test]
fn build_list_without_its_values_changes_nothing() {
    let mut interpreter = runtime();
    let one = int_obj(&mut interpreter, 1);
    interpreter.push_onto_stack(one).unwrap();
    assert_eq!(handle_build_list(&mut interpreter, 2), Err(RuntimeError::EmptyStack));
    assert_eq!(interpreter.top_stack(), Ok(one));
    assert_eq!(handle_index_access(&mut interpreter), Err(RuntimeError::EmptyStack));
}

#[test]
fn list_methods_append_extend_concat_len_getitem() {
    let mut interpreter = runtime();
    let a = int_obj(&mut interpreter, 1);
    let b = int_obj(&mut interpreter, 2);
    let c = int_obj(&mut interpreter, 3);
    interpreter.push_onto_stack(a).unwrap();
    interpreter.push_onto_stack(b).unwrap();
    handle_build_list(&mut interpreter, 2).unwrap();
    let first = interpreter.pop_stack().unwrap();
    handle_build_list(&mut interpreter, 0).unwrap();
    let second = interpreter.pop_stack().unwrap();
    assert_eq!(list_items(&interpreter, first), vec![1, 2]);
    assert_eq!(list_items(&interpreter, second), Vec::<i128>::new());
    assert_eq!(call(&mut interpreter, second, "append", vec![c]), Ok(Some(second)));
    assert_eq!(list_items(&interpreter, second), vec![3]);
    assert_eq!(call(&mut interpreter, first, "extend", vec![second]), Ok(Some(first)));
    assert_eq!(list_items(&interpreter, first), vec![1, 2, 3]);
    let joined = call(&mut interpreter, second, "__add__", vec![first]).unwrap().unwrap();
    assert_eq!(list_items(&interpreter, joined), vec![3, 1, 2, 3]);
    let n = call(&mut interpreter, joined, "__len__", vec![]).unwrap().unwrap();
    assert_eq!(int_of(&interpreter, n), 4);
    let two = int_obj(&mut interpreter, 2);
    let item = call(&mut interpreter, joined, "__getitem__", vec![two]).unwrap().unwrap();
    assert_eq!(item, b);
    let minus = int_obj(&mut interpreter, -1);
    assert_eq!(call(&mut interpreter, joined, "__getitem__", vec![minus]), Err(RuntimeError::IndexOutOfRange));
    assert_eq!(call(&mut interpreter, joined, "extend", vec![a]), Err(RuntimeError::UnsupportedOperand));
    assert_eq!(call(&mut interpreter, joined, "__add__", vec![a]), Err(RuntimeError::UnsupportedOperand));
}

#[test]
fn len_of_a_list_through_the_builtin() {
    let data = vec![Const::Integer(5), Const::Integer(6)];
    let code = vec![
        Instruction::LoadFunction("len".to_string()),
        Instruction::LoadConst(0),
        Instruction::LoadConst(1),
        Instruction::BuildList { number_elements: 2 },
        Instruction::CallFunction { number_arguments: 1 },
    ];
    let (mut interpreter, r) = run_code(data, code);
    assert_eq!(r, Ok(()));
    let top = interpreter.pop_stack().unwrap();
    assert_eq!(int_of(&interpreter, top), 2);
}

#[test]
fn raise_ends_the_program_with_the_raised_object() {
    let data = vec![Const::String("boom".to_string()), Const::Integer(1)];
    let code = vec![
        Instruction::LoadConst(0),
        Instruction::Raise,
        Instruction::LoadConst(1),
        Instruction::StoreName("x".to_string()),
    ];
    let (mut interpreter, r) = run_code(data, code);
    let raised = match r {
        Err(RuntimeError::Raised(a)) => a,
        other => panic!("unexpected outcome {:?}", other),
    };
    assert_eq!(str_of(&interpreter, raised), "boom");
    assert_eq!(interpreter.get_pc(), 4);
    assert_eq!(interpreter.get_local("x"), Ok(None));
    assert_eq!(interpreter.pop_stack(), Ok(interpreter.special_values.none_value));
}

#[test]
fn runtime_new_has_main_module_and_stop_iteration() {
    let interpreter = Runtime::new();
    assert_eq!(interpreter.stack.len(), 1);
    assert_eq!(interpreter.find_in_module(MAIN_MODULE, "x"), Ok(None));
    assert_eq!(interpreter.find_in_module(BUILTIN_MODULE, "None"), Ok(None));
    let special = interpreter.special_values;
    assert_eq!(interpreter.get_type_name(special.stop_iteration_type), Ok("StopIteration"));
    assert_eq!(interpreter.get_pyobj_type_addr(special.stop_iteration_value), Ok(special.stop_iteration_type));
    assert_eq!(interpreter.get_type_name(special.none_type), Ok("NoneType"));
    assert_eq!(interpreter.get_type_name(special.type_type), Ok("type"));
    assert_eq!(special.get(SpecialValue::StopIterationValue), special.stop_iteration_value);
    for a in [
        special.type_type,
        special.none_type,
        special.none_value,
        special.not_implemented_type,
        special.not_implemented_value,
        special.stop_iteration_type,
        special.stop_iteration_value,
        special.callable_type,
        special.module_type,
    ] {
        assert!(interpreter.memory.memory[a].is_const);
    }
    let main = interpreter.find_module_addr(MAIN_MODULE).unwrap();
    assert!(interpreter.memory.memory[main].is_const);
    let builtin = interpreter.find_module_addr(BUILTIN_MODULE).unwrap();
    assert!(!interpreter.memory.memory[builtin].is_const);
}

fn adder(interpreter: &mut Runtime) -> usize {
    let ten = int_obj(interpreter, 10);
    interpreter.make_const(ten).unwrap();
    let code = vec![
        Instruction::LoadName("a".to_string()),
        Instruction::LoadName("b".to_string()),
        Instruction::BinaryAdd,
        Instruction::ReturnValue,
        Instruction::LoadConst(0),
    ];
    interpreter
        .allocate_user_defined_function(
            "add".to_string(),
            code,
            vec![Const::Integer(99)],
            vec!["a".to_string(), "b".to_string()],
            vec![ten],
        )
        .unwrap()
}

#[test]
fn user_function_binds_arguments_and_defaults() {
    let mut interpreter = runtime();
    let f = adder(&mut interpreter);
    assert_eq!(interpreter.get_function_name(f), Ok(String::from("unknown")));
    assert_eq!(interpreter.try_load_function_addr(f), Ok(f));
    interpreter.set_pc(7);
    let frames = interpreter.stack.len();
    let three = int_obj(&mut interpreter, 3);
    let r = interpreter.run_function(f, None, &vec![three], &F64Host, 100).unwrap();
    assert_eq!(int_of(&interpreter, r), 13);
    assert_eq!(interpreter.get_refcount(r), Ok(1));
    assert_eq!(interpreter.stack.len(), frames);
    assert_eq!(interpreter.get_pc(), 7);
    let three = int_obj(&mut interpreter, 3);
    let four = int_obj(&mut interpreter, 4);
    let r = interpreter.run_function(f, None, &vec![three, four], &F64Host, 100).unwrap();
    assert_eq!(int_of(&interpreter, r), 7);
    let four = int_obj(&mut interpreter, 4);
    let r = interpreter.run_function(f, Some(four), &vec![], &F64Host, 100).unwrap();
    assert_eq!(int_of(&interpreter, r), 14);
}

#[test]
fn user_function_argument_count_and_budget() {
    let mut interpreter = runtime();
    let f = adder(&mut interpreter);
    assert_eq!(
        interpreter.run_function(f, None, &vec![], &F64Host, 100),
        Err(RuntimeError::ArgumentCount { expected: 2, got: 0 })
    );
    let one = int_obj(&mut interpreter, 1);
    assert_eq!(
        interpreter.run_function(f, None, &vec![one, one, one], &F64Host, 100),
        Err(RuntimeError::ArgumentCount { expected: 2, got: 3 })
    );
    assert_eq!(interpreter.run_function(f, None, &vec![one], &F64Host, 2), Err(RuntimeError::OutOfSteps));
}

#[test]
fn return_value_ends_the_code() {
    let data = vec![Const::Integer(5), Const::Integer(6)];
    let code = vec![Instruction::LoadConst(0), Instruction::ReturnValue, Instruction::LoadConst(1)];
    let (mut interpreter, r) = run_code(data, code);
    assert_eq!(r, Ok(()));
    assert_eq!(interpreter.get_pc(), 3);
    let top = interpreter.pop_stack().unwrap();
    assert_eq!(int_of(&interpreter, top), 5);
    assert_eq!(interpreter.get_refcount(top), Ok(1));
}

#[test]
fn handlers_run_where_their_requirements_hold() {
    let mut interpreter = runtime();
    let one = int_obj(&mut interpreter, 1);
    interpreter.increase_refcount(one).unwrap();
    interpreter.bind_local("x", one).unwrap();
    assert_eq!(handle_load_name(&mut interpreter, "x"), Ok(()));
    assert_eq!(handle_load_method(&mut interpreter, "__neg__"), Ok(()));
    assert_eq!(handle_method_call(&mut interpreter, 0, &F64Host), Ok(()));
    let top = interpreter.top_stack().unwrap();
    assert_eq!(int_of(&interpreter, top), -1);
    assert_eq!(handle_jump_if_false_pop(&mut interpreter, 9, &F64Host), Ok(true));
    assert_eq!(interpreter.get_pc(), 9);
    assert_eq!(handle_load_function(&mut interpreter, "print"), Ok(()));
    assert_eq!(handle_load_name(&mut interpreter, "x"), Ok(()));
    assert_eq!(handle_function_call(&mut interpreter, 1, &F64Host), Ok(()));
    assert_eq!(interpreter.output, vec!["1".to_string()]);
}
