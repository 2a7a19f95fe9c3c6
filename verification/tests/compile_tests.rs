use horse::compiler::{compile, IfStatementBranch, AST};
use horse::instructions::execute_program;
use horse::lexer::{tokenize, Float};
use horse::parser::{parse, Expr};
use horse::runtime::builtins::register_builtins;
use horse::runtime::floats::{FloatAnswer, FloatHost, FloatOperand, FloatQuery};
use horse::runtime::machine::Runtime;
use horse::runtime::object::{ArithOp, CompareOp, FloatUnaryOp};

/// Float computations on `f64`, answered with the values' `{:?}` text.
struct F64Host;

fn value(o: &FloatOperand) -> f64 {
    match o {
        FloatOperand::Int(i) => *i as f64,
        FloatOperand::Float(f) => f.0.parse::<f64>().unwrap(),
    }
}

fn float_answer(x: f64) -> FloatAnswer {
    FloatAnswer::Float(Float(format!("{:?}", x)))
}

impl FloatHost for F64Host {
    fn compute(&self, query: &FloatQuery) -> FloatAnswer {
        match query {
            FloatQuery::Arith(op, a, b) => {
                let (x, y) = (value(a), value(b));
                float_answer(match op {
                    ArithOp::Add => x + y,
                    ArithOp::Sub => x - y,
                    ArithOp::Mul => x * y,
                    ArithOp::Mod => x % y,
                    ArithOp::TrueDiv => x / y,
                })
            }
            FloatQuery::Compare(op, a, b) => {
                let (x, y) = (value(a), value(b));
                FloatAnswer::Bool(match op {
                    CompareOp::Eq => x == y,
                    CompareOp::Ne => x != y,
                    CompareOp::Lt => x < y,
                    CompareOp::Le => x <= y,
                    CompareOp::Gt => x > y,
                    CompareOp::Ge => x >= y,
                })
            }
            FloatQuery::Unary(op, a) => {
                let x = value(a);
                match op {
                    FloatUnaryOp::Neg => float_answer(x * -1.0),
                    FloatUnaryOp::Pos | FloatUnaryOp::FromInt => float_answer(x),
                    FloatUnaryOp::Bool => FloatAnswer::Bool(x != 0.0),
                    FloatUnaryOp::Int => FloatAnswer::Int(x as i128),
                    FloatUnaryOp::Str | FloatUnaryOp::Repr => FloatAnswer::Text(format!("{:?}", x)),
                    FloatUnaryOp::Sin => float_answer(x.sin()),
                    FloatUnaryOp::Cos => float_answer(x.cos()),
                    FloatUnaryOp::Tanh => float_answer(x.tanh()),
                }
            }
        }
    }
}

/// The expression that `source` denotes.
fn expr(source: &str) -> Expr {
    parse(tokenize(source).unwrap())
}

/// A runtime with the builtins, after running the statements `ast`.
fn run(ast: Vec<AST>) -> Runtime {
    let mut interpreter = Runtime::new();
    register_builtins(&mut interpreter).unwrap();
    let program = compile(ast);
    execute_program(&mut interpreter, &program, &F64Host, 100_000).unwrap();
    interpreter
}

/// The integer on top of the stack after running the expression `source`.
fn int_result(source: &str) -> i128 {
    let mut interpreter = run(vec![AST::StandaloneExpr(expr(source))]);
    let top = interpreter.pop_stack().unwrap();
    interpreter.get_raw_data_of_pyobj(top).unwrap().take_int()
}

/// The float on top of the stack after running the expression `source`.
fn float_result(source: &str) -> f64 {
    let mut interpreter = run(vec![AST::StandaloneExpr(expr(source))]);
    let top = interpreter.pop_stack().unwrap();
    let text = interpreter.get_raw_data_of_pyobj(top).unwrap().take_float();
    text.0.parse::<f64>().unwrap()
}

/// The integer bound to the local `name`.
fn local_int(interpreter: &Runtime, name: &str) -> i128 {
    let addr = interpreter.get_local(name).unwrap().unwrap();
    interpreter.get_raw_data_of_pyobj(addr).unwrap().take_int()
}

fn assign(name: &str, source: &str) -> AST {
    AST::Assign { variable_name: name.to_string(), expression: expr(source) }
}

#[test]
fn if_else_statements() {
    let interpreter = run(vec![
        assign("x", "999"),
        assign("y", "1"),
        AST::IfStatement {
            true_branch: IfStatementBranch { expression: expr("x == 0"), statements: vec![assign("y", "2")] },
            elifs: vec![],
            final_else: Some(vec![assign("y", "3")]),
        },
    ]);
    assert_eq!(local_int(&interpreter, "y"), 3);
}

#[test]
fn test_literal_int_1() {
    assert_eq!(int_result("1"), 1);
}

#[test]
fn test_literal_float_1() {
    assert_eq!(float_result("1.0"), 1.0);
}

#[test]
fn test_1_plus_1() {
    assert_eq!(int_result("1 + 1"), 2);
}

#[test]
fn test_1_plus_float_3_5() {
    assert_eq!(float_result("1 + 3.5"), 4.5);
}

#[test]
fn test_neg() {
    let expected_result = -(5.0_f64 / 9.0_f64);
    assert_eq!(float_result("-(5.0 / 9.0)"), expected_result);
}

#[test]
fn test_div_neg_mul() {
    let expected_result = -(5.0_f64 / 9.0_f64) * 32.0_f64;
    assert_eq!(float_result("-(5.0 / 9.0) * 32.0"), expected_result);
}

#[test]
fn test_div_minus_div() {
    let expected_result = 1.0_f64 - (5.0_f64 / 9.0_f64);
    assert_eq!(float_result("1.0 - (5.0 / 9.0)"), expected_result);
}

#[test]
fn test_fahrenheit() {
    let expected_result = (-(5.0_f64 / 9.0_f64) * 32.0_f64) / (1.0_f64 - (5.0_f64 / 9.0_f64));
    assert_eq!(float_result("(-(5.0 / 9.0) * 32.0) / (1.0 - (5.0 / 9.0))"), expected_result);
}

#[test]
fn test_function_calls_with_complex_expr() {
    let expected_result = (-(5.0_f64 / 9.0_f64) * 32.0_f64).sin().cos()
        / (1.0_f64.cos() - (5.0_f64 / 9.0_f64)).tanh();
    assert_eq!(
        float_result("cos(sin(-(5.0 / 9.0) * 32.0)) / tanh(cos(1.0) - (5.0 / 9.0))"),
        expected_result
    );
}

#[test]
fn test_fcall() {
    let expected_result = 1.0_f64.sin();
    assert_eq!(float_result("sin(1.0)"), expected_result);
}

#[test]
fn test_bind_local() {
    let interpreter = run(vec![assign("x", "1 + 2")]);
    assert_eq!(local_int(&interpreter, "x"), 3);
}
