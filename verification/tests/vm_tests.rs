use horse::lexer::Float;
use horse::runtime::builtins::register_builtins;
use horse::runtime::floats::{FloatAnswer, FloatHost, FloatOperand, FloatQuery};
use horse::runtime::machine::Runtime;
use horse::runtime::object::{ArithOp, BuiltInTypeData, CompareOp, FloatUnaryOp};

/// Float computations on `f64`, answered with the values' `{:?}` text.
struct F64Host;

fn value(o: &FloatOperand) -> f64 {
    match o {
        FloatOperand::Int(i) => *i as f64,
        FloatOperand::Float(f) => f.0.parse::<f64>().unwrap(),
    }
}

fn float_answer(x: f64) -> FloatAnswer {
    FloatAnswer::Float(Float(format!("{:?}", x)))
}

impl FloatHost for F64Host {
    fn compute(&self, query: &FloatQuery) -> FloatAnswer {
        match query {
            FloatQuery::Arith(op, a, b) => {
                let (x, y) = (value(a), value(b));
                float_answer(match op {
                    ArithOp::Add => x + y,
                    ArithOp::Sub => x - y,
                    ArithOp::Mul => x * y,
                    ArithOp::Mod => x % y,
                    ArithOp::TrueDiv => x / y,
                })
            }
            FloatQuery::Compare(op, a, b) => {
                let (x, y) = (value(a), value(b));
                FloatAnswer::Bool(match op {
                    CompareOp::Eq => x == y,
                    CompareOp::Ne => x != y,
                    CompareOp::Lt => x < y,
                    CompareOp::Le => x <= y,
                    CompareOp::Gt => x > y,
                    CompareOp::Ge => x >= y,
                })
            }
            FloatQuery::Unary(op, a) => {
                let x = value(a);
                match op {
                    FloatUnaryOp::Neg => float_answer(x * -1.0),
                    FloatUnaryOp::Pos | FloatUnaryOp::FromInt => float_answer(x),
                    FloatUnaryOp::Bool => FloatAnswer::Bool(x != 0.0),
                    FloatUnaryOp::Int => FloatAnswer::Int(x as i128),
                    FloatUnaryOp::Str | FloatUnaryOp::Repr => FloatAnswer::Text(format!("{:?}", x)),
                    FloatUnaryOp::Sin => float_answer(x.sin()),
                    FloatUnaryOp::Cos => float_answer(x.cos()),
                    FloatUnaryOp::Tanh => float_answer(x.tanh()),
                }
            }
        }
    }
}

/// The value of the float object at `addr`.
fn float_value(interpreter: &Runtime, addr: usize) -> f64 {
    let text = interpreter.get_raw_data_of_pyobj(addr).unwrap().take_float();
    text.0.parse::<f64>().unwrap()
}

#[test]
fn vm_simply_instantiate_int() {
    let mut interpreter = Runtime::new();
    register_builtins(&mut interpreter).unwrap();
    let pyobj_int_addr = interpreter
        .allocate_builtin_type_byname_raw("int", BuiltInTypeData::Int(1))
        .unwrap();
    let result_value = interpreter.get_raw_data_of_pyobj(pyobj_int_addr).unwrap().take_int();
    assert_eq!(1, result_value);
}

#[test]
fn vm_simply_instantiate_bool() {
    let mut interpreter = Runtime::new();
    register_builtins(&mut interpreter).unwrap();
    let pyobj_int_addr = interpreter
        .allocate_builtin_type_byname_raw("bool", BuiltInTypeData::Int(1))
        .unwrap();
    let result_value = interpreter.get_raw_data_of_pyobj(pyobj_int_addr).unwrap().take_int();
    assert_eq!(1, result_value);
}

#[test]
fn vm_call_int_add_int() {
    let mut interpreter = Runtime::new();
    register_builtins(&mut interpreter).unwrap();
    let number1 = interpreter.allocate_builtin_type_byname_raw("int", BuiltInTypeData::Int(1)).unwrap();
    let number2 = interpreter.allocate_builtin_type_byname_raw("int", BuiltInTypeData::Int(3)).unwrap();
    let result = interpreter.call_method(number1, "__add__", &vec![number2], &F64Host).unwrap().unwrap();
    let result_value = interpreter.get_raw_data_of_pyobj(result).unwrap().take_int();
    assert_eq!(result_value, 4);
}

#[test]
fn vm_call_bool_add_int() {
    let mut interpreter = Runtime::new();
    register_builtins(&mut interpreter).unwrap();
    let number1 = interpreter.allocate_builtin_type_byname_raw("bool", BuiltInTypeData::Int(1)).unwrap();
    let number2 = interpreter.allocate_builtin_type_byname_raw("int", BuiltInTypeData::Int(3)).unwrap();
    let result = interpreter.call_method(number1, "__add__", &vec![number2], &F64Host).unwrap().unwrap();
    let result_value = interpreter.get_raw_data_of_pyobj(result).unwrap().take_int();
    assert_eq!(result_value, 4);
}

#[test]
fn vm_call_int_add_float() {
    let mut interpreter = Runtime::new();
    register_builtins(&mut interpreter).unwrap();
    let number1 = interpreter.allocate_builtin_type_byname_raw("int", BuiltInTypeData::Int(1)).unwrap();
    let number2 = interpreter
        .allocate_builtin_type_byname_raw("float", BuiltInTypeData::Float(Float("3.5".to_string())))
        .unwrap();
    let result = interpreter.call_method(number1, "__add__", &vec![number2], &F64Host).unwrap().unwrap();
    let result_value = float_value(&interpreter, result);
    assert_eq!(result_value, 4.5);
}

#[test]
fn vm_call_float_add_int() {
    let mut interpreter = Runtime::new();
    register_builtins(&mut interpreter).unwrap();
    let number1 = interpreter
        .allocate_builtin_type_byname_raw("float", BuiltInTypeData::Float(Float("3.5".to_string())))
        .unwrap();
    let number2 = interpreter.allocate_builtin_type_byname_raw("int", BuiltInTypeData::Int(1)).unwrap();
    let result = interpreter.call_method(number1, "__add__", &vec![number2], &F64Host).unwrap().unwrap();
    let result_value = float_value(&interpreter, result);
    assert_eq!(result_value, 4.5);
}

#[test]
fn vm_call_float_add_float() {
    let mut interpreter = Runtime::new();
    register_builtins(&mut interpreter).unwrap();
    let number1 = interpreter
        .allocate_builtin_type_byname_raw("float", BuiltInTypeData::Float(Float("3.4".to_string())))
        .unwrap();
    let number2 = interpreter
        .allocate_builtin_type_byname_raw("float", BuiltInTypeData::Float(Float("1.1".to_string())))
        .unwrap();
    let result = interpreter.call_method(number1, "__add__", &vec![number2], &F64Host).unwrap().unwrap();
    let result_value = float_value(&interpreter, result);
    assert_eq!(result_value, 4.5);
}

#[test]
fn vm_call_float_mul_float() {
    let mut interpreter = Runtime::new();
    register_builtins(&mut interpreter).unwrap();
    let number1 = interpreter
        .allocate_builtin_type_byname_raw("float", BuiltInTypeData::Float(Float("2.0".to_string())))
        .unwrap();
    let number2 = interpreter
        .allocate_builtin_type_byname_raw("float", BuiltInTypeData::Float(Float("3.0".to_string())))
        .unwrap();
    let result = interpreter.call_method(number1, "__mul__", &vec![number2], &F64Host).unwrap().unwrap();
    let result_value = float_value(&interpreter, result);
    assert_eq!(result_value, 6.0);
}

#[test]
fn vm_call_int_mul_int() {
    let mut interpreter = Runtime::new();
    register_builtins(&mut interpreter).unwrap();
    let number1 = interpreter.allocate_builtin_type_byname_raw("int", BuiltInTypeData::Int(2)).unwrap();
    let number2 = interpreter.allocate_builtin_type_byname_raw("int", BuiltInTypeData::Int(3)).unwrap();
    let result = interpreter.call_method(number1, "__mul__", &vec![number2], &F64Host).unwrap().unwrap();
    let result_value = interpreter.get_raw_data_of_pyobj(result).unwrap().take_int();
    assert_eq!(result_value, 6);
}

#[test]
fn vm_bind_local_test() {
    let mut interpreter = Runtime::new();
    register_builtins(&mut interpreter).unwrap();
    let number = interpreter.allocate_builtin_type_byname_raw("int", BuiltInTypeData::Int(17)).unwrap();
    interpreter.bind_local("0", number).unwrap();
    let addr_local = interpreter.get_local("0").unwrap().unwrap();
    let result_value = interpreter.get_raw_data_of_pyobj(addr_local).unwrap().take_int();
    assert_eq!(result_value, 17);
}
