//! The instructions of the stack machine and the loop that executes them.

use vstd::prelude::*;
use vstd::string::*;
use crate::compiler::{Const, ConstModel, Instruction, InstructionModel, Program, consts_view, instrs_view};
use crate::lexer::Float;
use crate::runtime::calls::{spec_bounded_call, spec_call_method, spec_callable_call};
use crate::runtime::functions::rt_function_addr;
use crate::runtime::error::RuntimeError;
use crate::runtime::floats::{
    FloatAnswer, FloatAnswerModel, FloatHost, FloatOperand, FloatOperandModel, FloatQuery, FloatQueryModel,
};
use crate::runtime::machine::{
    BUILTIN_MODULE, Runtime, RuntimeModel, rt_bind_local, rt_decref, rt_decref_all, rt_find_in_module,
    rt_get, rt_get_local, rt_incref, rt_incref_all, rt_method_of, rt_new_frame, rt_pop, rt_pop_frame,
    rt_push, rt_raw, rt_top, rt_type_of, rt_wf, lemma_decref_other, lemma_rt_alloc, lemma_rt_decref_wf,
};
use crate::runtime::namespace::{MemoryAddress, ns_get};
use crate::runtime::frames::{lemma_decref_all_frames, lemma_decref_frames};
use crate::runtime::laws::{law_bind_then_get_local, law_incref_then_decref};
use crate::runtime::method_laws::truth_object;
use crate::runtime::natives::{
    alloc_data, bool_addr, int_arith, int_of, lemma_native_frames, list_of, method_of_obj, query_view,
};
use crate::runtime::object::{
    ArithOp, BuiltInTypeData, CompareOp, DataModel, ObjModel, PyObject, PyObjectStructure, StructureModel, builtin_obj,
};

verus! {

/// `n` pops of the operand stack; the addresses in the order they had been pushed.
pub open spec fn spec_pop_n(s: RuntimeModel, n: nat) -> (RuntimeModel, Result<Seq<MemoryAddress>, RuntimeError>)
    decreases n,
{
    if n == 0 {
        (s, Ok(Seq::empty()))
    } else {
        let (s1, r1) = spec_pop_n(s, (n - 1) as nat);
        match r1 {
            Err(e) => (s1, Err(e)),
            Ok(args) => {
                let (s2, r2) = rt_pop(s1);
                match r2 {
                    Err(e) => (s2, Err(e)),
                    Ok(a) => (s2, Ok(seq![a] + args)),
                }
            },
        }
    }
}

/// The number of entries on the operand stack of the last frame (none without a frame).
pub open spec fn stack_depth(s: RuntimeModel) -> nat {
    if s.frames.len() == 0 {
        0
    } else {
        s.frames.last().stack.len()
    }
}

/// `CallMethod` with `n` arguments can run: the arguments, the method and the
/// bound object are on the stack.
pub open spec fn method_call_ready(s: RuntimeModel, n: nat) -> bool {
    s.frames.len() > 0 && stack_depth(s) >= n + 2
}

/// `CallFunction` with `n` arguments can run: the arguments and the function
/// are on the stack.
pub open spec fn function_call_ready(s: RuntimeModel, n: nat) -> bool {
    s.frames.len() > 0 && stack_depth(s) >= n + 1
}

/// `LoadMethod` can run: the object on top has a method `name`.
pub open spec fn method_ready(s: RuntimeModel, name: Seq<char>) -> bool {
    rt_top(s) matches Ok(top) && rt_get(s, top) matches Some(obj) && rt_method_of(s, obj.type_addr, name) matches Ok(
        Some(_),
    )
}

/// `LoadFunction` can run: the builtin module binds `name` to something callable.
pub open spec fn function_ready(s: RuntimeModel, name: Seq<char>) -> bool {
    rt_find_in_module(s, BUILTIN_MODULE@, name) matches Ok(Some(a)) && rt_function_addr(s, a) is Ok
}

/// `LoadName` can run: the local `name` is bound.
pub open spec fn name_ready(s: RuntimeModel, name: Seq<char>) -> bool {
    rt_get_local(s, name) matches Ok(Some(_))
}

/// `JumpIfFalseAndPopStack` can run: the object on top has a `__bool__`.
pub open spec fn truth_ready(s: RuntimeModel) -> bool {
    rt_top(s) matches Ok(top) && method_of_obj(s, top, "__bool__"@) matches Ok(Some(_))
}

/// The preparation of a method call with `n` arguments: the arguments, the
/// method and the bound object popped, one more reference counted on the bound
/// object and on each argument, and a new frame.
pub open spec fn spec_prepare_method_call(s: RuntimeModel, n: nat) -> (
    RuntimeModel,
    Result<(Seq<MemoryAddress>, MemoryAddress, MemoryAddress), RuntimeError>,
) {
    let (s1, r1) = spec_pop_n(s, n);
    match r1 {
        Err(e) => (s1, Err(e)),
        Ok(args) => {
            let (s2, r2) = rt_pop(s1);
            match r2 {
                Err(e) => (s2, Err(e)),
                Ok(f) => {
                    let (s3, r3) = rt_pop(s2);
                    match r3 {
                        Err(e) => (s3, Err(e)),
                        Ok(b) => {
                            let (s4, r4) = rt_incref(s3, b);
                            match r4 {
                                Err(e) => (s4, Err(e)),
                                Ok(_) => {
                                    let (s5, r5) = rt_incref_all(s4, args);
                                    match r5 {
                                        Err(e) => (s5, Err(e)),
                                        Ok(_) => (rt_new_frame(s5), Ok((args, f, b))),
                                    }
                                },
                            }
                        },
                    }
                },
            }
        },
    }
}

/// The preparation of a function call with `n` arguments: the arguments and the
/// function popped, one more reference counted on each argument, and a new frame.
pub open spec fn spec_prepare_function_call(s: RuntimeModel, n: nat) -> (
    RuntimeModel,
    Result<(Seq<MemoryAddress>, MemoryAddress), RuntimeError>,
) {
    let (s1, r1) = spec_pop_n(s, n);
    match r1 {
        Err(e) => (s1, Err(e)),
        Ok(args) => {
            let (s2, r2) = rt_pop(s1);
            match r2 {
                Err(e) => (s2, Err(e)),
                Ok(f) => {
                    let (s3, r3) = rt_incref_all(s2, args);
                    match r3 {
                        Err(e) => (s3, Err(e)),
                        Ok(_) => (rt_new_frame(s3), Ok((args, f))),
                    }
                },
            }
        },
    }
}

/// The end of a call that returned `v`: one reference fewer on the bound object
/// (if any) and on each argument, the frame removed, and `v` pushed.
pub open spec fn spec_finish_call(
    s: RuntimeModel,
    bound: Option<MemoryAddress>,
    args: Seq<MemoryAddress>,
    v: MemoryAddress,
) -> (RuntimeModel, Result<(), RuntimeError>) {
    let (s1, r1) = match bound {
        Some(b) => rt_decref(s, b),
        None => (s, Ok(())),
    };
    match r1 {
        Err(e) => (s1, Err(e)),
        Ok(_) => {
            let (s2, r2) = rt_decref_all(s1, args);
            match r2 {
                Err(e) => (s2, Err(e)),
                Ok(_) => {
                    let (s3, r3) = rt_pop_frame(s2);
                    match r3 {
                        Err(e) => (s3, Err(e)),
                        Ok(_) => rt_push(s3, v),
                    }
                },
            }
        },
    }
}

/// The instruction `CallMethod` with `n` arguments. Without the arguments, the
/// method and the bound object on the stack, nothing is popped.
#[verifier::opaque]
pub open spec fn spec_method_call(s: RuntimeModel, n: nat, ans: FloatAnswerModel) -> (RuntimeModel, Result<
    (),
    RuntimeError,
>) {
    if s.frames.len() == 0 {
        (s, Err(RuntimeError::NoStackFrame))
    } else if stack_depth(s) < n + 2 {
        (s, Err(RuntimeError::EmptyStack))
    } else {
        spec_method_call_on(s, n, ans)
    }
}

/// A method call with `n` arguments, the stack holding them.
pub open spec fn spec_method_call_on(s: RuntimeModel, n: nat, ans: FloatAnswerModel) -> (RuntimeModel, Result<
    (),
    RuntimeError,
>) {
    let (s1, r1) = spec_prepare_method_call(s, n);
    match r1 {
        Err(e) => (s1, Err(e)),
        Ok((args, f, b)) => {
            let (s2, r2) = spec_bounded_call(s1, b, f, args, ans);
            match r2 {
                Err(e) => (s2, Err(e)),
                Ok(v) => spec_finish_call(s2, Some(b), args, v),
            }
        },
    }
}

/// The instruction `CallFunction` with `n` arguments. Without the arguments and
/// the function on the stack, nothing is popped.
#[verifier::opaque]
pub open spec fn spec_function_call(s: RuntimeModel, n: nat, ans: FloatAnswerModel) -> (RuntimeModel, Result<
    (),
    RuntimeError,
>) {
    if s.frames.len() == 0 {
        (s, Err(RuntimeError::NoStackFrame))
    } else if stack_depth(s) < n + 1 {
        (s, Err(RuntimeError::EmptyStack))
    } else {
        spec_function_call_on(s, n, ans)
    }
}

/// A function call with `n` arguments, the stack holding them.
pub open spec fn spec_function_call_on(s: RuntimeModel, n: nat, ans: FloatAnswerModel) -> (RuntimeModel, Result<
    (),
    RuntimeError,
>) {
    let (s1, r1) = spec_prepare_function_call(s, n);
    match r1 {
        Err(e) => (s1, Err(e)),
        Ok((args, f)) => {
            let (s2, r2) = spec_callable_call(s1, f, None, args, ans);
            match r2 {
                Err(e) => (s2, Err(e)),
                Ok(v) => spec_finish_call(s2, None, args, v),
            }
        },
    }
}

/// The instruction `BuildList` with `n` elements: they are popped and a new
/// list of them, in the order they were pushed, is pushed. Without `n` values
/// on the stack nothing changes.
#[verifier::opaque]
pub open spec fn spec_build_list(s: RuntimeModel, n: nat) -> (RuntimeModel, Result<(), RuntimeError>) {
    if s.frames.len() == 0 {
        (s, Err(RuntimeError::NoStackFrame))
    } else if stack_depth(s) < n {
        (s, Err(RuntimeError::EmptyStack))
    } else {
        let (s1, r1) = spec_pop_n(s, n);
        match r1 {
            Err(e) => (s1, Err(e)),
            Ok(elements) => {
                let (s2, r2) = alloc_data(s1, s1.builtins.list, DataModel::List(elements));
                match r2 {
                    Err(e) => (s2, Err(e)),
                    Ok(a) => rt_push(s2, a),
                }
            },
        }
    }
}

/// The instruction `IndexAccess`: with an integer index on top of the stack and
/// a list below it, both are popped and the list's element at that index is
/// pushed; an index outside the list is an error. On an error nothing changes.
#[verifier::opaque]
pub open spec fn spec_index_access(s: RuntimeModel) -> (RuntimeModel, Result<(), RuntimeError>) {
    if s.frames.len() == 0 {
        (s, Err(RuntimeError::NoStackFrame))
    } else if stack_depth(s) < 2 {
        (s, Err(RuntimeError::EmptyStack))
    } else {
        let stack = s.frames.last().stack;
        match int_of(s, stack[stack.len() - 1]) {
            Err(e) => (s, Err(e)),
            Ok(i) => match list_of(s, stack[stack.len() - 2]) {
                Err(e) => (s, Err(e)),
                Ok(l) => if 0 <= i < l.len() {
                    rt_push(rt_pop(rt_pop(s).0).0, l[i as int])
                } else {
                    (s, Err(RuntimeError::IndexOutOfRange))
                },
            },
        }
    }
}

/// The instruction `Raise` in a program of `len` instructions: the exception
/// object on top of the stack is popped and raised. Nothing catches it, so the
/// program ends: `None` is pushed in its place, the program counter moves past
/// the last instruction, and the run ends with the raised object.
#[verifier::opaque]
pub open spec fn spec_raise(s: RuntimeModel, len: nat) -> (RuntimeModel, Result<(), RuntimeError>) {
    let (s1, r1) = rt_pop(s);
    match r1 {
        Err(e) => (s1, Err(e)),
        Ok(a) => {
            let (s2, r2) = rt_push(s1, s1.special.none_value);
            match r2 {
                Err(e) => (s2, Err(e)),
                Ok(_) => (RuntimeModel { pc: len as usize, ..s2 }, Err(RuntimeError::Raised(a))),
            }
        },
    }
}

/// The instruction `ReturnValue` in code of `len` instructions: the value on
/// top of the stack, the function's result, is counted once more so that it
/// outlives the function's frame, and the program counter moves past the last
/// instruction, which ends the function.
#[verifier::opaque]
pub open spec fn spec_return_value(s: RuntimeModel, len: nat) -> (RuntimeModel, Result<(), RuntimeError>) {
    match rt_top(s) {
        Err(e) => (s, Err(e)),
        Ok(a) => {
            let (s1, r1) = rt_incref(s, a);
            match r1 {
                Err(e) => (s1, Err(e)),
                Ok(_) => (RuntimeModel { pc: len as usize, ..s1 }, Ok(())),
            }
        },
    }
}

/// The instruction `LoadConst` of the constant `c`: a new object for a number or
/// a string, the constant `True` or `False` for a boolean.
#[verifier::opaque]
pub open spec fn spec_load_const(s: RuntimeModel, c: ConstModel) -> (RuntimeModel, Result<(), RuntimeError>) {
    let (s1, r1) = match c {
        ConstModel::Integer(i) => alloc_data(s, s.builtins.int, DataModel::Int(i as i128)),
        ConstModel::Float(f) => alloc_data(s, s.builtins.float, DataModel::Float(f)),
        ConstModel::String(t) => alloc_data(s, s.builtins.string, DataModel::Str(t)),
        ConstModel::Boolean(b) => (s, Ok(bool_addr(s, b))),
    };
    match r1 {
        Err(e) => (s1, Err(e)),
        Ok(a) => rt_push(s1, a),
    }
}

/// The instruction `LoadMethod`: the object on top stays, and its method `name`
/// is pushed; on an error nothing changes.
#[verifier::opaque]
pub open spec fn spec_load_method(s: RuntimeModel, name: Seq<char>) -> (RuntimeModel, Result<(), RuntimeError>) {
    match rt_top(s) {
        Err(e) => (s, Err(e)),
        Ok(top) => match rt_get(s, top) {
            None => (s, Err(RuntimeError::InvalidAddress(top))),
            Some(obj) => match rt_method_of(s, obj.type_addr, name) {
                Err(e) => (s, Err(e)),
                Ok(None) => (s, Err(RuntimeError::NoSuchMethod)),
                Ok(Some(m)) => rt_push(s, m),
            },
        },
    }
}

/// The instruction `LoadFunction`: the builtin function `name` is pushed, or the
/// constructor `__new__` when `name` is a type.
#[verifier::opaque]
pub open spec fn spec_load_function(s: RuntimeModel, name: Seq<char>) -> (RuntimeModel, Result<(), RuntimeError>) {
    match rt_find_in_module(s, BUILTIN_MODULE@, name) {
        Err(e) => (s, Err(e)),
        Ok(None) => (s, Err(RuntimeError::NoSuchFunction)),
        Ok(Some(a)) => match rt_function_addr(s, a) {
            Err(e) => (s, Err(e)),
            Ok(f) => rt_push(s, f),
        },
    }
}

/// The instruction `LoadName`: the local `name` is pushed.
#[verifier::opaque]
pub open spec fn spec_load_name(s: RuntimeModel, name: Seq<char>) -> (RuntimeModel, Result<(), RuntimeError>) {
    match rt_get_local(s, name) {
        Err(e) => (s, Err(e)),
        Ok(None) => (s, Err(RuntimeError::NoSuchName)),
        Ok(Some(a)) => rt_push(s, a),
    }
}

/// The instruction `StoreName`: the top of the stack popped and counted once
/// more; then one reference fewer on the old value of the local `name`, if
/// any, and `name` bound to the popped value. Counting the new value first
/// keeps an object that is stored under the name it already has.
#[verifier::opaque]
pub open spec fn spec_store_name(s: RuntimeModel, name: Seq<char>) -> (RuntimeModel, Result<(), RuntimeError>) {
    let (s1, r1) = rt_pop(s);
    match r1 {
        Err(e) => (s1, Err(e)),
        Ok(a) => {
            let (s2, r2) = rt_incref(s1, a);
            match r2 {
                Err(e) => (s2, Err(e)),
                Ok(_) => match rt_get_local(s2, name) {
                    Err(e) => (s2, Err(e)),
                    Ok(None) => rt_bind_local(s2, name, a),
                    Ok(Some(previous)) => {
                        let (s3, r3) = rt_decref(s2, previous);
                        match r3 {
                            Err(e) => (s3, Err(e)),
                            Ok(_) => rt_bind_local(s3, name, a),
                        }
                    },
                },
            }
        },
    }
}

/// The instruction `JumpIfFalseAndPopStack`: the top of the stack popped and
/// asked `__bool__`; when that holds zero, the program counter is set to
/// `destination` and the result is `true`. One reference fewer on the answer.
/// When the top has no `__bool__`, nothing changes.
#[verifier::opaque]
pub open spec fn spec_jump_if_false(s: RuntimeModel, destination: usize, ans: FloatAnswerModel) -> (
    RuntimeModel,
    Result<bool, RuntimeError>,
) {
    match rt_top(s) {
        Err(e) => (s, Err(e)),
        Ok(top) => match method_of_obj(s, top, "__bool__"@) {
            Err(e) => (s, Err(e)),
            Ok(None) => (s, Err(RuntimeError::NoSuchMethod)),
            Ok(Some(_)) => spec_jump_on(s, destination, ans),
        },
    }
}

/// `JumpIfFalseAndPopStack` where the top of the stack has a `__bool__`.
pub open spec fn spec_jump_on(s: RuntimeModel, destination: usize, ans: FloatAnswerModel) -> (
    RuntimeModel,
    Result<bool, RuntimeError>,
) {
    let (s1, r1) = rt_pop(s);
    match r1 {
        Err(e) => (s1, Err(e)),
        Ok(top) => {
            let (s2, r2) = spec_call_method(s1, top, "__bool__"@, Seq::empty(), ans);
            match r2 {
                Err(e) => (s2, Err(e)),
                Ok(None) => (s2, Err(RuntimeError::NoSuchMethod)),
                Ok(Some(b)) => match int_of(s2, b) {
                    Err(e) => (s2, Err(e)),
                    Ok(v) => {
                        let s3 = if v == 0 {
                            RuntimeModel { pc: destination, ..s2 }
                        } else {
                            s2
                        };
                        let (s4, r4) = rt_decref(s3, b);
                        match r4 {
                            Err(e) => (s4, Err(e)),
                            Ok(_) => (s4, Ok(v == 0)),
                        }
                    },
                },
            }
        },
    }
}

/// The runtime `t` with the program counter at the instruction after the one at which `s` stood.
pub open spec fn advance(s: RuntimeModel, t: RuntimeModel) -> RuntimeModel {
    RuntimeModel { pc: (s.pc + 1) as usize, ..t }
}

/// After an instruction that does not jump: the next instruction, unless it failed.
pub open spec fn then_advance(s: RuntimeModel, r: (RuntimeModel, Result<(), RuntimeError>)) -> (RuntimeModel, Result<
    (),
    RuntimeError,
>) {
    match r.1 {
        Err(e) => (r.0, Err(e)),
        Ok(_) => (advance(s, r.0), r.1),
    }
}

/// The number an object holds, when it holds one.
pub open spec fn number_of(obj: ObjModel) -> Option<DataModel> {
    match obj.structure {
        StructureModel::Object { raw, .. } => match raw {
            DataModel::Int(_) => Some(raw),
            DataModel::Float(_) => Some(raw),
            DataModel::Str(_) => None,
            DataModel::List(_) => None,
        },
        _ => None,
    }
}

/// The reference count of an object (zero for objects that keep none).
pub open spec fn refcount_of(obj: ObjModel) -> usize {
    match obj.structure {
        StructureModel::Object { refcount, .. } => refcount,
        _ => 0,
    }
}

/// A number as an operand of a float query.
pub open spec fn operand_of(d: DataModel) -> FloatOperandModel {
    match d {
        DataModel::Int(i) => FloatOperandModel::Int(i),
        DataModel::Float(f) => FloatOperandModel::Float(f),
        DataModel::Str(_) => FloatOperandModel::Int(0),
        DataModel::List(_) => FloatOperandModel::Int(0),
    }
}

/// The method that a binary instruction calls when an operand is not a number.
pub open spec fn arith_method(op: ArithOp) -> Seq<char> {
    match op {
        ArithOp::Add => "__add__"@,
        ArithOp::Sub => "__sub__"@,
        ArithOp::Mul => "__mul__"@,
        ArithOp::Mod => "__mod__"@,
        ArithOp::TrueDiv => "__truediv__"@,
    }
}

/// The method that a comparison instruction calls when an operand is not a number.
pub open spec fn compare_method(op: CompareOp) -> Seq<char> {
    match op {
        CompareOp::Eq => "__eq__"@,
        CompareOp::Ne => "__ne__"@,
        CompareOp::Lt => "__lt__"@,
        CompareOp::Le => "__le__"@,
        CompareOp::Gt => "__gt__"@,
        CompareOp::Ge => "__ge__"@,
    }
}

/// The float of the host's answer.
pub open spec fn float_answer(ans: FloatAnswerModel) -> Result<DataModel, RuntimeError> {
    match ans {
        FloatAnswerModel::Float(t) => Ok(DataModel::Float(t)),
        _ => Err(RuntimeError::FloatFailed),
    }
}

/// A binary instruction on the numbers `a` and `b`: integers directly (their
/// quotient by the host, as a float), anything with a float by the host.
pub open spec fn fast_arith(op: ArithOp, a: DataModel, b: DataModel, ans: FloatAnswerModel) -> Result<
    DataModel,
    RuntimeError,
> {
    match (a, b) {
        (DataModel::Int(x), DataModel::Int(y)) => if op == ArithOp::TrueDiv {
            float_answer(ans)
        } else {
            match int_arith(op, x, y) {
                Ok(v) => Ok(DataModel::Int(v)),
                Err(e) => Err(e),
            }
        },
        _ => float_answer(ans),
    }
}

/// The float query of a binary instruction on the numbers `a` and `b`.
pub open spec fn fast_arith_query(op: ArithOp, a: DataModel, b: DataModel) -> Option<FloatQueryModel> {
    match (a, b) {
        (DataModel::Int(_), DataModel::Int(_)) => if op == ArithOp::TrueDiv {
            Some(FloatQueryModel::Arith(op, operand_of(a), operand_of(b)))
        } else {
            None
        },
        _ => Some(FloatQueryModel::Arith(op, operand_of(a), operand_of(b))),
    }
}

/// Integer comparison.
pub open spec fn exact_compare(op: CompareOp, a: i128, b: i128) -> bool {
    match op {
        CompareOp::Eq => a == b,
        CompareOp::Ne => a != b,
        CompareOp::Lt => a < b,
        CompareOp::Le => a <= b,
        CompareOp::Gt => a > b,
        CompareOp::Ge => a >= b,
    }
}

/// A comparison instruction on the numbers `a` and `b`: integers directly,
/// anything with a float by the host.
pub open spec fn fast_compare(op: CompareOp, a: DataModel, b: DataModel, ans: FloatAnswerModel) -> Result<
    bool,
    RuntimeError,
> {
    match (a, b) {
        (DataModel::Int(x), DataModel::Int(y)) => Ok(exact_compare(op, x, y)),
        _ => match ans {
            FloatAnswerModel::Bool(r) => Ok(r),
            _ => Err(RuntimeError::FloatFailed),
        },
    }
}

/// The float query of a comparison instruction on the numbers `a` and `b`.
pub open spec fn fast_compare_query(op: CompareOp, a: DataModel, b: DataModel) -> Option<FloatQueryModel> {
    match (a, b) {
        (DataModel::Int(_), DataModel::Int(_)) => None,
        _ => Some(FloatQueryModel::Compare(op, operand_of(a), operand_of(b))),
    }
}

/// The numbers held by the two top entries of the operand stack (the lower one
/// first), when both hold numbers.
pub open spec fn operands_of(s: RuntimeModel) -> Option<(DataModel, DataModel)> {
    if s.frames.len() == 0 || s.frames.last().stack.len() < 2 {
        None
    } else {
        let stack = s.frames.last().stack;
        match (rt_get(s, stack[stack.len() - 2]), rt_get(s, stack[stack.len() - 1])) {
            (Some(o1), Some(o)) => match (number_of(o1), number_of(o)) {
                (Some(a), Some(b)) => Some((a, b)),
                _ => None,
            },
            _ => None,
        }
    }
}

/// The float query that a binary instruction asks the host: the operation on
/// the two numbers on top of the stack, the lower one first, when one of them
/// is a float or the operation is a true division.
pub open spec fn spec_binary_query(s: RuntimeModel, op: ArithOp) -> Option<FloatQueryModel> {
    match operands_of(s) {
        Some((a, b)) => fast_arith_query(op, a, b),
        None => None,
    }
}

/// The float query that a comparison instruction asks the host: the comparison
/// of the two numbers on top of the stack, the lower one first, when one of
/// them is a float.
pub open spec fn spec_compare_query(s: RuntimeModel, op: CompareOp) -> Option<FloatQueryModel> {
    match operands_of(s) {
        Some((a, b)) => fast_compare_query(op, a, b),
        None => None,
    }
}

/// One reference fewer on each operand that had none: temporaries are freed.
pub open spec fn release_unowned(
    s: RuntimeModel,
    tos: MemoryAddress,
    o: ObjModel,
    tos_1: MemoryAddress,
    o1: ObjModel,
) -> (RuntimeModel, Result<(), RuntimeError>) {
    let (s1, r1) = if refcount_of(o) == 0 {
        rt_decref(s, tos)
    } else {
        (s, Ok(()))
    };
    match r1 {
        Err(e) => (s1, Err(e)),
        Ok(_) => if refcount_of(o1) == 0 {
            rt_decref(s1, tos_1)
        } else {
            (s1, Ok(()))
        },
    }
}

/// The method `name` of the object at `tos_1` called with the object at `tos`,
/// as `LoadMethod` and `CallMethod` do it.
pub open spec fn spec_method_fallback(
    s: RuntimeModel,
    tos_1: MemoryAddress,
    tos: MemoryAddress,
    name: Seq<char>,
    ans: FloatAnswerModel,
) -> (RuntimeModel, Result<(), RuntimeError>) {
    let (s1, r1) = rt_push(s, tos_1);
    match r1 {
        Err(e) => (s1, Err(e)),
        Ok(_) => {
            let (s2, r2) = spec_load_method(s1, name);
            match r2 {
                Err(e) => (s2, Err(e)),
                Ok(_) => {
                    let (s3, r3) = rt_push(s2, tos);
                    match r3 {
                        Err(e) => (s3, Err(e)),
                        Ok(_) => spec_method_call(s3, 1, ans),
                    }
                },
            }
        },
    }
}

/// A binary instruction: the two operands popped; two numbers are combined
/// directly and the result pushed, after the operands without references are
/// freed; other operands go through the method that stands for `op`.
#[verifier::opaque]
pub open spec fn spec_binary_instr(s: RuntimeModel, op: ArithOp, ans: FloatAnswerModel) -> (RuntimeModel, Result<
    (),
    RuntimeError,
>) {
    let (s1, r1) = rt_pop(s);
    match r1 {
        Err(e) => (s1, Err(e)),
        Ok(tos) => {
            let (s2, r2) = rt_pop(s1);
            match r2 {
                Err(e) => (s2, Err(e)),
                Ok(tos_1) => match rt_get(s2, tos) {
                    None => (s2, Err(RuntimeError::InvalidAddress(tos))),
                    Some(o) => match rt_get(s2, tos_1) {
                        None => (s2, Err(RuntimeError::InvalidAddress(tos_1))),
                        Some(o1) => match (number_of(o1), number_of(o)) {
                            (Some(a), Some(b)) => match fast_arith(op, a, b, ans) {
                                Err(e) => (s2, Err(e)),
                                Ok(v) => {
                                    let (s3, r3) = release_unowned(s2, tos, o, tos_1, o1);
                                    match r3 {
                                        Err(e) => (s3, Err(e)),
                                        Ok(_) => {
                                            let t = if v is Int {
                                                s3.builtins.int
                                            } else {
                                                s3.builtins.float
                                            };
                                            let (s4, r4) = alloc_data(s3, t, v);
                                            match r4 {
                                                Err(e) => (s4, Err(e)),
                                                Ok(addr) => rt_push(s4, addr),
                                            }
                                        },
                                    }
                                },
                            },
                            _ => spec_method_fallback(s2, tos_1, tos, arith_method(op), ans),
                        },
                    },
                },
            }
        },
    }
}

/// A comparison instruction: the two operands popped; two numbers are compared
/// directly and the boolean pushed, after the operands without references are
/// freed; other operands go through the method that stands for `op`.
#[verifier::opaque]
pub open spec fn spec_compare_instr(s: RuntimeModel, op: CompareOp, ans: FloatAnswerModel) -> (RuntimeModel, Result<
    (),
    RuntimeError,
>) {
    let (s1, r1) = rt_pop(s);
    match r1 {
        Err(e) => (s1, Err(e)),
        Ok(tos) => {
            let (s2, r2) = rt_pop(s1);
            match r2 {
                Err(e) => (s2, Err(e)),
                Ok(tos_1) => match rt_get(s2, tos) {
                    None => (s2, Err(RuntimeError::InvalidAddress(tos))),
                    Some(o) => match rt_get(s2, tos_1) {
                        None => (s2, Err(RuntimeError::InvalidAddress(tos_1))),
                        Some(o1) => match (number_of(o1), number_of(o)) {
                            (Some(a), Some(b)) => match fast_compare(op, a, b, ans) {
                                Err(e) => (s2, Err(e)),
                                Ok(v) => {
                                    let (s3, r3) = release_unowned(s2, tos, o, tos_1, o1);
                                    match r3 {
                                        Err(e) => (s3, Err(e)),
                                        Ok(_) => rt_push(s3, bool_addr(s3, v)),
                                    }
                                },
                            },
                            _ => spec_method_fallback(s2, tos_1, tos, compare_method(op), ans),
                        },
                    },
                },
            }
        },
    }
}

/// One step: the instruction at the program counter.
pub open spec fn spec_step(
    s: RuntimeModel,
    code: Seq<InstructionModel>,
    data: Seq<ConstModel>,
    ans: FloatAnswerModel,
) -> (RuntimeModel, Result<(), RuntimeError>) {
    match code[s.pc as int] {
        InstructionModel::LoadConst(i) => if i < 0 || i >= data.len() {
            (s, Err(RuntimeError::NoSuchConstant))
        } else {
            then_advance(s, spec_load_const(s, data[i]))
        },
        InstructionModel::LoadMethod(name) => then_advance(s, spec_load_method(s, name)),
        InstructionModel::LoadFunction(name) => then_advance(s, spec_load_function(s, name)),
        InstructionModel::StoreName(name) => then_advance(s, spec_store_name(s, name)),
        InstructionModel::LoadName(name) => then_advance(s, spec_load_name(s, name)),
        InstructionModel::CallMethod(n) => then_advance(s, spec_method_call(s, n as nat, ans)),
        InstructionModel::CallFunction(n) => then_advance(s, spec_function_call(s, n as nat, ans)),
        InstructionModel::JumpIfFalseAndPopStack(d) => {
            let (s1, r1) = spec_jump_if_false(s, d as usize, ans);
            match r1 {
                Err(e) => (s1, Err(e)),
                Ok(true) => (s1, Ok(())),
                Ok(false) => (advance(s, s1), Ok(())),
            }
        },
        InstructionModel::JumpUnconditional(d) => (RuntimeModel { pc: d as usize, ..s }, Ok(())),
        InstructionModel::UnresolvedBreak => (s, Err(RuntimeError::UnresolvedBreak)),
        InstructionModel::BinaryAdd => then_advance(s, spec_binary_instr(s, ArithOp::Add, ans)),
        InstructionModel::BinaryModulus => then_advance(s, spec_binary_instr(s, ArithOp::Mod, ans)),
        InstructionModel::BinarySubtract => then_advance(s, spec_binary_instr(s, ArithOp::Sub, ans)),
        InstructionModel::BinaryMultiply => then_advance(s, spec_binary_instr(s, ArithOp::Mul, ans)),
        InstructionModel::BinaryTrueDivision => then_advance(s, spec_binary_instr(s, ArithOp::TrueDiv, ans)),
        InstructionModel::CompareLessEquals => then_advance(s, spec_compare_instr(s, CompareOp::Le, ans)),
        InstructionModel::CompareGreaterEquals => then_advance(s, spec_compare_instr(s, CompareOp::Ge, ans)),
        InstructionModel::CompareGreaterThan => then_advance(s, spec_compare_instr(s, CompareOp::Gt, ans)),
        InstructionModel::CompareLessThan => then_advance(s, spec_compare_instr(s, CompareOp::Lt, ans)),
        InstructionModel::CompareEquals => then_advance(s, spec_compare_instr(s, CompareOp::Eq, ans)),
        InstructionModel::CompareNotEquals => then_advance(s, spec_compare_instr(s, CompareOp::Ne, ans)),
        InstructionModel::BuildList(n) => then_advance(s, spec_build_list(s, n as nat)),
        InstructionModel::IndexAccess => then_advance(s, spec_index_access(s)),
        InstructionModel::Raise => spec_raise(s, code.len()),
        InstructionModel::ReturnValue => spec_return_value(s, code.len()),
    }
}

/// The steps taken with the host's answers `answers`, one answer per step (used
/// when the step makes a float query), until the program counter leaves the code
/// or a step fails.
pub open spec fn spec_run(
    s: RuntimeModel,
    code: Seq<InstructionModel>,
    data: Seq<ConstModel>,
    answers: Seq<FloatAnswerModel>,
) -> (RuntimeModel, Result<(), RuntimeError>)
    decreases answers.len(),
{
    if answers.len() == 0 {
        (s, Ok(()))
    } else {
        let (s1, r1) = spec_run(s, code, data, answers.drop_last());
        match r1 {
            Err(e) => (s1, Err(e)),
            Ok(_) => if s1.pc >= code.len() {
                (s1, Ok(()))
            } else {
                spec_step(s1, code, data, answers.last())
            },
        }
    }
}


/// After an error at the `i`-th pop, `n` pops give that error.
proof fn lemma_pop_n_stops(s: RuntimeModel, n: nat, i: nat)
    requires
        i < n,
        spec_pop_n(s, i + 1).1 is Err,
    ensures
        spec_pop_n(s, n) == spec_pop_n(s, i + 1),
    decreases n - i,
{
    if i + 1 < n {
        lemma_pop_n_stops(s, n, i + 1);
    }
}

/// Pops `n` addresses off the operand stack; they come back in the order they had been pushed.
pub fn pop_arguments(interpreter: &mut Runtime, n: usize) -> (r: Result<Vec<MemoryAddress>, RuntimeError>)
    ensures
        final(interpreter)@.mem == old(interpreter)@.mem,
        final(interpreter)@ == spec_pop_n(old(interpreter)@, n as nat).0,
        match spec_pop_n(old(interpreter)@, n as nat).1 {
            Ok(args) => r is Ok && r->Ok_0@ == args,
            Err(e) => r is Err && r->Err_0 == e,
        },
{
    let ghost s0 = interpreter@;
    let mut args: Vec<MemoryAddress> = Vec::new();
    let mut i: usize = 0;
    assert(args@ =~= Seq::<MemoryAddress>::empty());
    while i < n
        invariant
            i <= n,
            s0 == old(interpreter)@,
            interpreter@.mem == s0.mem,
            spec_pop_n(s0, i as nat) == (interpreter@, Ok::<Seq<MemoryAddress>, RuntimeError>(args@)),
        decreases n - i,
    {
        let r = interpreter.pop_stack();
        match r {
            Err(e) => {
                proof {
                    lemma_pop_n_stops(s0, n as nat, i as nat);
                }
                return Err(e);
            },
            Ok(a) => {
                let ghost before = args@;
                args.insert(0, a);
                assert(args@ =~= seq![a] + before);
            },
        }
        i = i + 1;
    }
    Ok(args)
}

/// The instruction `CallMethod`: calls the method below the `number_args`
/// arguments on the stack, with the object below it bound, and pushes the result.
pub fn handle_method_call<H: FloatHost>(interpreter: &mut Runtime, number_args: usize, host: &H) -> (r: Result<
    (),
    RuntimeError,
>)
    requires
        rt_wf(old(interpreter)@),
        method_call_ready(old(interpreter)@, number_args as nat),
    ensures
        rt_wf(final(interpreter)@),
        exists|ans: FloatAnswerModel|
            (final(interpreter)@, r) == #[trigger] spec_method_call(old(interpreter)@, number_args as nat, ans),
{
    proof {
        reveal(spec_method_call);
    }
    let ghost s0 = interpreter@;
    let ghost failed = FloatAnswerModel::Failed;
    let frames = interpreter.stack.len();
    if frames == 0 {
        let r = Err(RuntimeError::NoStackFrame);
        assert((interpreter@, r) == spec_method_call(s0, number_args as nat, failed));
        return r;
    }
    let depth = interpreter.stack[frames - 1].stack.len();
    if depth < number_args || depth - number_args < 2 {
        let r = Err(RuntimeError::EmptyStack);
        assert((interpreter@, r) == spec_method_call(s0, number_args as nat, failed));
        return r;
    }
    let args = match pop_arguments(interpreter, number_args) {
        Err(e) => {
            let r = Err(e);
            assert((interpreter@, r) == spec_method_call(s0, number_args as nat, failed));
            return r;
        },
        Ok(a) => a,
    };
    let function_addr = match interpreter.pop_stack() {
        Err(e) => {
            let r = Err(e);
            assert((interpreter@, r) == spec_method_call(s0, number_args as nat, failed));
            return r;
        },
        Ok(a) => a,
    };
    let bounded_obj_addr = match interpreter.pop_stack() {
        Err(e) => {
            let r = Err(e);
            assert((interpreter@, r) == spec_method_call(s0, number_args as nat, failed));
            return r;
        },
        Ok(a) => a,
    };
    let r4 = interpreter.increase_refcount(bounded_obj_addr);
    if r4.is_err() {
        assert((interpreter@, r4) == spec_method_call(s0, number_args as nat, failed));
        return r4;
    }
    let r5 = interpreter.increase_refcounts(&args);
    if r5.is_err() {
        assert((interpreter@, r5) == spec_method_call(s0, number_args as nat, failed));
        return r5;
    }
    interpreter.new_stack_frame();
    let ghost s1 = interpreter@;
    assert(spec_prepare_method_call(s0, number_args as nat) == (s1, Ok::<
        (Seq<MemoryAddress>, MemoryAddress, MemoryAddress),
        RuntimeError,
    >((args@, function_addr, bounded_obj_addr))));
    let called = interpreter.bounded_function_call_byaddr(bounded_obj_addr, function_addr, &args, host);
    let ghost a = choose|ans: FloatAnswerModel|
        (interpreter@, called) == spec_bounded_call(s1, bounded_obj_addr, function_addr, args@, ans);
    let new_obj = match called {
        Err(e) => {
            let r = Err(e);
            assert((interpreter@, r) == spec_method_call(s0, number_args as nat, a));
            return r;
        },
        Ok(v) => v,
    };
    let ghost s2 = interpreter@;
    let r = finish_call(interpreter, Some(bounded_obj_addr), &args, new_obj);
    assert((interpreter@, r) == spec_method_call(s0, number_args as nat, a));
    r
}

/// The end of a call that returned `new_obj`.
fn finish_call(
    interpreter: &mut Runtime,
    bound: Option<MemoryAddress>,
    args: &Vec<MemoryAddress>,
    new_obj: MemoryAddress,
) -> (r: Result<(), RuntimeError>)
    requires
        rt_wf(old(interpreter)@),
    ensures
        rt_wf(final(interpreter)@),
        (final(interpreter)@, r) == spec_finish_call(old(interpreter)@, bound, args@, new_obj),
{
    if let Some(b) = bound {
        let r1 = interpreter.decrease_refcount(b);
        if r1.is_err() {
            return r1;
        }
    }
    let r2 = interpreter.decrease_refcounts(args);
    if r2.is_err() {
        return r2;
    }
    let r3 = interpreter.pop_stack_frame();
    if r3.is_err() {
        return r3;
    }
    interpreter.push_onto_stack(new_obj)
}

/// The instruction `CallFunction`: calls the function below the `number_args`
/// arguments on the stack and pushes the result.
pub fn handle_function_call<H: FloatHost>(interpreter: &mut Runtime, number_args: usize, host: &H) -> (r: Result<
    (),
    RuntimeError,
>)
    requires
        rt_wf(old(interpreter)@),
        function_call_ready(old(interpreter)@, number_args as nat),
    ensures
        rt_wf(final(interpreter)@),
        exists|ans: FloatAnswerModel|
            (final(interpreter)@, r) == #[trigger] spec_function_call(old(interpreter)@, number_args as nat, ans),
{
    proof {
        reveal(spec_function_call);
    }
    let ghost s0 = interpreter@;
    let ghost failed = FloatAnswerModel::Failed;
    let frames = interpreter.stack.len();
    if frames == 0 {
        let r = Err(RuntimeError::NoStackFrame);
        assert((interpreter@, r) == spec_function_call(s0, number_args as nat, failed));
        return r;
    }
    let depth = interpreter.stack[frames - 1].stack.len();
    if depth < number_args || depth - number_args < 1 {
        let r = Err(RuntimeError::EmptyStack);
        assert((interpreter@, r) == spec_function_call(s0, number_args as nat, failed));
        return r;
    }
    let args = match pop_arguments(interpreter, number_args) {
        Err(e) => {
            let r = Err(e);
            assert((interpreter@, r) == spec_function_call(s0, number_args as nat, failed));
            return r;
        },
        Ok(a) => a,
    };
    let function_addr = match interpreter.pop_stack() {
        Err(e) => {
            let r = Err(e);
            assert((interpreter@, r) == spec_function_call(s0, number_args as nat, failed));
            return r;
        },
        Ok(a) => a,
    };
    let r3 = interpreter.increase_refcounts(&args);
    if r3.is_err() {
        assert((interpreter@, r3) == spec_function_call(s0, number_args as nat, failed));
        return r3;
    }
    interpreter.new_stack_frame();
    let ghost s1 = interpreter@;
    assert(spec_prepare_function_call(s0, number_args as nat) == (s1, Ok::<
        (Seq<MemoryAddress>, MemoryAddress),
        RuntimeError,
    >((args@, function_addr))));
    let called = interpreter.unbounded_function_call_byaddr(function_addr, &args, host);
    let ghost a = choose|ans: FloatAnswerModel| (interpreter@, called) == spec_callable_call(s1, function_addr, None, args@, ans);
    let new_obj = match called {
        Err(e) => {
            let r = Err(e);
            assert((interpreter@, r) == spec_function_call(s0, number_args as nat, a));
            return r;
        },
        Ok(v) => v,
    };
    let r = finish_call(interpreter, None, &args, new_obj);
    assert((interpreter@, r) == spec_function_call(s0, number_args as nat, a));
    r
}


/// The instruction `LoadConst` of the constant `const_data`.
pub fn handle_load_const(interpreter: &mut Runtime, const_data: &Const) -> (r: Result<(), RuntimeError>)
    requires
        rt_wf(old(interpreter)@),
    ensures
        rt_wf(final(interpreter)@),
        (final(interpreter)@, r) == spec_load_const(old(interpreter)@, const_data@),
{
    proof {
        reveal(spec_load_const);
    }
    let loaded = match const_data {
        Const::Integer(i) => {
            let ty = interpreter.builtin_type_addrs.int;
            interpreter.allocate_type_byaddr_raw(ty, BuiltInTypeData::Int(*i))
        },
        Const::Float(f) => {
            let ty = interpreter.builtin_type_addrs.float;
            interpreter.allocate_type_byaddr_raw(ty, BuiltInTypeData::Float(Float(f.0.clone())))
        },
        Const::String(t) => {
            let ty = interpreter.builtin_type_addrs.string;
            interpreter.allocate_type_byaddr_raw(ty, BuiltInTypeData::String(t.clone()))
        },
        Const::Boolean(b) => Ok(interpreter.bool_addr(*b)),
    };
    match loaded {
        Err(e) => Err(e),
        Ok(a) => interpreter.push_onto_stack(a),
    }
}

/// The instruction `LoadMethod`: the object on top of the stack stays there,
/// and its method `method_name` is pushed.
pub fn handle_load_method(interpreter: &mut Runtime, method_name: &str) -> (r: Result<(), RuntimeError>)
    requires
        rt_wf(old(interpreter)@),
        method_ready(old(interpreter)@, method_name@),
    ensures
        rt_wf(final(interpreter)@),
        (final(interpreter)@, r) == spec_load_method(old(interpreter)@, method_name@),
{
    proof {
        reveal(spec_load_method);
    }
    let stack_top = match interpreter.top_stack() {
        Err(e) => {
            return Err(e);
        },
        Ok(a) => a,
    };
    let type_addr = match interpreter.get_pyobj_byaddr(stack_top) {
        Err(e) => {
            return Err(e);
        },
        Ok(obj) => obj.type_addr,
    };
    match interpreter.get_type_method_addr_byname(type_addr, method_name) {
        Err(e) => Err(e),
        Ok(None) => Err(RuntimeError::NoSuchMethod),
        Ok(Some(addr)) => interpreter.push_onto_stack(addr),
    }
}

/// The instruction `LoadFunction`: pushes the builtin function `method_name`,
/// or the constructor of the builtin type of that name.
pub fn handle_load_function(interpreter: &mut Runtime, method_name: &str) -> (r: Result<(), RuntimeError>)
    requires
        rt_wf(old(interpreter)@),
        function_ready(old(interpreter)@, method_name@),
    ensures
        rt_wf(final(interpreter)@),
        (final(interpreter)@, r) == spec_load_function(old(interpreter)@, method_name@),
{
    proof {
        reveal(spec_load_function);
    }
    let addr = match interpreter.find_in_module(BUILTIN_MODULE, method_name) {
        Err(e) => {
            return Err(e);
        },
        Ok(None) => {
            return Err(RuntimeError::NoSuchFunction);
        },
        Ok(Some(a)) => a,
    };
    match interpreter.try_load_function_addr(addr) {
        Err(e) => Err(e),
        Ok(a) => interpreter.push_onto_stack(a),
    }
}

/// The instruction `LoadName`: pushes the local `name`.
pub fn handle_load_name(interpreter: &mut Runtime, name: &str) -> (r: Result<(), RuntimeError>)
    requires
        rt_wf(old(interpreter)@),
        name_ready(old(interpreter)@, name@),
    ensures
        rt_wf(final(interpreter)@),
        (final(interpreter)@, r) == spec_load_name(old(interpreter)@, name@),
{
    proof {
        reveal(spec_load_name);
    }
    match interpreter.get_local(name) {
        Err(e) => Err(e),
        Ok(None) => Err(RuntimeError::NoSuchName),
        Ok(Some(addr)) => interpreter.push_onto_stack(addr),
    }
}

/// The instruction `StoreName`: pops the top of the stack into the local `name`.
pub fn handle_store_name(interpreter: &mut Runtime, name: &str) -> (r: Result<(), RuntimeError>)
    requires
        rt_wf(old(interpreter)@),
    ensures
        rt_wf(final(interpreter)@),
        (final(interpreter)@, r) == spec_store_name(old(interpreter)@, name@),
{
    proof {
        reveal(spec_store_name);
    }
    let addr = match interpreter.pop_stack() {
        Err(e) => {
            return Err(e);
        },
        Ok(a) => a,
    };
    let r2 = interpreter.increase_refcount(addr);
    if r2.is_err() {
        return r2;
    }
    match interpreter.get_local(name) {
        Err(e) => {
            return Err(e);
        },
        Ok(None) => {},
        Ok(Some(previous)) => {
            let r3 = interpreter.decrease_refcount(previous);
            if r3.is_err() {
                return r3;
            }
        },
    }
    interpreter.bind_local(name, addr)
}

/// The instruction `BuildList`: pops `number_elements` values and pushes a new list of them.
pub fn handle_build_list(interpreter: &mut Runtime, number_elements: usize) -> (r: Result<(), RuntimeError>)
    requires
        rt_wf(old(interpreter)@),
    ensures
        rt_wf(final(interpreter)@),
        (final(interpreter)@, r) == spec_build_list(old(interpreter)@, number_elements as nat),
{
    proof {
        reveal(spec_build_list);
    }
    let frames = interpreter.stack.len();
    if frames == 0 {
        return Err(RuntimeError::NoStackFrame);
    }
    if interpreter.stack[frames - 1].stack.len() < number_elements {
        return Err(RuntimeError::EmptyStack);
    }
    let elements = match pop_arguments(interpreter, number_elements) {
        Err(e) => {
            return Err(e);
        },
        Ok(v) => v,
    };
    let ty = interpreter.builtin_type_addrs.list;
    match interpreter.allocate_type_byaddr_raw(ty, BuiltInTypeData::List(elements)) {
        Err(e) => Err(e),
        Ok(a) => interpreter.push_onto_stack(a),
    }
}

/// The instruction `Raise` in a program of `len` instructions: pops the
/// exception object and ends the program with it.
pub fn handle_raise(interpreter: &mut Runtime, len: usize) -> (r: Result<(), RuntimeError>)
    requires
        rt_wf(old(interpreter)@),
    ensures
        rt_wf(final(interpreter)@),
        (final(interpreter)@, r) == spec_raise(old(interpreter)@, len as nat),
{
    proof {
        reveal(spec_raise);
    }
    let a = match interpreter.pop_stack() {
        Err(e) => {
            return Err(e);
        },
        Ok(a) => a,
    };
    let none = interpreter.special_values.none_value;
    match interpreter.push_onto_stack(none) {
        Err(e) => Err(e),
        Ok(_) => {
            interpreter.set_pc(len);
            Err(RuntimeError::Raised(a))
        },
    }
}

/// The instruction `ReturnValue` in code of `len` instructions: counts the
/// result once more and ends the function.
pub fn handle_return_value(interpreter: &mut Runtime, len: usize) -> (r: Result<(), RuntimeError>)
    requires
        rt_wf(old(interpreter)@),
    ensures
        rt_wf(final(interpreter)@),
        (final(interpreter)@, r) == spec_return_value(old(interpreter)@, len as nat),
{
    proof {
        reveal(spec_return_value);
    }
    let a = match interpreter.top_stack() {
        Err(e) => {
            return Err(e);
        },
        Ok(a) => a,
    };
    match interpreter.increase_refcount(a) {
        Err(e) => Err(e),
        Ok(_) => {
            interpreter.set_pc(len);
            Ok(())
        },
    }
}

/// The instruction `IndexAccess`: pops an index and a list and pushes the
/// list's element at that index.
pub fn handle_index_access(interpreter: &mut Runtime) -> (r: Result<(), RuntimeError>)
    requires
        rt_wf(old(interpreter)@),
    ensures
        rt_wf(final(interpreter)@),
        (final(interpreter)@, r) == spec_index_access(old(interpreter)@),
{
    proof {
        reveal(spec_index_access);
    }
    let frames = interpreter.stack.len();
    if frames == 0 {
        return Err(RuntimeError::NoStackFrame);
    }
    let m = interpreter.stack[frames - 1].stack.len();
    if m < 2 {
        return Err(RuntimeError::EmptyStack);
    }
    let index_addr = interpreter.stack[frames - 1].stack[m - 1];
    let list_addr = interpreter.stack[frames - 1].stack[m - 2];
    let i = match interpreter.get_int(index_addr) {
        Err(e) => {
            return Err(e);
        },
        Ok(i) => i,
    };
    let l = match interpreter.get_list(list_addr) {
        Err(e) => {
            return Err(e);
        },
        Ok(l) => l,
    };
    if !(0 <= i && i < l.len() as i128) {
        return Err(RuntimeError::IndexOutOfRange);
    }
    let element = l[i as usize];
    let _ = interpreter.pop_stack();
    let _ = interpreter.pop_stack();
    interpreter.push_onto_stack(element)
}

/// The instruction `JumpIfFalseAndPopStack`: pops the top of the stack and
/// jumps to `destination` when it is false; the result says whether it jumped.
pub fn handle_jump_if_false_pop<H: FloatHost>(interpreter: &mut Runtime, destination: usize, host: &H) -> (r: Result<
    bool,
    RuntimeError,
>)
    requires
        rt_wf(old(interpreter)@),
        truth_ready(old(interpreter)@),
    ensures
        rt_wf(final(interpreter)@),
        exists|ans: FloatAnswerModel|
            (final(interpreter)@, r) == #[trigger] spec_jump_if_false(old(interpreter)@, destination, ans),
{
    proof {
        reveal(spec_jump_if_false);
    }
    let ghost s0 = interpreter@;
    let ghost failed = FloatAnswerModel::Failed;
    let top = match interpreter.top_stack() {
        Err(e) => {
            let r = Err(e);
            assert((interpreter@, r) == spec_jump_if_false(s0, destination, failed));
            return r;
        },
        Ok(a) => a,
    };
    match interpreter.method_of_obj(top, "__bool__") {
        Err(e) => {
            let r = Err(e);
            assert((interpreter@, r) == spec_jump_if_false(s0, destination, failed));
            return r;
        },
        Ok(None) => {
            let r = Err(RuntimeError::NoSuchMethod);
            assert((interpreter@, r) == spec_jump_if_false(s0, destination, failed));
            return r;
        },
        Ok(Some(_)) => {},
    }
    let stack_top = match interpreter.pop_stack() {
        Err(e) => {
            let r = Err(e);
            assert((interpreter@, r) == spec_jump_if_false(s0, destination, failed));
            return r;
        },
        Ok(a) => a,
    };
    let ghost s1 = interpreter@;
    let no_args: Vec<MemoryAddress> = Vec::new();
    assert(no_args@ =~= Seq::<MemoryAddress>::empty());
    let called = interpreter.call_method(stack_top, "__bool__", &no_args, host);
    let ghost a = choose|ans: FloatAnswerModel|
        (interpreter@, called) == spec_call_method(s1, stack_top, "__bool__"@, no_args@, ans);
    let as_boolean = match called {
        Err(e) => {
            let r = Err(e);
            assert((interpreter@, r) == spec_jump_if_false(s0, destination, a));
            return r;
        },
        Ok(None) => {
            let r = Err(RuntimeError::NoSuchMethod);
            assert((interpreter@, r) == spec_jump_if_false(s0, destination, a));
            return r;
        },
        Ok(Some(b)) => b,
    };
    let raw_value = match interpreter.get_int(as_boolean) {
        Err(e) => {
            let r = Err(e);
            assert((interpreter@, r) == spec_jump_if_false(s0, destination, a));
            return r;
        },
        Ok(v) => v,
    };
    let jumped = raw_value == 0;
    if jumped {
        interpreter.set_pc(destination);
    }
    let r4 = interpreter.decrease_refcount(as_boolean);
    let r = match r4 {
        Err(e) => Err(e),
        Ok(_) => Ok(jumped),
    };
    assert((interpreter@, r) == spec_jump_if_false(s0, destination, a));
    r
}

/// The instruction `JumpUnconditional`: sets the program counter to `destination`.
pub fn handle_jump_unconditional(interpreter: &mut Runtime, destination: usize)
    ensures
        final(interpreter)@ == (RuntimeModel { pc: destination, ..old(interpreter)@ }),
{
    interpreter.set_pc(destination);
}


/// The number an object holds (a copy), and its reference count.
fn number_data(obj: &PyObject) -> (r: (Option<BuiltInTypeData>, usize))
    ensures
        match number_of(obj@) {
            Some(d) => r.0 is Some && r.0->0@ == d,
            None => r.0 is None,
        },
        r.1 == refcount_of(obj@),
{
    match &obj.structure {
        PyObjectStructure::Object { raw_data, refcount } => match raw_data {
            BuiltInTypeData::Int(i) => (Some(BuiltInTypeData::Int(*i)), *refcount),
            BuiltInTypeData::Float(f) => (Some(BuiltInTypeData::Float(Float(f.0.clone()))), *refcount),
            BuiltInTypeData::String(_) => (None, *refcount),
            BuiltInTypeData::List(_) => (None, *refcount),
        },
        _ => (None, 0),
    }
}

fn operand_exec(d: &BuiltInTypeData) -> (r: FloatOperand)
    ensures
        r@ == operand_of(d@),
{
    match d {
        BuiltInTypeData::Int(i) => FloatOperand::Int(*i),
        BuiltInTypeData::Float(f) => FloatOperand::Float(Float(f.0.clone())),
        BuiltInTypeData::String(_) => FloatOperand::Int(0),
        BuiltInTypeData::List(_) => FloatOperand::Int(0),
    }
}

fn fast_arith_query_exec(op: ArithOp, a: &BuiltInTypeData, b: &BuiltInTypeData) -> (r: Option<FloatQuery>)
    ensures
        query_view(r) == fast_arith_query(op, a@, b@),
{
    let both_int = match (a, b) {
        (BuiltInTypeData::Int(_), BuiltInTypeData::Int(_)) => true,
        _ => false,
    };
    if both_int && op != ArithOp::TrueDiv {
        None
    } else {
        Some(FloatQuery::Arith(op, operand_exec(a), operand_exec(b)))
    }
}

fn float_answer_exec(ans: &FloatAnswer) -> (r: Result<BuiltInTypeData, RuntimeError>)
    ensures
        match float_answer(ans@) {
            Ok(v) => r is Ok && r->Ok_0@ == v,
            Err(e) => r is Err && r->Err_0 == e,
        },
{
    match ans {
        FloatAnswer::Float(t) => Ok(BuiltInTypeData::Float(Float(t.0.clone()))),
        _ => Err(RuntimeError::FloatFailed),
    }
}

fn fast_arith_exec(op: ArithOp, a: &BuiltInTypeData, b: &BuiltInTypeData, ans: &FloatAnswer) -> (r: Result<
    BuiltInTypeData,
    RuntimeError,
>)
    ensures
        match fast_arith(op, a@, b@, ans@) {
            Ok(v) => r is Ok && r->Ok_0@ == v,
            Err(e) => r is Err && r->Err_0 == e,
        },
{
    match (a, b) {
        (BuiltInTypeData::Int(x), BuiltInTypeData::Int(y)) => {
            if op == ArithOp::TrueDiv {
                float_answer_exec(ans)
            } else {
                let v = match op {
                    ArithOp::Add => x.checked_add(*y),
                    ArithOp::Sub => x.checked_sub(*y),
                    ArithOp::Mul => x.checked_mul(*y),
                    _ => {
                        if *y == 0 {
                            return Err(RuntimeError::DivisionByZero);
                        }
                        x.checked_rem(*y)
                    },
                };
                match v {
                    Some(v) => Ok(BuiltInTypeData::Int(v)),
                    None => Err(RuntimeError::Overflow),
                }
            }
        },
        _ => float_answer_exec(ans),
    }
}

fn fast_compare_query_exec(op: CompareOp, a: &BuiltInTypeData, b: &BuiltInTypeData) -> (r: Option<FloatQuery>)
    ensures
        query_view(r) == fast_compare_query(op, a@, b@),
{
    match (a, b) {
        (BuiltInTypeData::Int(_), BuiltInTypeData::Int(_)) => None,
        _ => Some(FloatQuery::Compare(op, operand_exec(a), operand_exec(b))),
    }
}

fn fast_compare_exec(op: CompareOp, a: &BuiltInTypeData, b: &BuiltInTypeData, ans: &FloatAnswer) -> (r: Result<
    bool,
    RuntimeError,
>)
    ensures
        r == fast_compare(op, a@, b@, ans@),
{
    match (a, b) {
        (BuiltInTypeData::Int(x), BuiltInTypeData::Int(y)) => Ok(
            match op {
                CompareOp::Eq => *x == *y,
                CompareOp::Ne => *x != *y,
                CompareOp::Lt => *x < *y,
                CompareOp::Le => *x <= *y,
                CompareOp::Gt => *x > *y,
                CompareOp::Ge => *x >= *y,
            },
        ),
        _ => match ans {
            FloatAnswer::Bool(r) => Ok(*r),
            _ => Err(RuntimeError::FloatFailed),
        },
    }
}

fn arith_method_name(op: ArithOp) -> (r: &'static str)
    ensures
        r@ == arith_method(op),
{
    match op {
        ArithOp::Add => "__add__",
        ArithOp::Sub => "__sub__",
        ArithOp::Mul => "__mul__",
        ArithOp::Mod => "__mod__",
        ArithOp::TrueDiv => "__truediv__",
    }
}

fn compare_method_name(op: CompareOp) -> (r: &'static str)
    ensures
        r@ == compare_method(op),
{
    match op {
        CompareOp::Eq => "__eq__",
        CompareOp::Ne => "__ne__",
        CompareOp::Lt => "__lt__",
        CompareOp::Le => "__le__",
        CompareOp::Gt => "__gt__",
        CompareOp::Ge => "__ge__",
    }
}

/// `LoadMethod` on any state: an error, and nothing changed, where it cannot run.
fn load_method_checked(interpreter: &mut Runtime, name: &str) -> (r: Result<(), RuntimeError>)
    requires
        rt_wf(old(interpreter)@),
    ensures
        rt_wf(final(interpreter)@),
        (final(interpreter)@, r) == spec_load_method(old(interpreter)@, name@),
{
    proof {
        reveal(spec_load_method);
    }
    let top = match interpreter.top_stack() {
        Err(e) => {
            return Err(e);
        },
        Ok(t) => t,
    };
    let t = match interpreter.get_pyobj_byaddr(top) {
        Err(e) => {
            return Err(e);
        },
        Ok(o) => o.type_addr,
    };
    match interpreter.get_type_method_addr_byname(t, name) {
        Err(e) => {
            return Err(e);
        },
        Ok(None) => {
            return Err(RuntimeError::NoSuchMethod);
        },
        Ok(Some(_)) => {},
    }
    handle_load_method(interpreter, name)
}

/// `LoadFunction` on any state: an error, and nothing changed, where it cannot run.
fn load_function_checked(interpreter: &mut Runtime, name: &str) -> (r: Result<(), RuntimeError>)
    requires
        rt_wf(old(interpreter)@),
    ensures
        rt_wf(final(interpreter)@),
        (final(interpreter)@, r) == spec_load_function(old(interpreter)@, name@),
{
    proof {
        reveal(spec_load_function);
    }
    let a = match interpreter.find_in_module(BUILTIN_MODULE, name) {
        Err(e) => {
            return Err(e);
        },
        Ok(None) => {
            return Err(RuntimeError::NoSuchFunction);
        },
        Ok(Some(a)) => a,
    };
    match interpreter.try_load_function_addr(a) {
        Err(e) => {
            return Err(e);
        },
        Ok(_) => {},
    }
    handle_load_function(interpreter, name)
}

/// `LoadName` on any state: an error, and nothing changed, where it cannot run.
fn load_name_checked(interpreter: &mut Runtime, name: &str) -> (r: Result<(), RuntimeError>)
    requires
        rt_wf(old(interpreter)@),
    ensures
        rt_wf(final(interpreter)@),
        (final(interpreter)@, r) == spec_load_name(old(interpreter)@, name@),
{
    proof {
        reveal(spec_load_name);
    }
    match interpreter.get_local(name) {
        Err(e) => Err(e),
        Ok(None) => Err(RuntimeError::NoSuchName),
        Ok(Some(_)) => handle_load_name(interpreter, name),
    }
}

/// `CallMethod` on any state: an error, and nothing changed, where the stack
/// does not hold what it needs.
fn method_call_checked<H: FloatHost>(interpreter: &mut Runtime, number_args: usize, host: &H) -> (r: Result<
    (),
    RuntimeError,
>)
    requires
        rt_wf(old(interpreter)@),
    ensures
        rt_wf(final(interpreter)@),
        exists|ans: FloatAnswerModel|
            (final(interpreter)@, r) == #[trigger] spec_method_call(old(interpreter)@, number_args as nat, ans),
{
    proof {
        reveal(spec_method_call);
    }
    let ghost s0 = interpreter@;
    let frames = interpreter.stack.len();
    if frames == 0 {
        let r = Err(RuntimeError::NoStackFrame);
        assert((interpreter@, r) == spec_method_call(s0, number_args as nat, FloatAnswerModel::Failed));
        return r;
    }
    let depth = interpreter.stack[frames - 1].stack.len();
    if depth < number_args || depth - number_args < 2 {
        let r = Err(RuntimeError::EmptyStack);
        assert((interpreter@, r) == spec_method_call(s0, number_args as nat, FloatAnswerModel::Failed));
        return r;
    }
    handle_method_call(interpreter, number_args, host)
}

/// `CallFunction` on any state: an error, and nothing changed, where the stack
/// does not hold what it needs.
fn function_call_checked<H: FloatHost>(interpreter: &mut Runtime, number_args: usize, host: &H) -> (r: Result<
    (),
    RuntimeError,
>)
    requires
        rt_wf(old(interpreter)@),
    ensures
        rt_wf(final(interpreter)@),
        exists|ans: FloatAnswerModel|
            (final(interpreter)@, r) == #[trigger] spec_function_call(old(interpreter)@, number_args as nat, ans),
{
    proof {
        reveal(spec_function_call);
    }
    let ghost s0 = interpreter@;
    let frames = interpreter.stack.len();
    if frames == 0 {
        let r = Err(RuntimeError::NoStackFrame);
        assert((interpreter@, r) == spec_function_call(s0, number_args as nat, FloatAnswerModel::Failed));
        return r;
    }
    let depth = interpreter.stack[frames - 1].stack.len();
    if depth < number_args || depth - number_args < 1 {
        let r = Err(RuntimeError::EmptyStack);
        assert((interpreter@, r) == spec_function_call(s0, number_args as nat, FloatAnswerModel::Failed));
        return r;
    }
    handle_function_call(interpreter, number_args, host)
}

/// `JumpIfFalseAndPopStack` on any state: an error, and nothing changed, where
/// the top of the stack has no `__bool__`.
fn jump_checked<H: FloatHost>(interpreter: &mut Runtime, destination: usize, host: &H) -> (r: Result<
    bool,
    RuntimeError,
>)
    requires
        rt_wf(old(interpreter)@),
    ensures
        rt_wf(final(interpreter)@),
        exists|ans: FloatAnswerModel|
            (final(interpreter)@, r) == #[trigger] spec_jump_if_false(old(interpreter)@, destination, ans),
{
    proof {
        reveal(spec_jump_if_false);
    }
    let ghost s0 = interpreter@;
    let top = match interpreter.top_stack() {
        Err(e) => {
            let r = Err(e);
            assert((interpreter@, r) == spec_jump_if_false(s0, destination, FloatAnswerModel::Failed));
            return r;
        },
        Ok(t) => t,
    };
    match interpreter.method_of_obj(top, "__bool__") {
        Err(e) => {
            let r = Err(e);
            assert((interpreter@, r) == spec_jump_if_false(s0, destination, FloatAnswerModel::Failed));
            return r;
        },
        Ok(None) => {
            let r = Err(RuntimeError::NoSuchMethod);
            assert((interpreter@, r) == spec_jump_if_false(s0, destination, FloatAnswerModel::Failed));
            return r;
        },
        Ok(Some(_)) => {},
    }
    handle_jump_if_false_pop(interpreter, destination, host)
}

/// Calls the method `name` of the object at `tos_1` with the object at `tos`.
fn method_fallback<H: FloatHost>(
    interpreter: &mut Runtime,
    tos_1: MemoryAddress,
    tos: MemoryAddress,
    name: &str,
    host: &H,
) -> (r: Result<(), RuntimeError>)
    requires
        rt_wf(old(interpreter)@),
    ensures
        rt_wf(final(interpreter)@),
        exists|ans: FloatAnswerModel|
            (final(interpreter)@, r) == #[trigger] spec_method_fallback(old(interpreter)@, tos_1, tos, name@, ans),
{
    let ghost s0 = interpreter@;
    let ghost failed = FloatAnswerModel::Failed;
    let r1 = interpreter.push_onto_stack(tos_1);
    if r1.is_err() {
        assert((interpreter@, r1) == spec_method_fallback(s0, tos_1, tos, name@, failed));
        return r1;
    }
    let r2 = load_method_checked(interpreter, name);
    if r2.is_err() {
        assert((interpreter@, r2) == spec_method_fallback(s0, tos_1, tos, name@, failed));
        return r2;
    }
    let r3 = interpreter.push_onto_stack(tos);
    if r3.is_err() {
        assert((interpreter@, r3) == spec_method_fallback(s0, tos_1, tos, name@, failed));
        return r3;
    }
    let ghost s3 = interpreter@;
    let r = method_call_checked(interpreter, 1, host);
    let ghost a = choose|ans: FloatAnswerModel| (interpreter@, r) == spec_method_call(s3, 1, ans);
    assert((interpreter@, r) == spec_method_fallback(s0, tos_1, tos, name@, a));
    r
}

/// One reference fewer on each operand that had none.
fn release_operands(
    interpreter: &mut Runtime,
    tos: MemoryAddress,
    rc_tos: usize,
    tos_1: MemoryAddress,
    rc_tos_1: usize,
    Ghost(o): Ghost<ObjModel>,
    Ghost(o1): Ghost<ObjModel>,
) -> (r: Result<(), RuntimeError>)
    requires
        rt_wf(old(interpreter)@),
        rc_tos == refcount_of(o),
        rc_tos_1 == refcount_of(o1),
    ensures
        rt_wf(final(interpreter)@),
        (final(interpreter)@, r) == release_unowned(old(interpreter)@, tos, o, tos_1, o1),
{
    if rc_tos == 0 {
        let r1 = interpreter.decrease_refcount(tos);
        if r1.is_err() {
            return r1;
        }
    }
    if rc_tos_1 == 0 {
        interpreter.decrease_refcount(tos_1)
    } else {
        Ok(())
    }
}

/// Pops the two operands of a binary or comparison instruction, with the
/// numbers they hold and their reference counts.
fn pop_operands(interpreter: &mut Runtime) -> (r: Result<
    (MemoryAddress, MemoryAddress, Option<BuiltInTypeData>, Option<BuiltInTypeData>, usize, usize),
    RuntimeError,
>)
    requires
        rt_wf(old(interpreter)@),
    ensures
        rt_wf(final(interpreter)@),
        ({
            let (s1, r1) = rt_pop(old(interpreter)@);
            match r1 {
                Err(e) => r is Err && r->Err_0 == e && final(interpreter)@ == s1,
                Ok(tos) => {
                    let (s2, r2) = rt_pop(s1);
                    match r2 {
                        Err(e) => r is Err && r->Err_0 == e && final(interpreter)@ == s2,
                        Ok(tos_1) => final(interpreter)@ == s2 && match rt_get(s2, tos) {
                            None => r is Err && r->Err_0 == RuntimeError::InvalidAddress(tos),
                            Some(o) => match rt_get(s2, tos_1) {
                                None => r is Err && r->Err_0 == RuntimeError::InvalidAddress(tos_1),
                                Some(o1) => r is Ok && ({
                                    let (t, t1, b, a, rc, rc1) = r->Ok_0;
                                    &&& t == tos
                                    &&& t1 == tos_1
                                    &&& rc == refcount_of(o)
                                    &&& rc1 == refcount_of(o1)
                                    &&& match number_of(o) {
                                        Some(d) => b is Some && b->0@ == d,
                                        None => b is None,
                                    }
                                    &&& match number_of(o1) {
                                        Some(d) => a is Some && a->0@ == d,
                                        None => a is None,
                                    }
                                }),
                            },
                        },
                    }
                },
            }
        }),
{
    let tos = match interpreter.pop_stack() {
        Err(e) => {
            return Err(e);
        },
        Ok(a) => a,
    };
    let tos_1 = match interpreter.pop_stack() {
        Err(e) => {
            return Err(e);
        },
        Ok(a) => a,
    };
    let (b, rc) = match interpreter.get_pyobj_byaddr(tos) {
        Err(e) => {
            return Err(e);
        },
        Ok(obj) => number_data(obj),
    };
    let (a, rc1) = match interpreter.get_pyobj_byaddr(tos_1) {
        Err(e) => {
            return Err(e);
        },
        Ok(obj) => number_data(obj),
    };
    Ok((tos, tos_1, b, a, rc, rc1))
}

/// The numbers held by the two top entries of the operand stack, the lower one first.
fn operands_exec(interpreter: &Runtime) -> (r: Option<(BuiltInTypeData, BuiltInTypeData)>)
    requires
        rt_wf(interpreter@),
    ensures
        match operands_of(interpreter@) {
            Some((a, b)) => r matches Some((x, y)) && x@ == a && y@ == b,
            None => r is None,
        },
{
    let n = interpreter.stack.len();
    if n == 0 {
        return None;
    }
    let m = interpreter.stack[n - 1].stack.len();
    if m < 2 {
        return None;
    }
    let tos_1 = interpreter.stack[n - 1].stack[m - 2];
    let tos = interpreter.stack[n - 1].stack[m - 1];
    let a = match interpreter.get_pyobj_byaddr(tos_1) {
        Err(_) => {
            return None;
        },
        Ok(o1) => number_data(o1).0,
    };
    let b = match interpreter.get_pyobj_byaddr(tos) {
        Err(_) => {
            return None;
        },
        Ok(o) => number_data(o).0,
    };
    match (a, b) {
        (Some(a), Some(b)) => Some((a, b)),
        _ => None,
    }
}

/// The float query that the binary instruction `op` asks the host, when it asks one.
pub fn binary_operation_query(interpreter: &Runtime, op: ArithOp) -> (r: Option<FloatQuery>)
    requires
        rt_wf(interpreter@),
    ensures
        query_view(r) == spec_binary_query(interpreter@, op),
{
    match operands_exec(interpreter) {
        None => None,
        Some((a, b)) => fast_arith_query_exec(op, &a, &b),
    }
}

/// The float query that the comparison instruction `op` asks the host, when it asks one.
pub fn compare_operation_query(interpreter: &Runtime, op: CompareOp) -> (r: Option<FloatQuery>)
    requires
        rt_wf(interpreter@),
    ensures
        query_view(r) == spec_compare_query(interpreter@, op),
{
    match operands_exec(interpreter) {
        None => None,
        Some((a, b)) => fast_compare_query_exec(op, &a, &b),
    }
}

/// The binary instruction `op` on two numbers, given the host's answer `ans`
/// to its float query.
pub fn handle_binary_operation_answered(interpreter: &mut Runtime, op: ArithOp, ans: &FloatAnswer) -> (r: Result<
    (),
    RuntimeError,
>)
    requires
        rt_wf(old(interpreter)@),
        operands_of(old(interpreter)@) is Some,
    ensures
        rt_wf(final(interpreter)@),
        (final(interpreter)@, r) == spec_binary_instr(old(interpreter)@, op, ans@),
{
    proof {
        reveal(spec_binary_instr);
    }
    let ghost s0 = interpreter@;
    let (tos, tos_1, b, a, rc, rc1) = match pop_operands(interpreter) {
        Err(e) => {
            return Err(e);
        },
        Ok(x) => x,
    };
    let ghost o = rt_get(interpreter@, tos).unwrap();
    let ghost o1 = rt_get(interpreter@, tos_1).unwrap();
    let (a, b) = match (a, b) {
        (Some(a), Some(b)) => (a, b),
        _ => {
            proof {
                assert(false);
            }
            return Err(RuntimeError::UnsupportedOperand);
        },
    };
    let v = match fast_arith_exec(op, &a, &b, ans) {
        Err(e) => {
            return Err(e);
        },
        Ok(v) => v,
    };
    let r3 = release_operands(interpreter, tos, rc, tos_1, rc1, Ghost(o), Ghost(o1));
    if r3.is_err() {
        return r3;
    }
    let t = match &v {
        BuiltInTypeData::Int(_) => interpreter.builtin_type_addrs.int,
        _ => interpreter.builtin_type_addrs.float,
    };
    match interpreter.allocate_type_byaddr_raw(t, v) {
        Err(e) => Err(e),
        Ok(addr) => interpreter.push_onto_stack(addr),
    }
}

/// The comparison instruction `op` on two numbers, given the host's answer
/// `ans` to its float query.
pub fn handle_compare_operation_answered(interpreter: &mut Runtime, op: CompareOp, ans: &FloatAnswer) -> (r: Result<
    (),
    RuntimeError,
>)
    requires
        rt_wf(old(interpreter)@),
        operands_of(old(interpreter)@) is Some,
    ensures
        rt_wf(final(interpreter)@),
        (final(interpreter)@, r) == spec_compare_instr(old(interpreter)@, op, ans@),
{
    proof {
        reveal(spec_compare_instr);
    }
    let ghost s0 = interpreter@;
    let (tos, tos_1, b, a, rc, rc1) = match pop_operands(interpreter) {
        Err(e) => {
            return Err(e);
        },
        Ok(x) => x,
    };
    let ghost o = rt_get(interpreter@, tos).unwrap();
    let ghost o1 = rt_get(interpreter@, tos_1).unwrap();
    let (a, b) = match (a, b) {
        (Some(a), Some(b)) => (a, b),
        _ => {
            proof {
                assert(false);
            }
            return Err(RuntimeError::UnsupportedOperand);
        },
    };
    let v = match fast_compare_exec(op, &a, &b, ans) {
        Err(e) => {
            return Err(e);
        },
        Ok(v) => v,
    };
    let r3 = release_operands(interpreter, tos, rc, tos_1, rc1, Ghost(o), Ghost(o1));
    if r3.is_err() {
        return r3;
    }
    let addr = interpreter.bool_addr(v);
    interpreter.push_onto_stack(addr)
}

/// A binary instruction (`BinaryAdd`, `BinaryModulus`, `BinarySubtract`,
/// `BinaryMultiply`, `BinaryTrueDivision`). On two numbers it asks the host the
/// query of `binary_operation_query` and goes on as
/// `handle_binary_operation_answered` does with the answer.
pub fn handle_binary_operation<H: FloatHost>(interpreter: &mut Runtime, op: ArithOp, host: &H) -> (r: Result<
    (),
    RuntimeError,
>)
    requires
        rt_wf(old(interpreter)@),
    ensures
        rt_wf(final(interpreter)@),
        exists|ans: FloatAnswerModel| (final(interpreter)@, r) == #[trigger] spec_binary_instr(old(interpreter)@, op, ans),
{
    proof {
        reveal(spec_binary_instr);
    }
    let ghost s0 = interpreter@;
    let ghost failed = FloatAnswerModel::Failed;
    if let Some(q) = binary_operation_query(interpreter, op) {
        let ans = host.compute(&q);
        let r = handle_binary_operation_answered(interpreter, op, &ans);
        assert((interpreter@, r) == spec_binary_instr(s0, op, ans@));
        return r;
    }
    let (tos, tos_1, b, a, rc, rc1) = match pop_operands(interpreter) {
        Err(e) => {
            let r = Err(e);
            assert((interpreter@, r) == spec_binary_instr(s0, op, failed));
            return r;
        },
        Ok(x) => x,
    };
    let ghost s2 = interpreter@;
    let ghost o = rt_get(s2, tos).unwrap();
    let ghost o1 = rt_get(s2, tos_1).unwrap();
    match (a, b) {
        (Some(a), Some(b)) => {
            let ans = match fast_arith_query_exec(op, &a, &b) {
                Some(q) => host.compute(&q),
                None => FloatAnswer::Failed,
            };
            let v = match fast_arith_exec(op, &a, &b, &ans) {
                Err(e) => {
                    let r = Err(e);
                    assert((interpreter@, r) == spec_binary_instr(s0, op, ans@));
                    return r;
                },
                Ok(v) => v,
            };
            let r3 = release_operands(interpreter, tos, rc, tos_1, rc1, Ghost(o), Ghost(o1));
            if r3.is_err() {
                assert((interpreter@, r3) == spec_binary_instr(s0, op, ans@));
                return r3;
            }
            let t = match &v {
                BuiltInTypeData::Int(_) => interpreter.builtin_type_addrs.int,
                _ => interpreter.builtin_type_addrs.float,
            };
            let r = match interpreter.allocate_type_byaddr_raw(t, v) {
                Err(e) => Err(e),
                Ok(addr) => interpreter.push_onto_stack(addr),
            };
            assert((interpreter@, r) == spec_binary_instr(s0, op, ans@));
            r
        },
        _ => {
            let r = method_fallback(interpreter, tos_1, tos, arith_method_name(op), host);
            let ghost x = choose|ans: FloatAnswerModel|
                (interpreter@, r) == spec_method_fallback(s2, tos_1, tos, arith_method(op), ans);
            assert((interpreter@, r) == spec_binary_instr(s0, op, x));
            r
        },
    }
}

/// A comparison instruction (`CompareLessEquals`, `CompareGreaterEquals`,
/// `CompareGreaterThan`, `CompareLessThan`, `CompareEquals`, `CompareNotEquals`).
/// On two numbers it asks the host the query of `compare_operation_query` and
/// goes on as `handle_compare_operation_answered` does with the answer.
pub fn handle_compare_operation<H: FloatHost>(interpreter: &mut Runtime, op: CompareOp, host: &H) -> (r: Result<
    (),
    RuntimeError,
>)
    requires
        rt_wf(old(interpreter)@),
    ensures
        rt_wf(final(interpreter)@),
        exists|ans: FloatAnswerModel| (final(interpreter)@, r) == #[trigger] spec_compare_instr(old(interpreter)@, op, ans),
{
    proof {
        reveal(spec_compare_instr);
    }
    let ghost s0 = interpreter@;
    let ghost failed = FloatAnswerModel::Failed;
    if let Some(q) = compare_operation_query(interpreter, op) {
        let ans = host.compute(&q);
        let r = handle_compare_operation_answered(interpreter, op, &ans);
        assert((interpreter@, r) == spec_compare_instr(s0, op, ans@));
        return r;
    }
    let (tos, tos_1, b, a, rc, rc1) = match pop_operands(interpreter) {
        Err(e) => {
            let r = Err(e);
            assert((interpreter@, r) == spec_compare_instr(s0, op, failed));
            return r;
        },
        Ok(x) => x,
    };
    let ghost s2 = interpreter@;
    let ghost o = rt_get(s2, tos).unwrap();
    let ghost o1 = rt_get(s2, tos_1).unwrap();
    match (a, b) {
        (Some(a), Some(b)) => {
            let ans = match fast_compare_query_exec(op, &a, &b) {
                Some(q) => host.compute(&q),
                None => FloatAnswer::Failed,
            };
            let v = match fast_compare_exec(op, &a, &b, &ans) {
                Err(e) => {
                    let r = Err(e);
                    assert((interpreter@, r) == spec_compare_instr(s0, op, ans@));
                    return r;
                },
                Ok(v) => v,
            };
            let r3 = release_operands(interpreter, tos, rc, tos_1, rc1, Ghost(o), Ghost(o1));
            if r3.is_err() {
                assert((interpreter@, r3) == spec_compare_instr(s0, op, ans@));
                return r3;
            }
            let addr = interpreter.bool_addr(v);
            let r = interpreter.push_onto_stack(addr);
            assert((interpreter@, r) == spec_compare_instr(s0, op, ans@));
            r
        },
        _ => {
            let r = method_fallback(interpreter, tos_1, tos, compare_method_name(op), host);
            let ghost x = choose|ans: FloatAnswerModel|
                (interpreter@, r) == spec_method_fallback(s2, tos_1, tos, compare_method(op), ans);
            assert((interpreter@, r) == spec_compare_instr(s0, op, x));
            r
        },
    }
}

/// Whether the instruction calls nothing that may ask the host.
pub open spec fn is_plain(i: Instruction) -> bool {
    match i {
        Instruction::LoadConst(_) => true,
        Instruction::LoadMethod(_) => true,
        Instruction::LoadFunction(_) => true,
        Instruction::StoreName(_) => true,
        Instruction::LoadName(_) => true,
        Instruction::JumpUnconditional(_) => true,
        Instruction::UnresolvedBreak => true,
        Instruction::BuildList { .. } => true,
        Instruction::IndexAccess => true,
        Instruction::Raise => true,
        Instruction::ReturnValue => true,
        _ => false,
    }
}

/// Executes a binary or comparison instruction at the program counter.
fn execute_operator_instruction<H: FloatHost>(
    interpreter: &mut Runtime,
    instructions: &Vec<Instruction>,
    data: &Vec<Const>,
    host: &H,
) -> (r: Result<(), RuntimeError>)
    requires
        rt_wf(old(interpreter)@),
        old(interpreter)@.pc < instructions@.len(),
        operator_of(instructions@[old(interpreter)@.pc as int]) is Some,
    ensures
        rt_wf(final(interpreter)@),
        exists|ans: FloatAnswerModel|
            (final(interpreter)@, r) == #[trigger] spec_step(
                old(interpreter)@,
                instrs_view(instructions@),
                consts_view(data@),
                ans,
            ),
{
    let ghost s0 = interpreter@;
    let ghost code = instrs_view(instructions@);
    let ghost pool = consts_view(data@);
    let pc = interpreter.prog_counter;
    let n = instructions.len();
    assert(code[pc as int] == instructions@[pc as int]@);
    let r = match operator_exec(&instructions[pc]) {
        Some(Ok(op)) => {
            let r = handle_binary_operation(interpreter, op, host);
            let ghost a = choose|ans: FloatAnswerModel| (interpreter@, r) == spec_binary_instr(s0, op, ans);
            if r.is_ok() {
                interpreter.prog_counter = pc + 1;
            }
            assert((interpreter@, r) == spec_step(s0, code, pool, a));
            r
        },
        Some(Err(op)) => {
            let r = handle_compare_operation(interpreter, op, host);
            let ghost a = choose|ans: FloatAnswerModel| (interpreter@, r) == spec_compare_instr(s0, op, ans);
            if r.is_ok() {
                interpreter.prog_counter = pc + 1;
            }
            assert((interpreter@, r) == spec_step(s0, code, pool, a));
            r
        },
        None => Err(RuntimeError::UnresolvedBreak),
    };
    r
}

/// The operation of a binary instruction (`Ok`) or comparison instruction (`Err`).
pub open spec fn operator_of(i: Instruction) -> Option<Result<ArithOp, CompareOp>> {
    match i {
        Instruction::BinaryAdd => Some(Ok(ArithOp::Add)),
        Instruction::BinaryModulus => Some(Ok(ArithOp::Mod)),
        Instruction::BinarySubtract => Some(Ok(ArithOp::Sub)),
        Instruction::BinaryMultiply => Some(Ok(ArithOp::Mul)),
        Instruction::BinaryTrueDivision => Some(Ok(ArithOp::TrueDiv)),
        Instruction::CompareLessEquals => Some(Err(CompareOp::Le)),
        Instruction::CompareGreaterEquals => Some(Err(CompareOp::Ge)),
        Instruction::CompareGreaterThan => Some(Err(CompareOp::Gt)),
        Instruction::CompareLessThan => Some(Err(CompareOp::Lt)),
        Instruction::CompareEquals => Some(Err(CompareOp::Eq)),
        Instruction::CompareNotEquals => Some(Err(CompareOp::Ne)),
        _ => None,
    }
}

fn operator_exec(i: &Instruction) -> (r: Option<Result<ArithOp, CompareOp>>)
    ensures
        r == operator_of(*i),
{
    match i {
        Instruction::BinaryAdd => Some(Ok(ArithOp::Add)),
        Instruction::BinaryModulus => Some(Ok(ArithOp::Mod)),
        Instruction::BinarySubtract => Some(Ok(ArithOp::Sub)),
        Instruction::BinaryMultiply => Some(Ok(ArithOp::Mul)),
        Instruction::BinaryTrueDivision => Some(Ok(ArithOp::TrueDiv)),
        Instruction::CompareLessEquals => Some(Err(CompareOp::Le)),
        Instruction::CompareGreaterEquals => Some(Err(CompareOp::Ge)),
        Instruction::CompareGreaterThan => Some(Err(CompareOp::Gt)),
        Instruction::CompareLessThan => Some(Err(CompareOp::Lt)),
        Instruction::CompareEquals => Some(Err(CompareOp::Eq)),
        Instruction::CompareNotEquals => Some(Err(CompareOp::Ne)),
        _ => None,
    }
}

/// Executes the instruction at the program counter when it calls nothing that
/// may ask the host.
fn execute_plain_instruction(interpreter: &mut Runtime, instructions: &Vec<Instruction>, data: &Vec<Const>) -> (r:
    Result<(), RuntimeError>)
    requires
        rt_wf(old(interpreter)@),
        old(interpreter)@.pc < instructions@.len(),
        is_plain(instructions@[old(interpreter)@.pc as int]),
    ensures
        rt_wf(final(interpreter)@),
        (final(interpreter)@, r) == spec_step(
            old(interpreter)@,
            instrs_view(instructions@),
            consts_view(data@),
            FloatAnswerModel::Failed,
        ),
{
    let ghost code = instrs_view(instructions@);
    let ghost pool = consts_view(data@);
    let pc = interpreter.prog_counter;
    let n = instructions.len();
    assert(code[pc as int] == instructions@[pc as int]@);
    let r = match &instructions[pc] {
        Instruction::LoadConst(i) => {
            if *i >= data.len() {
                Err(RuntimeError::NoSuchConstant)
            } else {
                assert(pool[*i as int] == data@[*i as int]@);
                handle_load_const(interpreter, &data[*i])
            }
        },
        Instruction::LoadMethod(name) => load_method_checked(interpreter, name.as_str()),
        Instruction::LoadFunction(name) => load_function_checked(interpreter, name.as_str()),
        Instruction::StoreName(name) => handle_store_name(interpreter, name.as_str()),
        Instruction::LoadName(name) => load_name_checked(interpreter, name.as_str()),
        Instruction::BuildList { number_elements } => handle_build_list(interpreter, *number_elements),
        Instruction::IndexAccess => handle_index_access(interpreter),
        Instruction::Raise => {
            return handle_raise(interpreter, n);
        },
        Instruction::ReturnValue => {
            return handle_return_value(interpreter, n);
        },
        Instruction::JumpUnconditional(destination) => {
            handle_jump_unconditional(interpreter, *destination);
            return Ok(());
        },
        _ => Err(RuntimeError::UnresolvedBreak),
    };
    if r.is_ok() {
        interpreter.prog_counter = pc + 1;
    }
    r
}

/// Executes a `CallMethod` or `CallFunction` instruction at the program counter.
fn execute_call_instruction<H: FloatHost>(interpreter: &mut Runtime, instructions: &Vec<Instruction>, data: &Vec<Const>, host: &H) -> (r:
    Result<(), RuntimeError>)
    requires
        rt_wf(old(interpreter)@),
        old(interpreter)@.pc < instructions@.len(),
        instructions@[old(interpreter)@.pc as int] is CallMethod || instructions@[old(interpreter)@.pc as int] is CallFunction,
    ensures
        rt_wf(final(interpreter)@),
        exists|ans: FloatAnswerModel|
            (final(interpreter)@, r) == #[trigger] spec_step(
                old(interpreter)@,
                instrs_view(instructions@),
                consts_view(data@),
                ans,
            ),
{
    let ghost s0 = interpreter@;
    let ghost code = instrs_view(instructions@);
    let ghost pool = consts_view(data@);
    let pc = interpreter.prog_counter;
    let n = instructions.len();
    assert(code[pc as int] == instructions@[pc as int]@);
    match &instructions[pc] {
        Instruction::CallMethod { number_arguments } => {
            let r = method_call_checked(interpreter, *number_arguments, host);
            let ghost a = choose|ans: FloatAnswerModel|
                (interpreter@, r) == spec_method_call(s0, *number_arguments as nat, ans);
            if r.is_ok() {
                interpreter.prog_counter = pc + 1;
            }
            assert((interpreter@, r) == spec_step(s0, code, pool, a));
            r
        },
        _ => {
            let number_arguments = match &instructions[pc] {
                Instruction::CallFunction { number_arguments } => *number_arguments,
                _ => 0,
            };
            let r = function_call_checked(interpreter, number_arguments, host);
            let ghost a = choose|ans: FloatAnswerModel|
                (interpreter@, r) == spec_function_call(s0, number_arguments as nat, ans);
            if r.is_ok() {
                interpreter.prog_counter = pc + 1;
            }
            assert((interpreter@, r) == spec_step(s0, code, pool, a));
            r
        },
    }
}

/// Executes a `JumpIfFalseAndPopStack` instruction at the program counter.
fn execute_jump_instruction<H: FloatHost>(interpreter: &mut Runtime, instructions: &Vec<Instruction>, data: &Vec<Const>, host: &H) -> (r:
    Result<(), RuntimeError>)
    requires
        rt_wf(old(interpreter)@),
        old(interpreter)@.pc < instructions@.len(),
        instructions@[old(interpreter)@.pc as int] is JumpIfFalseAndPopStack,
    ensures
        rt_wf(final(interpreter)@),
        exists|ans: FloatAnswerModel|
            (final(interpreter)@, r) == #[trigger] spec_step(
                old(interpreter)@,
                instrs_view(instructions@),
                consts_view(data@),
                ans,
            ),
{
    let ghost s0 = interpreter@;
    let ghost code = instrs_view(instructions@);
    let ghost pool = consts_view(data@);
    let pc = interpreter.prog_counter;
    let n = instructions.len();
    assert(code[pc as int] == instructions@[pc as int]@);
    let destination = match &instructions[pc] {
        Instruction::JumpIfFalseAndPopStack(d) => *d,
        _ => 0,
    };
    let j = jump_checked(interpreter, destination, host);
    let ghost a = choose|ans: FloatAnswerModel| (interpreter@, j) == spec_jump_if_false(s0, destination, ans);
    let r = match j {
        Err(e) => Err(e),
        Ok(jumped) => {
            if !jumped {
                interpreter.prog_counter = pc + 1;
            }
            Ok(())
        },
    };
    assert((interpreter@, r) == spec_step(s0, code, pool, a));
    r
}

/// Executes the instruction at the program counter, with `data` as the constant pool.
pub fn execute_instruction<H: FloatHost>(
    interpreter: &mut Runtime,
    instructions: &Vec<Instruction>,
    data: &Vec<Const>,
    host: &H,
) -> (r: Result<(), RuntimeError>)
    requires
        rt_wf(old(interpreter)@),
        old(interpreter)@.pc < instructions@.len(),
    ensures
        rt_wf(final(interpreter)@),
        exists|ans: FloatAnswerModel|
            (final(interpreter)@, r) == #[trigger] spec_step(
                old(interpreter)@,
                instrs_view(instructions@),
                consts_view(data@),
                ans,
            ),
{
    let pc = interpreter.prog_counter;
    match &instructions[pc] {
        Instruction::CallMethod { .. } | Instruction::CallFunction { .. } => execute_call_instruction(
            interpreter,
            instructions,
            data,
            host,
        ),
        Instruction::JumpIfFalseAndPopStack(_) => execute_jump_instruction(interpreter, instructions, data, host),
        Instruction::BinaryAdd | Instruction::BinaryModulus | Instruction::BinarySubtract
        | Instruction::BinaryMultiply | Instruction::BinaryTrueDivision | Instruction::CompareLessEquals
        | Instruction::CompareGreaterEquals | Instruction::CompareGreaterThan | Instruction::CompareLessThan
        | Instruction::CompareEquals | Instruction::CompareNotEquals => execute_operator_instruction(
            interpreter,
            instructions,
            data,
            host,
        ),
        _ => {
            let r = execute_plain_instruction(interpreter, instructions, data);
            assert((interpreter@, r) == spec_step(
                old(interpreter)@,
                instrs_view(instructions@),
                consts_view(data@),
                FloatAnswerModel::Failed,
            ));
            r
        },
    }
}

/// What a run with step budget `max_steps` ends in: the state after the steps
/// taken with the host's answers `answers`, and `Ok` when the program counter
/// left the code, the error of the step that failed, or `OutOfSteps` when the
/// budget ran out first.
pub open spec fn run_outcome(
    s: RuntimeModel,
    code: Seq<InstructionModel>,
    data: Seq<ConstModel>,
    max_steps: nat,
    answers: Seq<FloatAnswerModel>,
    end: RuntimeModel,
    r: Result<(), RuntimeError>,
) -> bool {
    &&& answers.len() <= max_steps
    &&& end == spec_run(s, code, data, answers).0
    &&& match spec_run(s, code, data, answers).1 {
        Err(e) => r == Err::<(), RuntimeError>(e),
        Ok(_) => if end.pc >= code.len() {
            r == Ok::<(), RuntimeError>(())
        } else {
            answers.len() == max_steps && r == Err::<(), RuntimeError>(RuntimeError::OutOfSteps)
        },
    }
}

/// Executes `instructions` from the program counter until it leaves them, an
/// instruction fails, or `max_steps` instructions have run.
pub fn execute_instructions<H: FloatHost>(
    interpreter: &mut Runtime,
    instructions: &Vec<Instruction>,
    data: &Vec<Const>,
    host: &H,
    max_steps: usize,
) -> (r: Result<(), RuntimeError>)
    requires
        rt_wf(old(interpreter)@),
    ensures
        rt_wf(final(interpreter)@),
        r is Ok ==> final(interpreter)@.pc >= instructions@.len(),
        exists|answers: Seq<FloatAnswerModel>|
            #[trigger] run_outcome(
                old(interpreter)@,
                instrs_view(instructions@),
                consts_view(data@),
                max_steps as nat,
                answers,
                final(interpreter)@,
                r,
            ),
{
    let ghost s0 = interpreter@;
    let ghost code = instrs_view(instructions@);
    let ghost pool = consts_view(data@);
    let ghost mut answers: Seq<FloatAnswerModel> = Seq::empty();
    let mut steps: usize = 0;
    loop
        invariant
            rt_wf(interpreter@),
            s0 == old(interpreter)@,
            code == instrs_view(instructions@),
            pool == consts_view(data@),
            code.len() == instructions@.len(),
            steps <= max_steps,
            answers.len() == steps,
            spec_run(s0, code, pool, answers).0 == interpreter@,
            spec_run(s0, code, pool, answers).1 is Ok,
        decreases max_steps - steps,
    {
        if interpreter.prog_counter >= instructions.len() {
            let r = Ok(());
            assert(run_outcome(s0, code, pool, max_steps as nat, answers, interpreter@, r));
            return r;
        }
        if steps == max_steps {
            let r = Err(RuntimeError::OutOfSteps);
            assert(run_outcome(s0, code, pool, max_steps as nat, answers, interpreter@, r));
            return r;
        }
        let ghost before = interpreter@;
        let r = execute_instruction(interpreter, instructions, data, host);
        let ghost a = choose|ans: FloatAnswerModel| (interpreter@, r) == spec_step(before, code, pool, ans);
        proof {
            assert(answers.push(a).drop_last() =~= answers);
            answers = answers.push(a);
        }
        steps = steps + 1;
        if r.is_err() {
            assert(run_outcome(s0, code, pool, max_steps as nat, answers, interpreter@, r));
            return r;
        }
    }
}

/// Executes a compiled program from the program counter, with at most `max_steps` instructions.
pub fn execute_program<H: FloatHost>(interpreter: &mut Runtime, program: &Program, host: &H, max_steps: usize) -> (r:
    Result<(), RuntimeError>)
    requires
        rt_wf(old(interpreter)@),
    ensures
        rt_wf(final(interpreter)@),
        r is Ok ==> final(interpreter)@.pc >= program.code@.len(),
        exists|answers: Seq<FloatAnswerModel>|
            #[trigger] run_outcome(
                old(interpreter)@,
                instrs_view(program.code@),
                consts_view(program.data@),
                max_steps as nat,
                answers,
                final(interpreter)@,
                r,
            ),
{
    execute_instructions(interpreter, &program.code, &program.data, host, max_steps)
}


/// Storing into a local the object that it already holds, as in `x = x`,
/// succeeds, pops the stack, keeps the binding, and leaves the object and its
/// reference count as they were.
pub proof fn law_store_under_same_name(s: RuntimeModel, name: Seq<char>, a: MemoryAddress)
    requires
        rt_wf(s),
        s.frames.len() > 0,
        s.frames.last().stack.len() > 0,
        s.frames.last().stack.last() == a,
        rt_get_local(s, name) == Ok::<Option<MemoryAddress>, RuntimeError>(Some(a)),
        rt_get(s, a) matches Some(obj) && obj.structure matches StructureModel::Object { refcount, .. } && 0
            < refcount < usize::MAX,
    ensures
        spec_store_name(s, name).1 == Ok::<(), RuntimeError>(()),
        spec_store_name(s, name).0 == rt_bind_local(rt_pop(s).0, name, a).0,
        spec_store_name(s, name).0.mem == s.mem,
        rt_get_local(spec_store_name(s, name).0, name) == Ok::<Option<MemoryAddress>, RuntimeError>(Some(a)),
{
    reveal(spec_store_name);
    let s1 = rt_pop(s).0;
    assert(s1.frames.last().values == s.frames.last().values);
    law_incref_then_decref(s1, a);
    law_bind_then_get_local(s1, name, a, name);
}


/// Popping operands keeps the number of frames.
proof fn lemma_pop_n_frames(s: RuntimeModel, n: nat)
    ensures
        spec_pop_n(s, n).0.frames.len() == s.frames.len(),
    decreases n,
{
    if n > 0 {
        lemma_pop_n_frames(s, (n - 1) as nat);
    }
}

/// Counting references keeps the frames.
proof fn lemma_incref_all_frames(s: RuntimeModel, addrs: Seq<MemoryAddress>)
    ensures
        rt_incref_all(s, addrs).0.frames == s.frames,
    decreases addrs.len(),
{
    if addrs.len() > 0 {
        lemma_incref_all_frames(s, addrs.drop_last());
    }
}

/// A call of a function object keeps the frames.
proof fn lemma_callable_frames(
    s: RuntimeModel,
    f: MemoryAddress,
    bound: Option<MemoryAddress>,
    args: Seq<MemoryAddress>,
    ans: FloatAnswerModel,
)
    ensures
        spec_callable_call(s, f, bound, args, ans).0.frames == s.frames,
{
    if let Some(obj) = rt_get(s, f) {
        if let StructureModel::NativeCallable { code, .. } = obj.structure {
            lemma_native_frames(s, code, bound, args, ans);
        }
    }
}

/// The end of a call removes one frame.
proof fn lemma_finish_frames(s: RuntimeModel, bound: Option<MemoryAddress>, args: Seq<MemoryAddress>, v: MemoryAddress)
    ensures
        spec_finish_call(s, bound, args, v).1 is Ok ==> spec_finish_call(s, bound, args, v).0.frames.len() + 1
            == s.frames.len(),
{
    let (s1, r1) = match bound {
        Some(b) => rt_decref(s, b),
        None => (s, Ok(())),
    };
    if let Some(b) = bound {
        lemma_decref_frames(s, b);
    }
    if r1 is Ok {
        lemma_decref_all_frames(s1, args);
        let s2 = rt_decref_all(s1, args).0;
        if s2.frames.len() > 0 {
            let f = s2.frames.last();
            lemma_decref_all_frames(RuntimeModel { frames: s2.frames.drop_last(), ..s2 }, f.stack);
        }
    }
}

/// A `CallMethod` that succeeds keeps the number of frames.
proof fn lemma_method_call_frames(s: RuntimeModel, n: nat, ans: FloatAnswerModel)
    ensures
        spec_method_call(s, n, ans).1 is Ok ==> spec_method_call(s, n, ans).0.frames.len() == s.frames.len(),
{
    reveal(spec_method_call);
    lemma_pop_n_frames(s, n);
    let (sa, ra) = spec_pop_n(s, n);
    if let Ok(args) = ra {
        let sb = rt_pop(sa).0;
        if let Ok(f) = rt_pop(sa).1 {
            let sc = rt_pop(sb).0;
            if let Ok(b) = rt_pop(sb).1 {
                let sd = rt_incref(sc, b).0;
                lemma_incref_all_frames(sd, args);
                let s1 = rt_new_frame(rt_incref_all(sd, args).0);
                lemma_callable_frames(s1, f, Some(b), args, ans);
                let (s2, r2) = spec_bounded_call(s1, b, f, args, ans);
                if let Ok(v) = r2 {
                    lemma_finish_frames(s2, Some(b), args, v);
                }
            }
        }
    }
}

/// A `CallFunction` that succeeds keeps the number of frames.
proof fn lemma_function_call_frames(s: RuntimeModel, n: nat, ans: FloatAnswerModel)
    ensures
        spec_function_call(s, n, ans).1 is Ok ==> spec_function_call(s, n, ans).0.frames.len() == s.frames.len(),
{
    reveal(spec_function_call);
    lemma_pop_n_frames(s, n);
    let (sa, ra) = spec_pop_n(s, n);
    if let Ok(args) = ra {
        let sb = rt_pop(sa).0;
        if let Ok(f) = rt_pop(sa).1 {
            lemma_incref_all_frames(sb, args);
            let s1 = rt_new_frame(rt_incref_all(sb, args).0);
            lemma_callable_frames(s1, f, None, args, ans);
            let (s2, r2) = spec_callable_call(s1, f, None, args, ans);
            if let Ok(v) = r2 {
                lemma_finish_frames(s2, None, args, v);
            }
        }
    }
}

/// A binary or comparison instruction's call of the operand's method keeps
/// the number of frames when it succeeds.
proof fn lemma_fallback_frames(
    s: RuntimeModel,
    tos_1: MemoryAddress,
    tos: MemoryAddress,
    name: Seq<char>,
    ans: FloatAnswerModel,
)
    ensures
        spec_method_fallback(s, tos_1, tos, name, ans).1 is Ok ==> spec_method_fallback(
            s,
            tos_1,
            tos,
            name,
            ans,
        ).0.frames.len() == s.frames.len(),
{
    reveal(spec_load_method);
    let s1 = rt_push(s, tos_1).0;
    let s2 = spec_load_method(s1, name).0;
    let s3 = rt_push(s2, tos).0;
    lemma_method_call_frames(s3, 1, ans);
}

/// Every instruction other than a jump or a return that runs without error moves the
/// program counter to the next instruction and leaves the number of stack
/// frames as it was: calls run in frames of their own and remove them.
pub proof fn law_step_advances(
    s: RuntimeModel,
    code: Seq<InstructionModel>,
    data: Seq<ConstModel>,
    ans: FloatAnswerModel,
)
    requires
        code.len() <= usize::MAX,
        s.pc < code.len(),
        !(code[s.pc as int] is ReturnValue),
        !(code[s.pc as int] is JumpIfFalseAndPopStack),
        !(code[s.pc as int] is JumpUnconditional),
        spec_step(s, code, data, ans).1 is Ok,
    ensures
        spec_step(s, code, data, ans).0.pc == s.pc + 1,
        spec_step(s, code, data, ans).0.frames.len() == s.frames.len(),
{
    reveal(spec_load_const);
    reveal(spec_load_method);
    reveal(spec_load_function);
    reveal(spec_store_name);
    reveal(spec_load_name);
    reveal(spec_binary_instr);
    reveal(spec_compare_instr);
    reveal(spec_build_list);
    reveal(spec_index_access);
    reveal(spec_raise);
    match code[s.pc as int] {
        InstructionModel::BuildList(n) => lemma_pop_n_frames(s, n as nat),
        InstructionModel::CallMethod(n) => lemma_method_call_frames(s, n as nat, ans),
        InstructionModel::CallFunction(n) => lemma_function_call_frames(s, n as nat, ans),
        InstructionModel::StoreName(name) => {
            let (s1, r1) = rt_pop(s);
            if let Ok(a) = r1 {
                let s2 = rt_incref(s1, a).0;
                if let Ok(Some(p)) = rt_get_local(s2, name) {
                    lemma_decref_frames(s2, p);
                }
            }
        },
        _ => {
            let s1 = rt_pop(s).0;
            let s2 = rt_pop(s1).0;
            if let Ok(tos) = rt_pop(s).1 {
                if let Ok(tos_1) = rt_pop(s1).1 {
                    if let (Some(o), Some(o1)) = (rt_get(s2, tos), rt_get(s2, tos_1)) {
                        lemma_decref_frames(s2, tos);
                        let s3 = if refcount_of(o) == 0 { rt_decref(s2, tos).0 } else { s2 };
                        lemma_decref_frames(s3, tos_1);
                        match code[s.pc as int] {
                            InstructionModel::BinaryAdd => lemma_fallback_frames(s2, tos_1, tos, arith_method(ArithOp::Add), ans),
                            InstructionModel::BinaryModulus => lemma_fallback_frames(s2, tos_1, tos, arith_method(ArithOp::Mod), ans),
                            InstructionModel::BinarySubtract => lemma_fallback_frames(s2, tos_1, tos, arith_method(ArithOp::Sub), ans),
                            InstructionModel::BinaryMultiply => lemma_fallback_frames(s2, tos_1, tos, arith_method(ArithOp::Mul), ans),
                            InstructionModel::BinaryTrueDivision => lemma_fallback_frames(s2, tos_1, tos, arith_method(ArithOp::TrueDiv), ans),
                            InstructionModel::CompareLessEquals => lemma_fallback_frames(s2, tos_1, tos, compare_method(CompareOp::Le), ans),
                            InstructionModel::CompareGreaterEquals => lemma_fallback_frames(s2, tos_1, tos, compare_method(CompareOp::Ge), ans),
                            InstructionModel::CompareGreaterThan => lemma_fallback_frames(s2, tos_1, tos, compare_method(CompareOp::Gt), ans),
                            InstructionModel::CompareLessThan => lemma_fallback_frames(s2, tos_1, tos, compare_method(CompareOp::Lt), ans),
                            InstructionModel::CompareEquals => lemma_fallback_frames(s2, tos_1, tos, compare_method(CompareOp::Eq), ans),
                            InstructionModel::CompareNotEquals => lemma_fallback_frames(s2, tos_1, tos, compare_method(CompareOp::Ne), ans),
                            _ => {},
                        }
                    }
                }
            }
        },
    }
}


/// A comparison instruction on two ints, the lower one `x` and the top one `y`,
/// pushes the boolean that integer order gives: `x < y` for `CompareLessThan`
/// (so equal values give `False`), `x <= y`, `x > y`, `x >= y`, `x == y` and
/// `x != y` for the others, in place of the two operands. It succeeds when
/// the operands are two objects, or the top one is counted as referenced.
pub proof fn law_int_compare_instruction(s: RuntimeModel, op: CompareOp, x: i128, y: i128, ans: FloatAnswerModel)
    requires
        rt_wf(s),
        s.frames.len() > 0,
        s.frames.last().stack.len() >= 2,
        rt_get(s, s.frames.last().stack[s.frames.last().stack.len() - 2]) matches Some(o1) && number_of(o1)
            == Some(DataModel::Int(x)),
        rt_get(s, s.frames.last().stack.last()) matches Some(o) && number_of(o) == Some(DataModel::Int(y)),
    ensures
        ({
            let (s1, r) = spec_compare_instr(s, op, ans);
            let st = s.frames.last().stack;
            r is Ok ==> {
                &&& s1.frames.len() == s.frames.len()
                &&& s1.frames.last().stack.drop_last() == st.take(st.len() - 2)
                &&& op == CompareOp::Lt ==> rt_top(s1) == Ok::<MemoryAddress, RuntimeError>(truth_object(s, x < y))
                &&& op == CompareOp::Le ==> rt_top(s1) == Ok::<MemoryAddress, RuntimeError>(truth_object(s, x <= y))
                &&& op == CompareOp::Gt ==> rt_top(s1) == Ok::<MemoryAddress, RuntimeError>(truth_object(s, x > y))
                &&& op == CompareOp::Ge ==> rt_top(s1) == Ok::<MemoryAddress, RuntimeError>(truth_object(s, x >= y))
                &&& op == CompareOp::Eq ==> rt_top(s1) == Ok::<MemoryAddress, RuntimeError>(truth_object(s, x == y))
                &&& op == CompareOp::Ne ==> rt_top(s1) == Ok::<MemoryAddress, RuntimeError>(truth_object(s, x != y))
            }
        }),
        ({
            let st = s.frames.last().stack;
            let o = rt_get(s, st.last()).unwrap();
            st.last() != st[st.len() - 2] || refcount_of(o) > 0 ==> spec_compare_instr(s, op, ans).1 is Ok
        }),
{
    reveal(spec_compare_instr);
    let st = s.frames.last().stack;
    let s1 = rt_pop(s).0;
    let s2 = rt_pop(s1).0;
    let tos = st.last();
    let tos_1 = st[st.len() - 2];
    assert(s2.frames.last().stack =~= st.take(st.len() - 2));
    let o = rt_get(s2, tos).unwrap();
    let o1 = rt_get(s2, tos_1).unwrap();
    lemma_decref_frames(s2, tos);
    let s3a = if refcount_of(o) == 0 { rt_decref(s2, tos).0 } else { s2 };
    if refcount_of(o) == 0 && tos != tos_1 {
        lemma_decref_other(s2, tos, tos_1);
        lemma_rt_decref_wf(s2, tos);
    }
    if refcount_of(o1) == 0 && rt_get(s3a, tos_1) is Some {
        lemma_rt_decref_wf(s2, tos);
        let b: usize = if tos_1 == 0 { 1 } else { 0 };
        lemma_decref_other(s3a, tos_1, b);
    }
    lemma_decref_frames(s3a, tos_1);
}

/// The six comparison instructions, as the program counter meets them, on two
/// ints `x` (lower) and `y` (top), two objects or one that is referenced: the step succeeds, moves to the
/// next instruction and leaves True on the stack exactly when `x < y`
/// (`CompareLessThan`), `x <= y`, `x > y`, `x >= y`, `x == y` or `x != y`; so
/// `CompareLessThan` on equal ints leaves False.
pub proof fn law_compare_step(
    s: RuntimeModel,
    code: Seq<InstructionModel>,
    data: Seq<ConstModel>,
    ans: FloatAnswerModel,
    x: i128,
    y: i128,
)
    requires
        rt_wf(s),
        0 <= s.pc < code.len() <= usize::MAX,
        s.frames.len() > 0,
        s.frames.last().stack.len() >= 2,
        rt_get(s, s.frames.last().stack[s.frames.last().stack.len() - 2]) matches Some(o1) && number_of(o1)
            == Some(DataModel::Int(x)),
        rt_get(s, s.frames.last().stack.last()) matches Some(o) && number_of(o) == Some(DataModel::Int(y)) && (
        s.frames.last().stack.last() != s.frames.last().stack[s.frames.last().stack.len() - 2] || refcount_of(o)
            > 0),
    ensures
        ({
            let (s1, r) = spec_step(s, code, data, ans);
            let t = if code[s.pc as int] == InstructionModel::CompareLessThan {
                Some(x < y)
            } else if code[s.pc as int] == InstructionModel::CompareLessEquals {
                Some(x <= y)
            } else if code[s.pc as int] == InstructionModel::CompareGreaterThan {
                Some(x > y)
            } else if code[s.pc as int] == InstructionModel::CompareGreaterEquals {
                Some(x >= y)
            } else if code[s.pc as int] == InstructionModel::CompareEquals {
                Some(x == y)
            } else if code[s.pc as int] == InstructionModel::CompareNotEquals {
                Some(x != y)
            } else {
                None
            };
            t matches Some(b) ==> {
                &&& r is Ok
                &&& s1.pc == s.pc + 1
                &&& rt_top(s1) == Ok::<MemoryAddress, RuntimeError>(truth_object(s, b))
            }
        }),
{
    let i = code[s.pc as int];
    let op = if i == InstructionModel::CompareLessThan {
        CompareOp::Lt
    } else if i == InstructionModel::CompareLessEquals {
        CompareOp::Le
    } else if i == InstructionModel::CompareGreaterThan {
        CompareOp::Gt
    } else if i == InstructionModel::CompareGreaterEquals {
        CompareOp::Ge
    } else if i == InstructionModel::CompareEquals {
        CompareOp::Eq
    } else {
        CompareOp::Ne
    };
    law_int_compare_instruction(s, op, x, y, ans);
    let (s2, r2) = spec_compare_instr(s, op, ans);
    if r2 is Ok {
        assert(rt_top(advance(s, s2)) == rt_top(s2));
    }
    if i == InstructionModel::CompareLessThan || i == InstructionModel::CompareLessEquals || i
        == InstructionModel::CompareGreaterThan || i == InstructionModel::CompareGreaterEquals || i
        == InstructionModel::CompareEquals || i == InstructionModel::CompareNotEquals {
        assert(spec_step(s, code, data, ans) == then_advance(s, (s2, r2)));
    }
}


/// A binary instruction on two ints, the lower one `x` and the top one `y`,
/// replaces them by a new int holding `x + y`, `x - y` or `x * y` for
/// `BinaryAdd`, `BinarySubtract` and `BinaryMultiply`. It succeeds when the
/// operands are two objects or the top one is counted as referenced, the
/// result fits in 128 bits and memory has room.
pub proof fn law_int_binary_instruction(s: RuntimeModel, op: ArithOp, x: i128, y: i128, ans: FloatAnswerModel)
    requires
        rt_wf(s),
        s.frames.len() > 0,
        s.frames.last().stack.len() >= 2,
        rt_get(s, s.frames.last().stack[s.frames.last().stack.len() - 2]) matches Some(o1) && number_of(o1)
            == Some(DataModel::Int(x)),
        rt_get(s, s.frames.last().stack.last()) matches Some(o) && number_of(o) == Some(DataModel::Int(y)),
        op == ArithOp::Add || op == ArithOp::Sub || op == ArithOp::Mul,
    ensures
        ({
            let (s1, r) = spec_binary_instr(s, op, ans);
            let v: int = if op == ArithOp::Add {
                x + y
            } else if op == ArithOp::Sub {
                x - y
            } else {
                x * y
            };
            &&& r is Ok ==> s1.frames.len() == s.frames.len() && s1.frames.last().stack.drop_last()
                == s.frames.last().stack.take(s.frames.last().stack.len() - 2) && (rt_top(s1) matches Ok(t)
                && rt_raw(s1, t) == Ok::<DataModel, RuntimeError>(DataModel::Int(v as i128)))
            &&& r is Ok ==> i128::MIN <= v <= i128::MAX
            &&& ({
                let st = s.frames.last().stack;
                let o = rt_get(s, st.last()).unwrap();
                let o1 = rt_get(s, st[st.len() - 2]).unwrap();
                (st.last() != st[st.len() - 2] || refcount_of(o) > 0) && i128::MIN <= v <= i128::MAX && !(
                s.mem.free.len() == 0 && s.mem.cells.len() >= usize::MAX) ==> r is Ok
            })
        }),
{
    reveal(spec_binary_instr);
    let st = s.frames.last().stack;
    let s1 = rt_pop(s).0;
    let s2 = rt_pop(s1).0;
    let tos = st.last();
    let tos_1 = st[st.len() - 2];
    assert(s2.frames.last().stack =~= st.take(st.len() - 2));
    let o = rt_get(s2, tos).unwrap();
    let o1 = rt_get(s2, tos_1).unwrap();
    lemma_decref_frames(s2, tos);
    let s3a = if refcount_of(o) == 0 { rt_decref(s2, tos).0 } else { s2 };
    lemma_decref_frames(s3a, tos_1);
    if refcount_of(o) == 0 && tos != tos_1 {
        lemma_decref_other(s2, tos, tos_1);
    }
    if refcount_of(o1) == 0 && rt_get(s3a, tos_1) is Some {
        lemma_rt_decref_wf(s2, tos);
        let b: usize = if tos_1 == 0 { 1 } else { 0 };
        lemma_decref_other(s3a, tos_1, b);
    }
    let s3 = release_unowned(s2, tos, o, tos_1, o1).0;
    lemma_rt_decref_wf(s2, tos);
    lemma_rt_decref_wf(s3a, tos_1);
    if let Ok(v) = int_arith(op, x, y) {
        lemma_rt_alloc(s3, builtin_obj(s3.builtins.int, DataModel::Int(v)));
    }
}


/// `BinaryAdd`, `BinarySubtract` and `BinaryMultiply`, as the program counter
/// meets them, on two ints `x` (lower) and `y` (top), two objects or one that
/// is referenced, whose sum,
/// difference or product fits in 128 bits: the step succeeds, moves to the next
/// instruction, and leaves on the stack, in place of the operands, a new int
/// holding `x + y`, `x - y` or `x * y`.
pub proof fn law_arith_step(
    s: RuntimeModel,
    code: Seq<InstructionModel>,
    data: Seq<ConstModel>,
    ans: FloatAnswerModel,
    x: i128,
    y: i128,
)
    requires
        rt_wf(s),
        0 <= s.pc < code.len() <= usize::MAX,
        s.frames.len() > 0,
        s.frames.last().stack.len() >= 2,
        rt_get(s, s.frames.last().stack[s.frames.last().stack.len() - 2]) matches Some(o1) && number_of(o1)
            == Some(DataModel::Int(x)),
        rt_get(s, s.frames.last().stack.last()) matches Some(o) && number_of(o) == Some(DataModel::Int(y)) && (
        s.frames.last().stack.last() != s.frames.last().stack[s.frames.last().stack.len() - 2] || refcount_of(o)
            > 0),
        !(s.mem.free.len() == 0 && s.mem.cells.len() >= usize::MAX),
    ensures
        ({
            let (s1, r) = spec_step(s, code, data, ans);
            let st = s.frames.last().stack;
            let c = code[s.pc as int];
            let v: int = if c == InstructionModel::BinaryAdd {
                x + y
            } else if c == InstructionModel::BinarySubtract {
                x - y
            } else {
                x * y
            };
            (c == InstructionModel::BinaryAdd || c == InstructionModel::BinarySubtract || c
                == InstructionModel::BinaryMultiply) && i128::MIN <= v <= i128::MAX ==> {
                &&& r is Ok
                &&& s1.pc == s.pc + 1
                &&& s1.frames.len() == s.frames.len()
                &&& s1.frames.last().stack.drop_last() == st.take(st.len() - 2)
                &&& rt_top(s1) matches Ok(t) && rt_raw(s1, t) == Ok::<DataModel, RuntimeError>(DataModel::Int(v as i128))
            }
        }),
{
    let i = code[s.pc as int];
    if i == InstructionModel::BinaryAdd || i == InstructionModel::BinarySubtract || i
        == InstructionModel::BinaryMultiply {
        let op = if i == InstructionModel::BinaryAdd {
            ArithOp::Add
        } else if i == InstructionModel::BinarySubtract {
            ArithOp::Sub
        } else {
            ArithOp::Mul
        };
        law_int_binary_instruction(s, op, x, y, ans);
        let (s2, r2) = spec_binary_instr(s, op, ans);
        assert(spec_step(s, code, data, ans) == then_advance(s, (s2, r2)));
        if r2 is Ok {
            assert(rt_top(advance(s, s2)) == rt_top(s2));
            assert(rt_raw(advance(s, s2), rt_top(s2)->Ok_0) == rt_raw(s2, rt_top(s2)->Ok_0));
        }
    }
}

/// `IndexAccess`, as the program counter meets it, with an int `i` on top of
/// the stack and a list `l` below it: for every `i` from 0 up to the length of
/// `l` (0 included) the step succeeds, moves to the next instruction and puts
/// `l[i]` in place of the two operands; for any other `i` it fails with
/// `IndexOutOfRange` and changes nothing.
pub proof fn law_index_step(
    s: RuntimeModel,
    code: Seq<InstructionModel>,
    data: Seq<ConstModel>,
    ans: FloatAnswerModel,
    l: Seq<MemoryAddress>,
    i: i128,
)
    requires
        0 <= s.pc < code.len() <= usize::MAX,
        code[s.pc as int] == InstructionModel::IndexAccess,
        s.frames.len() > 0,
        s.frames.last().stack.len() >= 2,
        int_of(s, s.frames.last().stack.last()) == Ok::<i128, RuntimeError>(i),
        list_of(s, s.frames.last().stack[s.frames.last().stack.len() - 2]) == Ok::<Seq<MemoryAddress>, RuntimeError>(l),
    ensures
        ({
            let (s1, r) = spec_step(s, code, data, ans);
            let st = s.frames.last().stack;
            &&& 0 <= i < l.len() ==> {
                &&& r is Ok
                &&& s1.pc == s.pc + 1
                &&& s1.mem == s.mem
                &&& s1.frames.len() == s.frames.len()
                &&& s1.frames.last().stack == st.take(st.len() - 2).push(l[i as int])
            }
            &&& !(0 <= i < l.len()) ==> (s1, r) == (s, Err::<(), RuntimeError>(RuntimeError::IndexOutOfRange))
        }),
{
    reveal(spec_index_access);
    let st = s.frames.last().stack;
    assert(st.drop_last().drop_last() =~= st.take(st.len() - 2));
}

/// `LoadConst` pushes an object that holds the constant: a new int holding an
/// integer constant, a new str holding a string constant, and the object
/// `True` or `False` for a boolean constant. It succeeds when there is a frame
/// and memory has room.
pub proof fn law_load_const_pushes_the_constant(s: RuntimeModel, c: ConstModel)
    requires
        rt_wf(s),
    ensures
        ({
            let (s1, r) = spec_load_const(s, c);
            &&& r is Ok ==> s1.frames.len() == s.frames.len() && s1.frames.last().stack.drop_last()
                == s.frames.last().stack && s1.builtins == s.builtins
            &&& r is Ok ==> match c {
                ConstModel::Integer(i) => rt_top(s1) matches Ok(t) && rt_raw(s1, t) == Ok::<DataModel, RuntimeError>(
                    DataModel::Int(i as i128),
                ) && rt_type_of(s1, t) == Ok::<MemoryAddress, RuntimeError>(s.builtins.int),
                ConstModel::String(text) => rt_top(s1) matches Ok(t) && rt_raw(s1, t) == Ok::<
                    DataModel,
                    RuntimeError,
                >(DataModel::Str(text)),
                ConstModel::Boolean(b) => rt_top(s1) == Ok::<MemoryAddress, RuntimeError>(truth_object(s, b)),
                ConstModel::Float(f) => rt_top(s1) matches Ok(t) && rt_raw(s1, t) == Ok::<DataModel, RuntimeError>(
                    DataModel::Float(f),
                ),
            }
            &&& s.frames.len() > 0 && !(s.mem.free.len() == 0 && s.mem.cells.len() >= usize::MAX) ==> r is Ok
        }),
{
    reveal(spec_load_const);
    match c {
        ConstModel::Integer(i) => lemma_rt_alloc(s, builtin_obj(s.builtins.int, DataModel::Int(i as i128))),
        ConstModel::Float(f) => lemma_rt_alloc(s, builtin_obj(s.builtins.float, DataModel::Float(f))),
        ConstModel::String(t) => lemma_rt_alloc(s, builtin_obj(s.builtins.string, DataModel::Str(t))),
        ConstModel::Boolean(_) => {},
    }
    let s1 = spec_load_const(s, c).0;
    if spec_load_const(s, c).1 is Ok {
        assert(s1.frames.last().stack.drop_last() =~= s.frames.last().stack);
    }
}


/// The float query of a binary instruction names its own operation and its two
/// operands in stack order, the lower one first, each as the number it holds;
/// an operation on two ints asks nothing unless it is a true division. A
/// comparison asks the same way when a float is involved, and asks nothing of
/// two ints.
pub proof fn law_operator_queries(s: RuntimeModel, op: ArithOp, cop: CompareOp, x: i128, y: i128, f: Seq<char>, g: Seq<char>)
    ensures
        operands_of(s) == Some((DataModel::Int(x), DataModel::Int(y))) ==> {
            &&& spec_binary_query(s, op) == (if op == ArithOp::TrueDiv {
                Some(FloatQueryModel::Arith(op, FloatOperandModel::Int(x), FloatOperandModel::Int(y)))
            } else {
                None
            })
            &&& spec_compare_query(s, cop) is None
        },
        operands_of(s) == Some((DataModel::Int(x), DataModel::Float(g))) ==> {
            &&& spec_binary_query(s, op) == Some(
                FloatQueryModel::Arith(op, FloatOperandModel::Int(x), FloatOperandModel::Float(g)),
            )
            &&& spec_compare_query(s, cop) == Some(
                FloatQueryModel::Compare(cop, FloatOperandModel::Int(x), FloatOperandModel::Float(g)),
            )
        },
        operands_of(s) == Some((DataModel::Float(f), DataModel::Int(y))) ==> {
            &&& spec_binary_query(s, op) == Some(
                FloatQueryModel::Arith(op, FloatOperandModel::Float(f), FloatOperandModel::Int(y)),
            )
            &&& spec_compare_query(s, cop) == Some(
                FloatQueryModel::Compare(cop, FloatOperandModel::Float(f), FloatOperandModel::Int(y)),
            )
        },
        operands_of(s) == Some((DataModel::Float(f), DataModel::Float(g))) ==> {
            &&& spec_binary_query(s, op) == Some(
                FloatQueryModel::Arith(op, FloatOperandModel::Float(f), FloatOperandModel::Float(g)),
            )
            &&& spec_compare_query(s, cop) == Some(
                FloatQueryModel::Compare(cop, FloatOperandModel::Float(f), FloatOperandModel::Float(g)),
            )
        },
{
}

} // verus!
