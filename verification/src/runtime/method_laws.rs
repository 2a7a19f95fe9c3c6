//! What the native methods of the builtin types compute, stated against
//! integer order and arithmetic and against list positions.

use vstd::prelude::*;
use vstd::arithmetic::div_mod::{lemma_mod_pos_bound, lemma_small_mod};
use crate::lexer::{all_digits, decimal_value, law_decimal_round_trip};
use crate::text::{decimal_digits, int_text};
use crate::runtime::error::RuntimeError;
use crate::runtime::floats::FloatAnswerModel;
use crate::runtime::machine::{RuntimeModel, lemma_rt_alloc, lemma_rt_write, rt_get, rt_raw, rt_type_of, rt_wf};
use crate::runtime::namespace::MemoryAddress;
use crate::runtime::natives::{int_of, list_of, spec_native, str_of};
use crate::runtime::object::{ArithOp, CompareOp, DataModel, NativeFunction, ObjModel, StructureModel, builtin_obj};

verus! {

/// The boolean object that stands for `b`.
pub open spec fn truth_object(s: RuntimeModel, b: bool) -> MemoryAddress {
    if b {
        s.builtins.true_val
    } else {
        s.builtins.false_val
    }
}

/// The comparison methods of `int`, given another int: `__eq__`, `__ne__`,
/// `__lt__`, `__le__` and `__gt__` answer by integer order (equal values are
/// `<=` and not `<`); `__ge__` answers `a <= b`, as the int type always has. The
/// answer is one of the two boolean objects and nothing else changes.
pub proof fn law_int_comparisons(
    s: RuntimeModel,
    op: CompareOp,
    this: MemoryAddress,
    arg: MemoryAddress,
    a: i128,
    b: i128,
    ans: FloatAnswerModel,
)
    requires
        int_of(s, this) == Ok::<i128, RuntimeError>(a),
        int_of(s, arg) == Ok::<i128, RuntimeError>(b),
        rt_type_of(s, arg) == Ok::<MemoryAddress, RuntimeError>(s.builtins.int),
    ensures
        spec_native(s, NativeFunction::IntCompare(op), Some(this), seq![arg], ans).0 == s,
        op == CompareOp::Eq ==> spec_native(s, NativeFunction::IntCompare(op), Some(this), seq![arg], ans).1
            == Ok::<MemoryAddress, RuntimeError>(truth_object(s, a == b)),
        op == CompareOp::Ne ==> spec_native(s, NativeFunction::IntCompare(op), Some(this), seq![arg], ans).1
            == Ok::<MemoryAddress, RuntimeError>(truth_object(s, a != b)),
        op == CompareOp::Lt ==> spec_native(s, NativeFunction::IntCompare(op), Some(this), seq![arg], ans).1
            == Ok::<MemoryAddress, RuntimeError>(truth_object(s, a < b)),
        op == CompareOp::Le ==> spec_native(s, NativeFunction::IntCompare(op), Some(this), seq![arg], ans).1
            == Ok::<MemoryAddress, RuntimeError>(truth_object(s, a <= b)),
        op == CompareOp::Gt ==> spec_native(s, NativeFunction::IntCompare(op), Some(this), seq![arg], ans).1
            == Ok::<MemoryAddress, RuntimeError>(truth_object(s, a > b)),
        op == CompareOp::Ge ==> spec_native(s, NativeFunction::IntCompare(op), Some(this), seq![arg], ans).1
            == Ok::<MemoryAddress, RuntimeError>(truth_object(s, a <= b)),
{
}

/// `int.__pos__` makes a new int with the same value, and `int.__neg__` one
/// with the opposite value, when memory has room and (for `__neg__`) the
/// value fits.
pub proof fn law_int_sign(s: RuntimeModel, this: MemoryAddress, a: i128, ans: FloatAnswerModel)
    requires
        rt_wf(s),
        int_of(s, this) == Ok::<i128, RuntimeError>(a),
        !(s.mem.free.len() == 0 && s.mem.cells.len() >= usize::MAX),
    ensures
        ({
            let (s1, r1) = spec_native(s, NativeFunction::IntPos, Some(this), seq![], ans);
            r1 matches Ok(v) && rt_raw(s1, v) == Ok::<DataModel, RuntimeError>(DataModel::Int(a))
                && rt_type_of(s1, v) == Ok::<MemoryAddress, RuntimeError>(s.builtins.int)
        }),
        a != i128::MIN ==> ({
            let (s1, r1) = spec_native(s, NativeFunction::IntNeg, Some(this), seq![], ans);
            r1 matches Ok(v) && rt_raw(s1, v) == Ok::<DataModel, RuntimeError>(DataModel::Int((-a) as i128))
        }),
{
    lemma_rt_alloc(s, builtin_obj(s.builtins.int, DataModel::Int(a)));
    if a != i128::MIN {
        assert(a.checked_mul(-1i128) == Some((-a) as i128));
        lemma_rt_alloc(s, builtin_obj(s.builtins.int, DataModel::Int((-a) as i128)));
    }
}

/// `bool.__int__` makes a new int whose value is the boolean's truth value:
/// 0 for `False` (holding 0) and 1 for `True` (holding 1), and 1 for any other
/// non-zero value, when memory has room.
pub proof fn law_bool_to_int(s: RuntimeModel, this: MemoryAddress, a: i128, ans: FloatAnswerModel)
    requires
        rt_wf(s),
        int_of(s, this) == Ok::<i128, RuntimeError>(a),
        !(s.mem.free.len() == 0 && s.mem.cells.len() >= usize::MAX),
    ensures
        ({
            let (s1, r1) = spec_native(s, NativeFunction::BoolInt, Some(this), seq![], ans);
            &&& r1 is Ok
            &&& (a == 0 || a == 1) ==> rt_raw(s1, r1->Ok_0) == Ok::<DataModel, RuntimeError>(DataModel::Int(a))
            &&& a != 0 ==> rt_raw(s1, r1->Ok_0) == Ok::<DataModel, RuntimeError>(DataModel::Int(1))
            &&& rt_type_of(s1, r1->Ok_0) == Ok::<MemoryAddress, RuntimeError>(s.builtins.int)
        }),
{
    let v: i128 = if a == 0 {
        0
    } else {
        1
    };
    lemma_rt_alloc(s, builtin_obj(s.builtins.int, DataModel::Int(v)));
}

/// `list.__getitem__` with an int index gives the element at that position for
/// every index from 0 up to the length, the first one included, and changes
/// nothing; any other index is out of range.
pub proof fn law_list_getitem(
    s: RuntimeModel,
    this: MemoryAddress,
    arg: MemoryAddress,
    l: Seq<MemoryAddress>,
    i: i128,
    ans: FloatAnswerModel,
)
    requires
        list_of(s, this) == Ok::<Seq<MemoryAddress>, RuntimeError>(l),
        int_of(s, arg) == Ok::<i128, RuntimeError>(i),
    ensures
        0 <= i < l.len() ==> spec_native(s, NativeFunction::ListGetItem, Some(this), seq![arg], ans) == (
            s,
            Ok::<MemoryAddress, RuntimeError>(l[i as int]),
        ),
        !(0 <= i < l.len()) ==> spec_native(s, NativeFunction::ListGetItem, Some(this), seq![arg], ans) == (
            s,
            Err::<MemoryAddress, RuntimeError>(RuntimeError::IndexOutOfRange),
        ),
{
}


/// `list.append(x)` returns the list itself, which then holds its old elements
/// followed by `x`: its length grows by one and `__getitem__` at the old length
/// gives `x`, while the old positions keep their elements.
pub proof fn law_list_append(
    s: RuntimeModel,
    this: MemoryAddress,
    x: MemoryAddress,
    l: Seq<MemoryAddress>,
    ans: FloatAnswerModel,
)
    requires
        rt_wf(s),
        list_of(s, this) == Ok::<Seq<MemoryAddress>, RuntimeError>(l),
    ensures
        ({
            let (s1, r1) = spec_native(s, NativeFunction::ListAppend, Some(this), seq![x], ans);
            &&& r1 == Ok::<MemoryAddress, RuntimeError>(this)
            &&& list_of(s1, this) matches Ok(l2) && l2.len() == l.len() + 1 && l2[l.len() as int] == x && forall|
                j: int,
            | 0 <= j < l.len() ==> l2[j] == l[j]
        }),
{
    let obj = rt_get(s, this).unwrap();
    lemma_rt_write(
        s,
        this,
        ObjModel {
            type_addr: obj.type_addr,
            structure: StructureModel::Object {
                raw: DataModel::List(l.push(x)),
                refcount: match obj.structure {
                    StructureModel::Object { refcount, .. } => refcount,
                    _ => 0,
                },
            },
        },
    );
}


/// The arithmetic methods of `int`, given another int: `__add__`, `__sub__` and
/// `__mul__` make a new int holding the sum, difference or product when it fits
/// in 128 bits, and fail with an overflow when it does not; `__mod__` by zero
/// fails. Memory must have room for the new int.
pub proof fn law_int_arithmetic(
    s: RuntimeModel,
    this: MemoryAddress,
    arg: MemoryAddress,
    a: i128,
    b: i128,
    ans: FloatAnswerModel,
)
    requires
        rt_wf(s),
        int_of(s, this) == Ok::<i128, RuntimeError>(a),
        int_of(s, arg) == Ok::<i128, RuntimeError>(b),
        rt_type_of(s, arg) == Ok::<MemoryAddress, RuntimeError>(s.builtins.int),
        !(s.mem.free.len() == 0 && s.mem.cells.len() >= usize::MAX),
    ensures
        ({
            let (s1, r1) = spec_native(s, NativeFunction::IntArith(ArithOp::Add), Some(this), seq![arg], ans);
            &&& i128::MIN <= a + b <= i128::MAX ==> (r1 is Ok && rt_raw(s1, r1->Ok_0) == Ok::<
                DataModel,
                RuntimeError,
            >(DataModel::Int((a + b) as i128)))
            &&& !(i128::MIN <= a + b <= i128::MAX) ==> r1 == Err::<MemoryAddress, RuntimeError>(RuntimeError::Overflow)
        }),
        ({
            let (s1, r1) = spec_native(s, NativeFunction::IntArith(ArithOp::Sub), Some(this), seq![arg], ans);
            &&& i128::MIN <= a - b <= i128::MAX ==> (r1 is Ok && rt_raw(s1, r1->Ok_0) == Ok::<
                DataModel,
                RuntimeError,
            >(DataModel::Int((a - b) as i128)))
            &&& !(i128::MIN <= a - b <= i128::MAX) ==> r1 == Err::<MemoryAddress, RuntimeError>(RuntimeError::Overflow)
        }),
        ({
            let (s1, r1) = spec_native(s, NativeFunction::IntArith(ArithOp::Mul), Some(this), seq![arg], ans);
            &&& i128::MIN <= a * b <= i128::MAX ==> (r1 is Ok && rt_raw(s1, r1->Ok_0) == Ok::<
                DataModel,
                RuntimeError,
            >(DataModel::Int((a * b) as i128)))
            &&& !(i128::MIN <= a * b <= i128::MAX) ==> r1 == Err::<MemoryAddress, RuntimeError>(RuntimeError::Overflow)
        }),
        b == 0 ==> spec_native(s, NativeFunction::IntArith(ArithOp::Mod), Some(this), seq![arg], ans).1 == Err::<
            MemoryAddress,
            RuntimeError,
        >(RuntimeError::DivisionByZero),
{
    if i128::MIN <= a + b <= i128::MAX {
        lemma_rt_alloc(s, builtin_obj(s.builtins.int, DataModel::Int((a + b) as i128)));
    }
    if i128::MIN <= a - b <= i128::MAX {
        lemma_rt_alloc(s, builtin_obj(s.builtins.int, DataModel::Int((a - b) as i128)));
    }
    if i128::MIN <= a * b <= i128::MAX {
        lemma_rt_alloc(s, builtin_obj(s.builtins.int, DataModel::Int((a * b) as i128)));
    }
}

/// `bool.__not__` answers `True` exactly for the boolean holding 0, and `and`,
/// `or` and `xor` of two booleans answer by logic on their truth values (a
/// boolean holding a non-zero value is true). Nothing else changes.
pub proof fn law_bool_logic(
    s: RuntimeModel,
    this: MemoryAddress,
    arg: MemoryAddress,
    a: i128,
    b: i128,
    ans: FloatAnswerModel,
)
    requires
        int_of(s, this) == Ok::<i128, RuntimeError>(a),
        int_of(s, arg) == Ok::<i128, RuntimeError>(b),
        rt_type_of(s, arg) == Ok::<MemoryAddress, RuntimeError>(s.builtins.boolean),
    ensures
        spec_native(s, NativeFunction::BoolNot, Some(this), seq![], ans) == (
            s,
            Ok::<MemoryAddress, RuntimeError>(truth_object(s, a == 0)),
        ),
        spec_native(s, NativeFunction::BoolAnd, Some(this), seq![arg], ans) == (
            s,
            Ok::<MemoryAddress, RuntimeError>(truth_object(s, a != 0 && b != 0)),
        ),
        spec_native(s, NativeFunction::BoolOr, Some(this), seq![arg], ans) == (
            s,
            Ok::<MemoryAddress, RuntimeError>(truth_object(s, a != 0 || b != 0)),
        ),
        spec_native(s, NativeFunction::BoolXor, Some(this), seq![arg], ans) == (
            s,
            Ok::<MemoryAddress, RuntimeError>(truth_object(s, (a != 0) != (b != 0))),
        ),
{
}

/// The methods of `str`, given another str: `__add__` makes a new str holding
/// the two texts one after the other, `__eq__` answers whether the texts are
/// equal and `__neq__` whether they differ.
pub proof fn law_str_methods(
    s: RuntimeModel,
    this: MemoryAddress,
    arg: MemoryAddress,
    a: Seq<char>,
    b: Seq<char>,
    ans: FloatAnswerModel,
)
    requires
        rt_wf(s),
        str_of(s, this) == Ok::<Seq<char>, RuntimeError>(a),
        str_of(s, arg) == Ok::<Seq<char>, RuntimeError>(b),
        rt_type_of(s, arg) == Ok::<MemoryAddress, RuntimeError>(s.builtins.string),
        !(s.mem.free.len() == 0 && s.mem.cells.len() >= usize::MAX),
    ensures
        ({
            let (s1, r1) = spec_native(s, NativeFunction::StrAdd, Some(this), seq![arg], ans);
            r1 matches Ok(v) && rt_raw(s1, v) == Ok::<DataModel, RuntimeError>(DataModel::Str(a + b))
                && rt_raw(s1, v)->Ok_0->Str_0.len() == a.len() + b.len()
        }),
        spec_native(s, NativeFunction::StrEq, Some(this), seq![arg], ans) == (
            s,
            Ok::<MemoryAddress, RuntimeError>(truth_object(s, a == b)),
        ),
        spec_native(s, NativeFunction::StrNeq, Some(this), seq![arg], ans) == (
            s,
            Ok::<MemoryAddress, RuntimeError>(truth_object(s, a != b)),
        ),
{
    lemma_rt_alloc(s, builtin_obj(s.builtins.string, DataModel::Str(a + b)));
}

/// `list.__len__` makes a new int holding the number of elements; `extend`
/// with another list leaves the list holding its elements followed by the
/// other's and returns it; `__add__` with another list makes a new list of the
/// elements of both, in order, and leaves the two lists as they were.
pub proof fn law_list_len_extend_concat(
    s: RuntimeModel,
    this: MemoryAddress,
    other: MemoryAddress,
    l: Seq<MemoryAddress>,
    m: Seq<MemoryAddress>,
    ans: FloatAnswerModel,
)
    requires
        rt_wf(s),
        list_of(s, this) == Ok::<Seq<MemoryAddress>, RuntimeError>(l),
        list_of(s, other) == Ok::<Seq<MemoryAddress>, RuntimeError>(m),
        !(s.mem.free.len() == 0 && s.mem.cells.len() >= usize::MAX),
    ensures
        ({
            let (s1, r1) = spec_native(s, NativeFunction::ListLen, Some(this), seq![], ans);
            r1 matches Ok(v) && rt_raw(s1, v) == Ok::<DataModel, RuntimeError>(DataModel::Int(l.len() as i128))
        }),
        ({
            let (s1, r1) = spec_native(s, NativeFunction::ListExtend, Some(this), seq![other], ans);
            &&& r1 == Ok::<MemoryAddress, RuntimeError>(this)
            &&& list_of(s1, this) matches Ok(l2) && l2.len() == l.len() + m.len() && (forall|j: int|
                0 <= j < l.len() ==> l2[j] == l[j]) && (forall|j: int| 0 <= j < m.len() ==> l2[l.len() + j] == m[j])
        }),
        ({
            let (s1, r1) = spec_native(s, NativeFunction::ListConcat, Some(this), seq![other], ans);
            &&& r1 matches Ok(v) && list_of(s1, v) matches Ok(l2) && l2.len() == l.len() + m.len() && (forall|j: int|
                0 <= j < l.len() ==> l2[j] == l[j]) && (forall|j: int| 0 <= j < m.len() ==> l2[l.len() + j] == m[j])
            &&& list_of(s1, this) == list_of(s, this)
            &&& list_of(s1, other) == list_of(s, other)
        }),
{
    lemma_rt_alloc(s, builtin_obj(s.builtins.int, DataModel::Int(l.len() as i128)));
    lemma_rt_alloc(s, builtin_obj(s.builtins.list, DataModel::List(l + m)));
    let obj = rt_get(s, this).unwrap();
    lemma_rt_write(
        s,
        this,
        ObjModel {
            type_addr: obj.type_addr,
            structure: StructureModel::Object {
                raw: DataModel::List(l + m),
                refcount: match obj.structure {
                    StructureModel::Object { refcount, .. } => refcount,
                    _ => 0,
                },
            },
        },
    );
}


/// `int.__mod__` by a non-zero int takes the remainder of truncating division:
/// it is smaller than the divisor in size, it is zero or has the sign of the
/// dividend, and a dividend smaller in size than the divisor is its own
/// remainder. It fails only where the quotient would not fit (the least int
/// by -1).
pub proof fn law_int_remainder(
    s: RuntimeModel,
    this: MemoryAddress,
    arg: MemoryAddress,
    a: i128,
    b: i128,
    ans: FloatAnswerModel,
)
    requires
        rt_wf(s),
        int_of(s, this) == Ok::<i128, RuntimeError>(a),
        int_of(s, arg) == Ok::<i128, RuntimeError>(b),
        rt_type_of(s, arg) == Ok::<MemoryAddress, RuntimeError>(s.builtins.int),
        b != 0,
        !(a == i128::MIN && b == -1),
        !(s.mem.free.len() == 0 && s.mem.cells.len() >= usize::MAX),
    ensures
        ({
            let (s1, r1) = spec_native(s, NativeFunction::IntArith(ArithOp::Mod), Some(this), seq![arg], ans);
            r1 matches Ok(v) && rt_raw(s1, v) matches Ok(DataModel::Int(r)) && {
                &&& abs(r as int) < abs(b as int)
                &&& r == 0 || (r > 0) == (a > 0)
                &&& abs(a as int) < abs(b as int) ==> r == a
            }
        }),
{
    let x = a as int;
    let d = b as int;
    if x > 0 && d > 0 {
        lemma_mod_pos_bound(x, d);
        if x < d {
            lemma_small_mod(x as nat, d as nat);
        }
    } else if x < 0 && d < 0 {
        lemma_mod_pos_bound(-x, -d);
        if -x < -d {
            lemma_small_mod((-x) as nat, (-d) as nat);
        }
    } else if x < 0 {
        lemma_mod_pos_bound(-x, d);
        if -x < d {
            lemma_small_mod((-x) as nat, d as nat);
        }
    } else if x > 0 {
        lemma_mod_pos_bound(x, -d);
        if x < -d {
            lemma_small_mod(x as nat, (-d) as nat);
        }
    }
    let r = a.checked_rem(b).unwrap();
    lemma_rt_alloc(s, builtin_obj(s.builtins.int, DataModel::Int(r)));
}

/// The size of an integer.
pub open spec fn abs(i: int) -> int {
    if i < 0 {
        -i
    } else {
        i
    }
}

/// The conversions that return their object (`int.__int__`, `bool.__bool__`,
/// `str.__str__`) give it back unchanged; `int.__bool__` answers whether the
/// int is 1, as the int type always has; `None.__bool__` is `False`; `None.__eq__`
/// answers whether the other object is `None` itself; `bool.__str__` makes
/// "True" for a non-zero value and "False" for zero, `None.__str__` makes
/// "None", and `str.__repr__` makes the text between two single quotes.
pub proof fn law_conversions(
    s: RuntimeModel,
    this: MemoryAddress,
    arg: MemoryAddress,
    a: i128,
    t: Seq<char>,
    ans: FloatAnswerModel,
)
    requires
        rt_wf(s),
        !(s.mem.free.len() == 0 && s.mem.cells.len() >= usize::MAX),
    ensures
        int_of(s, this) == Ok::<i128, RuntimeError>(a) ==> {
            &&& spec_native(s, NativeFunction::IntInt, Some(this), seq![], ans) == (s, Ok::<MemoryAddress, RuntimeError>(this))
            &&& spec_native(s, NativeFunction::BoolBool, Some(this), seq![], ans) == (s, Ok::<MemoryAddress, RuntimeError>(this))
            &&& spec_native(s, NativeFunction::IntBool, Some(this), seq![], ans) == (
                s,
                Ok::<MemoryAddress, RuntimeError>(truth_object(s, a == 1)),
            )
            &&& ({
                let (s1, r1) = spec_native(s, NativeFunction::BoolStr, Some(this), seq![], ans);
                r1 matches Ok(v) && rt_raw(s1, v) == Ok::<DataModel, RuntimeError>(
                    DataModel::Str(if a != 0 { "True"@ } else { "False"@ }),
                )
            })
        },
        str_of(s, this) == Ok::<Seq<char>, RuntimeError>(t) ==> {
            &&& spec_native(s, NativeFunction::StrStr, Some(this), seq![], ans) == (s, Ok::<MemoryAddress, RuntimeError>(this))
            &&& ({
                let (s1, r1) = spec_native(s, NativeFunction::StrRepr, Some(this), seq![], ans);
                r1 matches Ok(v) && rt_raw(s1, v) matches Ok(DataModel::Str(q)) && {
                    &&& q.len() == t.len() + 2
                    &&& q[0] == '\''
                    &&& q[q.len() - 1] == '\''
                    &&& q.subrange(1, q.len() - 1) == t
                }
            })
        },
        spec_native(s, NativeFunction::NoneBool, Some(this), seq![], ans) == (
            s,
            Ok::<MemoryAddress, RuntimeError>(s.builtins.false_val),
        ),
        ({
            let (s1, r1) = spec_native(s, NativeFunction::NoneStr, Some(this), seq![], ans);
            r1 matches Ok(v) && rt_raw(s1, v) == Ok::<DataModel, RuntimeError>(DataModel::Str("None"@))
        }),
        rt_get(s, arg) matches Some(o) ==> spec_native(s, NativeFunction::NoneEq, Some(this), seq![arg], ans) == (
            s,
            Ok::<MemoryAddress, RuntimeError>(truth_object(s, o.structure is NoneObject)),
        ),
{
    lemma_rt_alloc(s, builtin_obj(s.builtins.string, DataModel::Str(if a != 0 { "True"@ } else { "False"@ })));
    lemma_rt_alloc(s, builtin_obj(s.builtins.string, DataModel::Str("None"@)));
    let q = seq!['\''] + t + seq!['\''];
    assert(q.subrange(1, q.len() - 1) =~= t);
    lemma_rt_alloc(s, builtin_obj(s.builtins.string, DataModel::Str(q)));
}


/// `bool.__neg__` makes a new int: 0 for `True` and 1 for `False`, that is one
/// minus the boolean's value, as the bool type always has; `bool.__float__`
/// makes a new float, 1.0 for a true boolean and 0.0 for `False`.
pub proof fn law_bool_negation_and_float(s: RuntimeModel, this: MemoryAddress, a: i128, ans: FloatAnswerModel)
    requires
        rt_wf(s),
        int_of(s, this) == Ok::<i128, RuntimeError>(a),
        !(s.mem.free.len() == 0 && s.mem.cells.len() >= usize::MAX),
    ensures
        ({
            let (s1, r1) = spec_native(s, NativeFunction::BoolNeg, Some(this), seq![], ans);
            &&& r1 is Ok
            &&& rt_type_of(s1, r1->Ok_0) == Ok::<MemoryAddress, RuntimeError>(s.builtins.int)
            &&& (a == 0 || a == 1) ==> rt_raw(s1, r1->Ok_0) == Ok::<DataModel, RuntimeError>(DataModel::Int((1 - a) as i128))
        }),
        ({
            let (s1, r1) = spec_native(s, NativeFunction::BoolFloat, Some(this), seq![], ans);
            &&& r1 is Ok
            &&& rt_type_of(s1, r1->Ok_0) == Ok::<MemoryAddress, RuntimeError>(s.builtins.float)
            &&& rt_raw(s1, r1->Ok_0) == Ok::<DataModel, RuntimeError>(
                DataModel::Float(if a != 0 { "1.0"@ } else { "0.0"@ }),
            )
        }),
{
    let v: i128 = if a == 1 {
        0
    } else {
        1
    };
    lemma_rt_alloc(s, builtin_obj(s.builtins.int, DataModel::Int(v)));
    lemma_rt_alloc(s, builtin_obj(s.builtins.float, DataModel::Float(if a != 0 { "1.0"@ } else { "0.0"@ })));
}


/// `int.__str__` and `int.__repr__` make a new str holding the int in decimal:
/// a non-negative int as digits that read back as the int, a negative one as
/// `-` followed by digits that read back as its size.
pub proof fn law_int_to_text(s: RuntimeModel, this: MemoryAddress, a: i128, ans: FloatAnswerModel)
    requires
        rt_wf(s),
        int_of(s, this) == Ok::<i128, RuntimeError>(a),
        !(s.mem.free.len() == 0 && s.mem.cells.len() >= usize::MAX),
    ensures
        ({
            let (s1, r1) = spec_native(s, NativeFunction::IntStr, Some(this), seq![], ans);
            r1 matches Ok(v) && rt_raw(s1, v) matches Ok(DataModel::Str(q)) && {
                &&& a >= 0 ==> all_digits(q) && q.len() >= 1 && decimal_value(q) == a
                &&& a < 0 ==> q.len() >= 2 && q[0] == '-' && all_digits(q.drop_first()) && decimal_value(
                    q.drop_first(),
                ) == -a
            }
        }),
        spec_native(s, NativeFunction::IntRepr, Some(this), seq![], ans) == spec_native(
            s,
            NativeFunction::IntStr,
            Some(this),
            seq![],
            ans,
        ),
{
    let q = int_text(a as int);
    if a >= 0 {
        law_decimal_round_trip(a as nat);
    } else {
        law_decimal_round_trip((-a) as nat);
        assert(q.drop_first() =~= decimal_digits((-a) as nat));
    }
    lemma_rt_alloc(s, builtin_obj(s.builtins.string, DataModel::Str(q)));
}

} // verus!
