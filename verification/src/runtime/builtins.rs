//! The registration of the builtin types and functions.

use vstd::prelude::*;
use vstd::string::*;
use crate::runtime::error::RuntimeError;
use crate::runtime::machine::{
    BUILTIN_MODULE, BuiltinTypeAddresses, Runtime, RuntimeModel, Table, callable_obj, rt_add_to_module, rt_alloc,
    rt_create_type, rt_register, rt_wf,
};
use crate::runtime::memory::spec_make_const;
use crate::runtime::namespace::MemoryAddress;
use crate::runtime::object::{
    ArithOp, BuiltInTypeData, CompareOp, DataModel, FloatUnaryOp, NativeFunction, builtin_obj,
};

verus! {

/// Entries of a table of native functions: names and native code.
pub type Entries = Seq<(Seq<char>, NativeFunction)>;

/// The names and code of an executable table.
pub open spec fn entries_view(v: Seq<(&str, NativeFunction)>) -> Entries {
    v.map_values(|e: (&str, NativeFunction)| (e.0@, e.1))
}

/// The methods of `int`.
pub open spec fn int_methods() -> Entries {
    seq![
        ("__eq__"@, NativeFunction::IntCompare(CompareOp::Eq)),
        ("__gt__"@, NativeFunction::IntCompare(CompareOp::Gt)),
        ("__ge__"@, NativeFunction::IntCompare(CompareOp::Ge)),
        ("__lt__"@, NativeFunction::IntCompare(CompareOp::Lt)),
        ("__le__"@, NativeFunction::IntCompare(CompareOp::Le)),
        ("__ne__"@, NativeFunction::IntCompare(CompareOp::Ne)),
        ("__add__"@, NativeFunction::IntArith(ArithOp::Add)),
        ("__mod__"@, NativeFunction::IntArith(ArithOp::Mod)),
        ("__sub__"@, NativeFunction::IntArith(ArithOp::Sub)),
        ("__mul__"@, NativeFunction::IntArith(ArithOp::Mul)),
        ("__truediv__"@, NativeFunction::IntArith(ArithOp::TrueDiv)),
        ("__neg__"@, NativeFunction::IntNeg),
        ("__pos__"@, NativeFunction::IntPos),
        ("__bool__"@, NativeFunction::IntBool),
        ("__int__"@, NativeFunction::IntInt),
        ("__float__"@, NativeFunction::IntFloat),
        ("__str__"@, NativeFunction::IntStr),
        ("__repr__"@, NativeFunction::IntRepr),
    ]
}

fn int_method_table() -> (r: Vec<(&'static str, NativeFunction)>)
    ensures
        entries_view(r@) == int_methods(),
{
    let mut v: Vec<(&'static str, NativeFunction)> = Vec::new();
    v.push(("__eq__", NativeFunction::IntCompare(CompareOp::Eq)));
    v.push(("__gt__", NativeFunction::IntCompare(CompareOp::Gt)));
    v.push(("__ge__", NativeFunction::IntCompare(CompareOp::Ge)));
    v.push(("__lt__", NativeFunction::IntCompare(CompareOp::Lt)));
    v.push(("__le__", NativeFunction::IntCompare(CompareOp::Le)));
    v.push(("__ne__", NativeFunction::IntCompare(CompareOp::Ne)));
    v.push(("__add__", NativeFunction::IntArith(ArithOp::Add)));
    v.push(("__mod__", NativeFunction::IntArith(ArithOp::Mod)));
    v.push(("__sub__", NativeFunction::IntArith(ArithOp::Sub)));
    v.push(("__mul__", NativeFunction::IntArith(ArithOp::Mul)));
    v.push(("__truediv__", NativeFunction::IntArith(ArithOp::TrueDiv)));
    v.push(("__neg__", NativeFunction::IntNeg));
    v.push(("__pos__", NativeFunction::IntPos));
    v.push(("__bool__", NativeFunction::IntBool));
    v.push(("__int__", NativeFunction::IntInt));
    v.push(("__float__", NativeFunction::IntFloat));
    v.push(("__str__", NativeFunction::IntStr));
    v.push(("__repr__", NativeFunction::IntRepr));
    assert(entries_view(v@) =~= int_methods());
    v
}


/// The methods of `float`.
pub open spec fn float_methods() -> Entries {
    seq![
        ("__eq__"@, NativeFunction::FloatCompare(CompareOp::Eq)),
        ("__gt__"@, NativeFunction::FloatCompare(CompareOp::Gt)),
        ("__ge__"@, NativeFunction::FloatCompare(CompareOp::Ge)),
        ("__lt__"@, NativeFunction::FloatCompare(CompareOp::Lt)),
        ("__le__"@, NativeFunction::FloatCompare(CompareOp::Le)),
        ("__ne__"@, NativeFunction::FloatCompare(CompareOp::Ne)),
        ("__add__"@, NativeFunction::FloatArith(ArithOp::Add)),
        ("__mod__"@, NativeFunction::FloatArith(ArithOp::Mod)),
        ("__sub__"@, NativeFunction::FloatArith(ArithOp::Sub)),
        ("__mul__"@, NativeFunction::FloatArith(ArithOp::Mul)),
        ("__truediv__"@, NativeFunction::FloatArith(ArithOp::TrueDiv)),
        ("__neg__"@, NativeFunction::FloatUnary(FloatUnaryOp::Neg)),
        ("__pos__"@, NativeFunction::FloatUnary(FloatUnaryOp::Pos)),
        ("__bool__"@, NativeFunction::FloatUnary(FloatUnaryOp::Bool)),
        ("__int__"@, NativeFunction::FloatUnary(FloatUnaryOp::Int)),
        ("__float__"@, NativeFunction::FloatFloat),
        ("__str__"@, NativeFunction::FloatUnary(FloatUnaryOp::Str)),
        ("__repr__"@, NativeFunction::FloatUnary(FloatUnaryOp::Repr)),
    ]
}

fn float_method_table() -> (r: Vec<(&'static str, NativeFunction)>)
    ensures
        entries_view(r@) == float_methods(),
{
    let mut v: Vec<(&'static str, NativeFunction)> = Vec::new();
    v.push(("__eq__", NativeFunction::FloatCompare(CompareOp::Eq)));
    v.push(("__gt__", NativeFunction::FloatCompare(CompareOp::Gt)));
    v.push(("__ge__", NativeFunction::FloatCompare(CompareOp::Ge)));
    v.push(("__lt__", NativeFunction::FloatCompare(CompareOp::Lt)));
    v.push(("__le__", NativeFunction::FloatCompare(CompareOp::Le)));
    v.push(("__ne__", NativeFunction::FloatCompare(CompareOp::Ne)));
    v.push(("__add__", NativeFunction::FloatArith(ArithOp::Add)));
    v.push(("__mod__", NativeFunction::FloatArith(ArithOp::Mod)));
    v.push(("__sub__", NativeFunction::FloatArith(ArithOp::Sub)));
    v.push(("__mul__", NativeFunction::FloatArith(ArithOp::Mul)));
    v.push(("__truediv__", NativeFunction::FloatArith(ArithOp::TrueDiv)));
    v.push(("__neg__", NativeFunction::FloatUnary(FloatUnaryOp::Neg)));
    v.push(("__pos__", NativeFunction::FloatUnary(FloatUnaryOp::Pos)));
    v.push(("__bool__", NativeFunction::FloatUnary(FloatUnaryOp::Bool)));
    v.push(("__int__", NativeFunction::FloatUnary(FloatUnaryOp::Int)));
    v.push(("__float__", NativeFunction::FloatFloat));
    v.push(("__str__", NativeFunction::FloatUnary(FloatUnaryOp::Str)));
    v.push(("__repr__", NativeFunction::FloatUnary(FloatUnaryOp::Repr)));
    assert(entries_view(v@) =~= float_methods());
    v
}

/// The methods of `bool`; the others it has from `int`, its supertype.
pub open spec fn bool_methods() -> Entries {
    seq![
        ("__and__"@, NativeFunction::BoolAnd),
        ("__or__"@, NativeFunction::BoolOr),
        ("__xor__"@, NativeFunction::BoolXor),
        ("__not__"@, NativeFunction::BoolNot),
        ("__neg__"@, NativeFunction::BoolNeg),
        ("__bool__"@, NativeFunction::BoolBool),
        ("__str__"@, NativeFunction::BoolStr),
        ("__repr__"@, NativeFunction::BoolStr),
        ("__int__"@, NativeFunction::BoolInt),
        ("__float__"@, NativeFunction::BoolFloat),
    ]
}

fn bool_method_table() -> (r: Vec<(&'static str, NativeFunction)>)
    ensures
        entries_view(r@) == bool_methods(),
{
    let mut v: Vec<(&'static str, NativeFunction)> = Vec::new();
    v.push(("__and__", NativeFunction::BoolAnd));
    v.push(("__or__", NativeFunction::BoolOr));
    v.push(("__xor__", NativeFunction::BoolXor));
    v.push(("__not__", NativeFunction::BoolNot));
    v.push(("__neg__", NativeFunction::BoolNeg));
    v.push(("__bool__", NativeFunction::BoolBool));
    v.push(("__str__", NativeFunction::BoolStr));
    v.push(("__repr__", NativeFunction::BoolStr));
    v.push(("__int__", NativeFunction::BoolInt));
    v.push(("__float__", NativeFunction::BoolFloat));
    assert(entries_view(v@) =~= bool_methods());
    v
}

/// The methods of `str`; its equality test is `__eq__` and its inequality test `__neq__`.
pub open spec fn str_methods() -> Entries {
    seq![
        ("__add__"@, NativeFunction::StrAdd),
        ("__eq__"@, NativeFunction::StrEq),
        ("__neq__"@, NativeFunction::StrNeq),
        ("__repr__"@, NativeFunction::StrRepr),
        ("__str__"@, NativeFunction::StrStr),
    ]
}

fn str_method_table() -> (r: Vec<(&'static str, NativeFunction)>)
    ensures
        entries_view(r@) == str_methods(),
{
    let mut v: Vec<(&'static str, NativeFunction)> = Vec::new();
    v.push(("__add__", NativeFunction::StrAdd));
    v.push(("__eq__", NativeFunction::StrEq));
    v.push(("__neq__", NativeFunction::StrNeq));
    v.push(("__repr__", NativeFunction::StrRepr));
    v.push(("__str__", NativeFunction::StrStr));
    assert(entries_view(v@) =~= str_methods());
    v
}

/// The methods of `list`.
pub open spec fn list_methods() -> Entries {
    seq![
        ("__add__"@, NativeFunction::ListConcat),
        ("__len__"@, NativeFunction::ListLen),
        ("__getitem__"@, NativeFunction::ListGetItem),
        ("append"@, NativeFunction::ListAppend),
        ("extend"@, NativeFunction::ListExtend),
    ]
}

fn list_method_table() -> (r: Vec<(&'static str, NativeFunction)>)
    ensures
        entries_view(r@) == list_methods(),
{
    let mut v: Vec<(&'static str, NativeFunction)> = Vec::new();
    v.push(("__add__", NativeFunction::ListConcat));
    v.push(("__len__", NativeFunction::ListLen));
    v.push(("__getitem__", NativeFunction::ListGetItem));
    v.push(("append", NativeFunction::ListAppend));
    v.push(("extend", NativeFunction::ListExtend));
    assert(entries_view(v@) =~= list_methods());
    v
}

/// The methods of `NoneType`.
pub open spec fn none_methods() -> Entries {
    seq![
        ("__str__"@, NativeFunction::NoneStr),
        ("__eq__"@, NativeFunction::NoneEq),
        ("__bool__"@, NativeFunction::NoneBool),
    ]
}

fn none_method_table() -> (r: Vec<(&'static str, NativeFunction)>)
    ensures
        entries_view(r@) == none_methods(),
{
    let mut v: Vec<(&'static str, NativeFunction)> = Vec::new();
    v.push(("__str__", NativeFunction::NoneStr));
    v.push(("__eq__", NativeFunction::NoneEq));
    v.push(("__bool__", NativeFunction::NoneBool));
    assert(entries_view(v@) =~= none_methods());
    v
}

/// The functions of the builtin module.
pub open spec fn builtin_functions() -> Entries {
    seq![
        ("sin"@, NativeFunction::Math(FloatUnaryOp::Sin)),
        ("cos"@, NativeFunction::Math(FloatUnaryOp::Cos)),
        ("tanh"@, NativeFunction::Math(FloatUnaryOp::Tanh)),
        ("print"@, NativeFunction::Print),
        ("panic"@, NativeFunction::Panic),
        ("len"@, NativeFunction::Len),
    ]
}

fn builtin_function_table() -> (r: Vec<(&'static str, NativeFunction)>)
    ensures
        entries_view(r@) == builtin_functions(),
{
    let mut v: Vec<(&'static str, NativeFunction)> = Vec::new();
    v.push(("sin", NativeFunction::Math(FloatUnaryOp::Sin)));
    v.push(("cos", NativeFunction::Math(FloatUnaryOp::Cos)));
    v.push(("tanh", NativeFunction::Math(FloatUnaryOp::Tanh)));
    v.push(("print", NativeFunction::Print));
    v.push(("panic", NativeFunction::Panic));
    v.push(("len", NativeFunction::Len));
    assert(entries_view(v@) =~= builtin_functions());
    v
}

/// Each entry of `entries` registered in turn, as a new function object bound in
/// the table `table` of the type at `t`, stopping at the first error.
pub open spec fn rt_register_all(s: RuntimeModel, t: MemoryAddress, table: Table, entries: Entries) -> (
    RuntimeModel,
    Result<(), RuntimeError>,
)
    decreases entries.len(),
{
    if entries.len() == 0 {
        (s, Ok(()))
    } else {
        let (s1, r1) = rt_register_all(s, t, table, entries.drop_last());
        match r1 {
            Err(e) => (s1, Err(e)),
            Ok(_) => rt_register(s1, t, table, entries.last().0, entries.last().1),
        }
    }
}

/// A new function object with native code `code` added to the builtin module under `name`.
pub open spec fn rt_add_function(s: RuntimeModel, name: Seq<char>, code: NativeFunction) -> (RuntimeModel, Result<
    (),
    RuntimeError,
>) {
    let (s1, r1) = rt_alloc(s, callable_obj(s, code, Some(name)));
    match r1 {
        Err(e) => (s1, Err(e)),
        Ok(f) => rt_add_to_module(s1, BUILTIN_MODULE@, name, f),
    }
}

/// Each entry of `entries` added in turn to the builtin module, stopping at the first error.
pub open spec fn rt_add_functions(s: RuntimeModel, entries: Entries) -> (RuntimeModel, Result<(), RuntimeError>)
    decreases entries.len(),
{
    if entries.len() == 0 {
        (s, Ok(()))
    } else {
        let (s1, r1) = rt_add_functions(s, entries.drop_last());
        match r1 {
            Err(e) => (s1, Err(e)),
            Ok(_) => rt_add_function(s1, entries.last().0, entries.last().1),
        }
    }
}

/// A new type of the builtin module with the methods `methods`.
pub open spec fn rt_define_type(
    s: RuntimeModel,
    name: Seq<char>,
    supertype: Option<MemoryAddress>,
    methods: Entries,
) -> (RuntimeModel, Result<MemoryAddress, RuntimeError>) {
    let (s1, r1) = rt_create_type(s, BUILTIN_MODULE@, name, supertype);
    match r1 {
        Err(e) => (s1, Err(e)),
        Ok(t) => {
            let (s2, r2) = rt_register_all(s1, t, Table::TypeMethods, methods);
            match r2 {
                Err(e) => (s2, Err(e)),
                Ok(_) => (s2, Ok(t)),
            }
        },
    }
}

/// A new constant object of the type at `t` holding `d`.
pub open spec fn rt_alloc_const(s: RuntimeModel, t: MemoryAddress, d: DataModel) -> (RuntimeModel, Result<
    MemoryAddress,
    RuntimeError,
>) {
    let (s1, r1) = rt_alloc(s, builtin_obj(t, d));
    match r1 {
        Err(e) => (s1, Err(e)),
        Ok(a) => match spec_make_const(s1.mem, a) {
            Err(e) => (s1, Err(e)),
            Ok(m) => (RuntimeModel { mem: m, ..s1 }, Ok(a)),
        },
    }
}

/// The `int` type, recorded as the builtin int type.
pub open spec fn stage_int(s: RuntimeModel) -> (RuntimeModel, Result<(), RuntimeError>) {
    let (s1, r1) = rt_define_type(s, "int"@, None, int_methods());
    match r1 {
        Err(e) => (s1, Err(e)),
        Ok(t) => (RuntimeModel { builtins: BuiltinTypeAddresses { int: t, ..s1.builtins }, ..s1 }, Ok(())),
    }
}

/// The `float` type, recorded as the builtin float type.
pub open spec fn stage_float(s: RuntimeModel) -> (RuntimeModel, Result<(), RuntimeError>) {
    let (s1, r1) = rt_define_type(s, "float"@, None, float_methods());
    match r1 {
        Err(e) => (s1, Err(e)),
        Ok(t) => (RuntimeModel { builtins: BuiltinTypeAddresses { float: t, ..s1.builtins }, ..s1 }, Ok(())),
    }
}

/// The `bool` type, a subtype of `int`, with its two constant values `True` and `False`.
pub open spec fn stage_bool(s: RuntimeModel) -> (RuntimeModel, Result<(), RuntimeError>) {
    let (s1, r1) = rt_define_type(s, "bool"@, Some(s.builtins.int), bool_methods());
    match r1 {
        Err(e) => (s1, Err(e)),
        Ok(t) => {
            let (s2, r2) = rt_alloc_const(s1, t, DataModel::Int(1));
            match r2 {
                Err(e) => (s2, Err(e)),
                Ok(tv) => {
                    let (s3, r3) = rt_alloc_const(s2, t, DataModel::Int(0));
                    match r3 {
                        Err(e) => (s3, Err(e)),
                        Ok(fv) => (
                            RuntimeModel {
                                builtins: BuiltinTypeAddresses {
                                    boolean: t,
                                    true_val: tv,
                                    false_val: fv,
                                    ..s3.builtins
                                },
                                ..s3
                            },
                            Ok(()),
                        ),
                    }
                },
            }
        },
    }
}

/// The `str` type with its constructor `__new__`, recorded as the builtin string type.
pub open spec fn stage_str(s: RuntimeModel) -> (RuntimeModel, Result<(), RuntimeError>) {
    let (s1, r1) = rt_define_type(s, "str"@, None, str_methods());
    match r1 {
        Err(e) => (s1, Err(e)),
        Ok(t) => {
            let (s2, r2) = rt_register(s1, t, Table::TypeFunctions, "__new__"@, NativeFunction::StrNew);
            match r2 {
                Err(e) => (s2, Err(e)),
                Ok(_) => (
                    RuntimeModel { builtins: BuiltinTypeAddresses { string: t, ..s2.builtins }, ..s2 },
                    Ok(()),
                ),
            }
        },
    }
}

/// The `list` type, recorded as the builtin list type.
pub open spec fn stage_list(s: RuntimeModel) -> (RuntimeModel, Result<(), RuntimeError>) {
    let (s1, r1) = rt_define_type(s, "list"@, None, list_methods());
    match r1 {
        Err(e) => (s1, Err(e)),
        Ok(t) => (RuntimeModel { builtins: BuiltinTypeAddresses { list: t, ..s1.builtins }, ..s1 }, Ok(())),
    }
}

/// The builtin types and functions registered in a runtime: `int`, `float`, the
/// math functions with `print`, `panic` and `len`, `bool`, `str`, `list` and the
/// methods of `None`.
pub open spec fn spec_register_builtins(s: RuntimeModel) -> (RuntimeModel, Result<(), RuntimeError>) {
    let (s1, r1) = stage_int(s);
    if r1 is Err {
        (s1, r1)
    } else {
        let (s2, r2) = stage_float(s1);
        if r2 is Err {
            (s2, r2)
        } else {
            let (s3, r3) = rt_add_functions(s2, builtin_functions());
            if r3 is Err {
                (s3, r3)
            } else {
                let (s4, r4) = stage_bool(s3);
                if r4 is Err {
                    (s4, r4)
                } else {
                    let (s5, r5) = stage_str(s4);
                    if r5 is Err {
                        (s5, r5)
                    } else {
                        let (s6, r6) = stage_list(s5);
                        if r6 is Err {
                            (s6, r6)
                        } else {
                            rt_register_all(s6, s6.special.none_type, Table::TypeMethods, none_methods())
                        }
                    }
                }
            }
        }
    }
}

/// After an error at index `i`, registering all of `entries` gives that error.
proof fn lemma_register_all_stops(s: RuntimeModel, t: MemoryAddress, table: Table, entries: Entries, i: int)
    requires
        0 <= i < entries.len(),
        rt_register_all(s, t, table, entries.take(i + 1)).1 is Err,
    ensures
        rt_register_all(s, t, table, entries) == rt_register_all(s, t, table, entries.take(i + 1)),
    decreases entries.len() - i,
{
    if i + 1 == entries.len() {
        assert(entries.take(i + 1) =~= entries);
    } else {
        assert(entries.take(i + 2).drop_last() =~= entries.take(i + 1));
        lemma_register_all_stops(s, t, table, entries, i + 1);
    }
}

/// After an error at index `i`, adding all of `entries` gives that error.
proof fn lemma_add_functions_stops(s: RuntimeModel, entries: Entries, i: int)
    requires
        0 <= i < entries.len(),
        rt_add_functions(s, entries.take(i + 1)).1 is Err,
    ensures
        rt_add_functions(s, entries) == rt_add_functions(s, entries.take(i + 1)),
    decreases entries.len() - i,
{
    if i + 1 == entries.len() {
        assert(entries.take(i + 1) =~= entries);
    } else {
        assert(entries.take(i + 2).drop_last() =~= entries.take(i + 1));
        lemma_add_functions_stops(s, entries, i + 1);
    }
}

impl Runtime {
    /// Registers each entry of `entries` in the table `table` of the type at `type_addr`.
    pub fn register_entries(&mut self, type_addr: MemoryAddress, table: Table, entries: &Vec<(&str, NativeFunction)>) -> (r:
        Result<(), RuntimeError>)
        requires
            rt_wf(old(self)@),
        ensures
            rt_wf(final(self)@),
            (final(self)@, r) == rt_register_all(old(self)@, type_addr, table, entries_view(entries@)),
    {
        let ghost s0 = self@;
        let ghost es = entries_view(entries@);
        let mut i: usize = 0;
        assert(es.take(0).len() == 0);
        while i < entries.len()
            invariant
                i <= entries.len(),
                es.len() == entries@.len(),
                es == entries_view(entries@),
                rt_wf(self@),
                s0 == old(self)@,
                (self@, Ok::<(), RuntimeError>(())) == rt_register_all(s0, type_addr, table, es.take(i as int)),
            decreases entries.len() - i,
        {
            assert(es.take(i as int + 1).drop_last() =~= es.take(i as int));
            assert(es.take(i as int + 1).last() == es[i as int]);
            let (name, code) = entries[i];
            let r = self.register_on_addr(type_addr, table, name, code);
            assert(rt_register_all(s0, type_addr, table, es.take(i as int + 1)) == (self@, r));
            if r.is_err() {
                proof {
                    lemma_register_all_stops(s0, type_addr, table, es, i as int);
                }
                return r;
            }
            i = i + 1;
        }
        assert(es.take(i as int) =~= es);
        Ok(())
    }

    /// Adds each entry of `entries` to the builtin module as a new function object.
    pub fn add_functions(&mut self, entries: &Vec<(&str, NativeFunction)>) -> (r: Result<(), RuntimeError>)
        requires
            rt_wf(old(self)@),
        ensures
            rt_wf(final(self)@),
            (final(self)@, r) == rt_add_functions(old(self)@, entries_view(entries@)),
    {
        let ghost s0 = self@;
        let ghost es = entries_view(entries@);
        let mut i: usize = 0;
        assert(es.take(0).len() == 0);
        while i < entries.len()
            invariant
                i <= entries.len(),
                es.len() == entries@.len(),
                es == entries_view(entries@),
                rt_wf(self@),
                s0 == old(self)@,
                (self@, Ok::<(), RuntimeError>(())) == rt_add_functions(s0, es.take(i as int)),
            decreases entries.len() - i,
        {
            assert(es.take(i as int + 1).drop_last() =~= es.take(i as int));
            assert(es.take(i as int + 1).last() == es[i as int]);
            let (name, code) = entries[i];
            let r = match self.create_callable_pyobj(code, Some(String::from_str(name))) {
                Err(e) => Err(e),
                Ok(f) => self.add_to_module(BUILTIN_MODULE, name, f),
            };
            assert(rt_add_functions(s0, es.take(i as int + 1)) == (self@, r));
            if r.is_err() {
                proof {
                    lemma_add_functions_stops(s0, es, i as int);
                }
                return r;
            }
            i = i + 1;
        }
        assert(es.take(i as int) =~= es);
        Ok(())
    }

    /// Creates the type `name` in the builtin module and registers its methods.
    fn define_type(&mut self, name: &str, supertype: Option<MemoryAddress>, methods: &Vec<(&str, NativeFunction)>) -> (r:
        Result<MemoryAddress, RuntimeError>)
        requires
            rt_wf(old(self)@),
        ensures
            rt_wf(final(self)@),
            (final(self)@, r) == rt_define_type(old(self)@, name@, supertype, entries_view(methods@)),
    {
        match self.create_type(BUILTIN_MODULE, name, supertype) {
            Err(e) => Err(e),
            Ok(t) => match self.register_entries(t, Table::TypeMethods, methods) {
                Err(e) => Err(e),
                Ok(_) => Ok(t),
            },
        }
    }

    /// A new constant object of the type at `type_addr` holding `data`.
    fn allocate_const(&mut self, type_addr: MemoryAddress, data: BuiltInTypeData) -> (r: Result<
        MemoryAddress,
        RuntimeError,
    >)
        requires
            rt_wf(old(self)@),
        ensures
            rt_wf(final(self)@),
            (final(self)@, r) == rt_alloc_const(old(self)@, type_addr, data@),
    {
        match self.allocate_type_byaddr_raw(type_addr, data) {
            Err(e) => Err(e),
            Ok(a) => match self.make_const(a) {
                Err(e) => Err(e),
                Ok(_) => Ok(a),
            },
        }
    }

}

/// Registers the builtin types, their methods and the builtin functions.
pub fn register_builtins(runtime: &mut Runtime) -> (r: Result<(), RuntimeError>)
    requires
        rt_wf(old(runtime)@),
    ensures
        rt_wf(final(runtime)@),
        (final(runtime)@, r) == spec_register_builtins(old(runtime)@),
{
    let ghost s0 = runtime@;
    let int_type = match runtime.define_type("int", None, &int_method_table()) {
        Err(e) => {
            return Err(e);
        },
        Ok(t) => t,
    };
    runtime.builtin_type_addrs.int = int_type;
    let ghost s1 = runtime@;
    assert((s1, Ok::<(), RuntimeError>(())) == stage_int(s0));
    let float_type = match runtime.define_type("float", None, &float_method_table()) {
        Err(e) => {
            return Err(e);
        },
        Ok(t) => t,
    };
    runtime.builtin_type_addrs.float = float_type;
    let ghost s2 = runtime@;
    assert((s2, Ok::<(), RuntimeError>(())) == stage_float(s1));
    let r3 = runtime.add_functions(&builtin_function_table());
    if r3.is_err() {
        return r3;
    }
    let ghost s3 = runtime@;
    let int_type = runtime.builtin_type_addrs.int;
    let bool_type = match runtime.define_type("bool", Some(int_type), &bool_method_table()) {
        Err(e) => {
            return Err(e);
        },
        Ok(t) => t,
    };
    let true_val = match runtime.allocate_const(bool_type, BuiltInTypeData::Int(1)) {
        Err(e) => {
            return Err(e);
        },
        Ok(a) => a,
    };
    let false_val = match runtime.allocate_const(bool_type, BuiltInTypeData::Int(0)) {
        Err(e) => {
            return Err(e);
        },
        Ok(a) => a,
    };
    runtime.builtin_type_addrs.boolean = bool_type;
    runtime.builtin_type_addrs.true_val = true_val;
    runtime.builtin_type_addrs.false_val = false_val;
    let ghost s4 = runtime@;
    assert((s4, Ok::<(), RuntimeError>(())) == stage_bool(s3));
    let str_type = match runtime.define_type("str", None, &str_method_table()) {
        Err(e) => {
            return Err(e);
        },
        Ok(t) => t,
    };
    let r5 = runtime.register_type_unbounded_func(str_type, "__new__", NativeFunction::StrNew);
    if r5.is_err() {
        return r5;
    }
    runtime.builtin_type_addrs.string = str_type;
    let ghost s5 = runtime@;
    assert((s5, Ok::<(), RuntimeError>(())) == stage_str(s4));
    let list_type = match runtime.define_type("list", None, &list_method_table()) {
        Err(e) => {
            return Err(e);
        },
        Ok(t) => t,
    };
    runtime.builtin_type_addrs.list = list_type;
    let ghost s6 = runtime@;
    assert((s6, Ok::<(), RuntimeError>(())) == stage_list(s5));
    let none_type = runtime.special_values.none_type;
    runtime.register_entries(none_type, Table::TypeMethods, &none_method_table())
}

} // verus!
