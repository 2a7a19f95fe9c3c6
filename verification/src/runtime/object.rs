//! Objects of the runtime and their mathematical values.

use vstd::prelude::*;
use vstd::string::*;
use crate::lexer::Float;
use crate::text::{concatenate, int_text, int_to_string, push_char};
use crate::compiler::{Const, ConstModel, Instruction, InstructionModel, consts_view, instrs_view};
use crate::runtime::namespace::{MemoryAddress, Namespace, NamespaceModel};

verus! {

/// A binary arithmetic operation of the numeric types.
#[derive(Debug, Clone, Copy, PartialEq, Eq, Structural)]
pub enum ArithOp {
    Add,
    Sub,
    Mul,
    Mod,
    TrueDiv,
}

/// A comparison of the numeric types.
#[derive(Debug, Clone, Copy, PartialEq, Eq, Structural)]
pub enum CompareOp {
    Eq,
    Ne,
    Lt,
    Le,
    Gt,
    Ge,
}

/// A one-operand operation on a float (or on an integer taken as a float).
#[derive(Debug, Clone, Copy, PartialEq, Eq, Structural)]
pub enum FloatUnaryOp {
    Neg,
    Pos,
    Bool,
    Int,
    Str,
    Repr,
    FromInt,
    Sin,
    Cos,
    Tanh,
}

/// The native code of a builtin function or method.
#[derive(Debug, Clone, Copy, PartialEq, Eq, Structural)]
pub enum NativeFunction {
    IntArith(ArithOp),
    IntCompare(CompareOp),
    IntNeg,
    IntPos,
    IntBool,
    IntInt,
    IntFloat,
    IntStr,
    IntRepr,
    FloatArith(ArithOp),
    FloatCompare(CompareOp),
    FloatUnary(FloatUnaryOp),
    FloatFloat,
    BoolAnd,
    BoolOr,
    BoolXor,
    BoolNot,
    BoolNeg,
    BoolBool,
    BoolStr,
    BoolInt,
    BoolFloat,
    StrNew,
    StrAdd,
    StrEq,
    StrNeq,
    StrStr,
    StrRepr,
    NoneStr,
    NoneEq,
    NoneBool,
    Print,
    Len,
    Panic,
    Math(FloatUnaryOp),
    ListLen,
    ListAppend,
    ListExtend,
    ListConcat,
    ListGetItem,
}

/// The data of an object of a builtin type.
#[derive(Debug)]
pub enum BuiltInTypeData {
    Int(i128),
    Float(Float),
    String(String),
    List(Vec<MemoryAddress>),
}

/// The value of builtin data.
pub enum DataModel {
    Int(i128),
    Float(Seq<char>),
    Str(Seq<char>),
    List(Seq<MemoryAddress>),
}

impl View for BuiltInTypeData {
    type V = DataModel;

    open spec fn view(&self) -> DataModel {
        match self {
            BuiltInTypeData::Int(i) => DataModel::Int(*i),
            BuiltInTypeData::Float(f) => DataModel::Float(f.0@),
            BuiltInTypeData::String(s) => DataModel::Str(s@),
            BuiltInTypeData::List(v) => DataModel::List(v@),
        }
    }
}

/// The text that describes builtin data: an integer in decimal, a float as
/// written, a string as `String "..."`, and any list as `a list`.
pub open spec fn data_text(d: DataModel) -> Seq<char> {
    match d {
        DataModel::Int(i) => int_text(i as int),
        DataModel::Float(f) => f,
        DataModel::Str(t) => "String \""@ + t + seq!['"'],
        DataModel::List(_) => "a list"@,
    }
}

impl BuiltInTypeData {
    /// The text that describes the data.
    pub fn to_string(&self) -> (r: String)
        ensures
            r@ == data_text(self@),
    {
        match self {
            BuiltInTypeData::Int(i) => int_to_string(*i),
            BuiltInTypeData::Float(f) => f.0.clone(),
            BuiltInTypeData::String(t) => {
                let mut r = concatenate("String \"", t.as_str());
                push_char(&mut r, '"');
                assert(r@ =~= "String \""@ + t@ + seq!['"']);
                r
            },
            BuiltInTypeData::List(_) => String::from_str("a list"),
        }
    }

    /// The addresses held by list data.
    pub fn take_list(&self) -> (r: Vec<MemoryAddress>)
        requires
            self is List,
        ensures
            self@ == DataModel::List(r@),
    {
        match self {
            BuiltInTypeData::List(v) => v.clone(),
            _ => Vec::new(),
        }
    }

    /// The integer of integer data.
    pub fn take_int(&self) -> (r: i128)
        requires
            self is Int,
        ensures
            self@ == DataModel::Int(r),
    {
        match self {
            BuiltInTypeData::Int(i) => *i,
            _ => 0,
        }
    }

    /// The float of float data.
    pub fn take_float(&self) -> (r: Float)
        requires
            self is Float,
        ensures
            self@ == DataModel::Float(r.0@),
    {
        match self {
            BuiltInTypeData::Float(f) => Float(f.0.clone()),
            _ => Float(String::new()),
        }
    }

    /// The text of string data.
    pub fn take_string(&self) -> (r: String)
        requires
            self is String,
        ensures
            self@ == DataModel::Str(r@),
    {
        match self {
            BuiltInTypeData::String(t) => t.clone(),
            _ => String::new(),
        }
    }
}

/// What an object is.
pub enum PyObjectStructure {
    NoneObject,
    NotImplemented,
    Object { raw_data: BuiltInTypeData, refcount: usize },
    NativeCallable { code: NativeFunction, name: Option<String> },
    Type {
        name: String,
        methods: Namespace,
        functions: Namespace,
        supertype: Option<MemoryAddress>,
    },
    Module { name: String, objects: Namespace },
    UserDefinedFunction {
        name: String,
        code: Vec<Instruction>,
        consts: Vec<Const>,
        params: Vec<String>,
        defaults: Vec<MemoryAddress>,
    },
}

/// The value of an object's structure.
pub enum StructureModel {
    NoneObject,
    NotImplemented,
    Object { raw: DataModel, refcount: usize },
    NativeCallable { code: NativeFunction, name: Option<Seq<char>> },
    Type {
        name: Seq<char>,
        methods: NamespaceModel,
        functions: NamespaceModel,
        supertype: Option<MemoryAddress>,
    },
    Module { name: Seq<char>, objects: NamespaceModel },
    UserDefinedFunction {
        name: Seq<char>,
        code: Seq<InstructionModel>,
        consts: Seq<ConstModel>,
        params: Seq<Seq<char>>,
        defaults: Seq<MemoryAddress>,
    },
}

impl View for PyObjectStructure {
    type V = StructureModel;

    open spec fn view(&self) -> StructureModel {
        match self {
            PyObjectStructure::NoneObject => StructureModel::NoneObject,
            PyObjectStructure::NotImplemented => StructureModel::NotImplemented,
            PyObjectStructure::Object { raw_data, refcount } => StructureModel::Object {
                raw: raw_data@,
                refcount: *refcount,
            },
            PyObjectStructure::NativeCallable { code, name } => StructureModel::NativeCallable {
                code: *code,
                name: match name {
                    Some(n) => Some(n@),
                    None => None,
                },
            },
            PyObjectStructure::Type { name, methods, functions, supertype } => StructureModel::Type {
                name: name@,
                methods: methods@,
                functions: functions@,
                supertype: *supertype,
            },
            PyObjectStructure::Module { name, objects } => StructureModel::Module {
                name: name@,
                objects: objects@,
            },
            PyObjectStructure::UserDefinedFunction { name, code, consts, params, defaults } => {
                StructureModel::UserDefinedFunction {
                    name: name@,
                    code: instrs_view(code@),
                    consts: consts_view(consts@),
                    params: names_view(params@),
                    defaults: defaults@,
                }
            },
        }
    }
}

/// The values of names.
pub open spec fn names_view(s: Seq<String>) -> Seq<Seq<char>> {
    s.map_values(|n: String| n@)
}

/// An object: the address of its type and what it is.
pub struct PyObject {
    pub type_addr: MemoryAddress,
    pub structure: PyObjectStructure,
}

/// The value of an object.
pub struct ObjModel {
    pub type_addr: MemoryAddress,
    pub structure: StructureModel,
}

impl View for PyObject {
    type V = ObjModel;

    open spec fn view(&self) -> ObjModel {
        ObjModel { type_addr: self.type_addr, structure: self.structure@ }
    }
}

/// A fresh object of a builtin type, with no references counted yet.
pub open spec fn builtin_obj(type_addr: MemoryAddress, raw: DataModel) -> ObjModel {
    ObjModel { type_addr, structure: StructureModel::Object { raw, refcount: 0 } }
}

/// A new, empty type.
pub open spec fn type_obj(
    type_type: MemoryAddress,
    name: Seq<char>,
    supertype: Option<MemoryAddress>,
) -> ObjModel {
    ObjModel {
        type_addr: type_type,
        structure: StructureModel::Type {
            name,
            methods: Seq::empty(),
            functions: Seq::empty(),
            supertype,
        },
    }
}

} // verus!
