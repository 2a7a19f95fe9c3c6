//! Float computations. The runtime keeps a float as the text of its value and
//! hands every computation on floats to a host, which answers with text too.

use vstd::prelude::*;
use crate::lexer::Float;
use crate::runtime::object::{ArithOp, CompareOp, FloatUnaryOp};

verus! {

/// An operand of a float computation.
#[derive(Debug)]
pub enum FloatOperand {
    Int(i128),
    Float(Float),
}

/// The value of an operand.
pub enum FloatOperandModel {
    Int(i128),
    Float(Seq<char>),
}

impl View for FloatOperand {
    type V = FloatOperandModel;

    open spec fn view(&self) -> FloatOperandModel {
        match self {
            FloatOperand::Int(i) => FloatOperandModel::Int(*i),
            FloatOperand::Float(f) => FloatOperandModel::Float(f.0@),
        }
    }
}

/// A float computation asked of the host.
#[derive(Debug)]
pub enum FloatQuery {
    Arith(ArithOp, FloatOperand, FloatOperand),
    Compare(CompareOp, FloatOperand, FloatOperand),
    Unary(FloatUnaryOp, FloatOperand),
}

/// The value of a query.
pub enum FloatQueryModel {
    Arith(ArithOp, FloatOperandModel, FloatOperandModel),
    Compare(CompareOp, FloatOperandModel, FloatOperandModel),
    Unary(FloatUnaryOp, FloatOperandModel),
}

impl View for FloatQuery {
    type V = FloatQueryModel;

    open spec fn view(&self) -> FloatQueryModel {
        match self {
            FloatQuery::Arith(op, a, b) => FloatQueryModel::Arith(*op, a@, b@),
            FloatQuery::Compare(op, a, b) => FloatQueryModel::Compare(*op, a@, b@),
            FloatQuery::Unary(op, a) => FloatQueryModel::Unary(*op, a@),
        }
    }
}

/// The host's answer to a query.
#[derive(Debug)]
pub enum FloatAnswer {
    Float(Float),
    Bool(bool),
    Int(i128),
    Text(String),
    Failed,
}

/// The value of an answer.
pub enum FloatAnswerModel {
    Float(Seq<char>),
    Bool(bool),
    Int(i128),
    Text(Seq<char>),
    Failed,
}

impl View for FloatAnswer {
    type V = FloatAnswerModel;

    open spec fn view(&self) -> FloatAnswerModel {
        match self {
            FloatAnswer::Float(f) => FloatAnswerModel::Float(f.0@),
            FloatAnswer::Bool(b) => FloatAnswerModel::Bool(*b),
            FloatAnswer::Int(i) => FloatAnswerModel::Int(*i),
            FloatAnswer::Text(t) => FloatAnswerModel::Text(t@),
            FloatAnswer::Failed => FloatAnswerModel::Failed,
        }
    }
}

/// What a program's host does with floats: the library promises nothing of its answers.
pub trait FloatHost {
    /// Computes `query` on floats.
    fn compute(&self, query: &FloatQuery) -> FloatAnswer;
}

} // verus!
