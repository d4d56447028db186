//! The two trees that scalars live in: the output tree that execution builds
//! for a response, and the input tree that a submitted operation's arguments
//! and variables are normalised into.

use vstd::prelude::*;

verus! {

/// A normalised scalar primitive, the leaf of both trees.
///
/// A float is carried as its decimal text: this library does no floating-point
/// arithmetic, it only passes such a number through.
#[derive(Debug, PartialEq)]
pub enum ScalarValue {
    Int(i32),
    Float(String),
    String(String),
    Boolean(bool),
}

/// A node of a response tree.
#[derive(Debug, PartialEq)]
pub enum OutputValue {
    Null,
    Scalar(ScalarValue),
    List(Vec<OutputValue>),
    /// Named fields, in the order in which they were produced.
    Object(Vec<(String, OutputValue)>),
}

/// A node of a normalised argument or variable tree.
#[derive(Debug, PartialEq)]
pub enum InputValue {
    Null,
    Scalar(ScalarValue),
    /// A reference to a variable, by name; resolved before a scalar is read.
    Variable(String),
    List(Vec<InputValue>),
    /// Named fields, in the order in which they were written.
    Object(Vec<(String, InputValue)>),
}

/// The text of a string leaf of an output tree; `None` for any other node.
pub open spec fn text_leaf(o: OutputValue) -> Option<Seq<char>> {
    match o {
        OutputValue::Scalar(ScalarValue::String(t)) => Some(t@),
        _ => None,
    }
}

impl OutputValue {
    /// A leaf that holds `v`.
    pub fn scalar(v: ScalarValue) -> (r: OutputValue)
        ensures
            r == OutputValue::Scalar(v),
    {
        OutputValue::Scalar(v)
    }

    /// A node with the fields `fields`, in their order.
    pub fn object(fields: Vec<(String, OutputValue)>) -> (r: OutputValue)
        ensures
            r == OutputValue::Object(fields),
    {
        OutputValue::Object(fields)
    }
}

impl InputValue {
    /// The text of a string leaf; `None` for any other node.
    pub open spec fn string_of(self) -> Option<Seq<char>> {
        match self {
            InputValue::Scalar(ScalarValue::String(s)) => Some(s@),
            _ => None,
        }
    }

    /// The decimal text of a float leaf; `None` for any other node.
    pub open spec fn float_of(self) -> Option<Seq<char>> {
        match self {
            InputValue::Scalar(ScalarValue::Float(s)) => Some(s@),
            _ => None,
        }
    }

    /// The integer of an integer leaf; `None` for any other node.
    pub open spec fn int_of(self) -> Option<i32> {
        match self {
            InputValue::Scalar(ScalarValue::Int(i)) => Some(i),
            _ => None,
        }
    }

    /// The boolean of a boolean leaf; `None` for any other node.
    pub open spec fn boolean_of(self) -> Option<bool> {
        match self {
            InputValue::Scalar(ScalarValue::Boolean(b)) => Some(b),
            _ => None,
        }
    }

    /// A leaf that holds `v`.
    pub fn scalar(v: ScalarValue) -> (r: InputValue)
        ensures
            r == InputValue::Scalar(v),
    {
        InputValue::Scalar(v)
    }

    /// The text of a string leaf, borrowed; `None` for any other node.
    pub fn as_string_value(&self) -> (r: Option<&str>)
        ensures
            r is Some <==> self.string_of() is Some,
            r matches Some(s) ==> self.string_of() == Some(s@),
    {
        match self {
            InputValue::Scalar(ScalarValue::String(s)) => Some(s.as_str()),
            _ => None,
        }
    }

    /// The decimal text of a float leaf, borrowed; `None` for any other node.
    pub fn as_float_value(&self) -> (r: Option<&str>)
        ensures
            r is Some <==> self.float_of() is Some,
            r matches Some(s) ==> self.float_of() == Some(s@),
    {
        match self {
            InputValue::Scalar(ScalarValue::Float(s)) => Some(s.as_str()),
            _ => None,
        }
    }

    /// The integer of an integer leaf; `None` for any other node.
    pub fn as_int_value(&self) -> (r: Option<i32>)
        ensures
            r == self.int_of(),
    {
        match self {
            InputValue::Scalar(ScalarValue::Int(i)) => Some(*i),
            _ => None,
        }
    }

    /// The boolean of a boolean leaf; `None` for any other node.
    pub fn as_boolean_value(&self) -> (r: Option<bool>)
        ensures
            r == self.boolean_of(),
    {
        match self {
            InputValue::Scalar(ScalarValue::Boolean(b)) => Some(*b),
            _ => None,
        }
    }
}

} // verus!
