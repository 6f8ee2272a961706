//! Binding loosely typed parameters to the placeholders of a statement.
//!
//! The binder looks at the shape of a parameter and at nothing else: whether
//! the bound argument suits the column it meets is found out when the
//! statement runs.

use vstd::prelude::*;

verus! {

/// A number of a dynamic value, in the form in which it was written: without
/// a sign, with one, or as the bits of a binary64 number.
#[derive(Clone, Copy, Debug, PartialEq, Eq, Structural)]
pub enum Number {
    Unsigned(u64),
    Signed(i64),
    Real(u64),
}

/// A dynamic value handed over as the parameter of a statement.
#[derive(Debug, PartialEq)]
pub enum Param {
    Null,
    Bool(bool),
    Number(Number),
    Text(String),
    Array(Vec<Param>),
    Object(Vec<(String, Param)>),
}

/// What is bound to one placeholder.
#[derive(Clone, Copy, Debug, PartialEq)]
pub enum SqlArgument<'a> {
    /// SQL `NULL`.
    Null,
    /// The text, as text.
    Text(&'a str),
    /// The number as a 64-bit float: the binary64 number nearest to it.
    Real(Number),
    /// The value in the driver's own encoding of dynamic values.
    Json(&'a Param),
}

/// What a [`SqlArgument`] holds.
pub enum ArgumentView {
    Null,
    Text(Seq<char>),
    Real(Number),
    Json(Param),
}

impl<'a> View for SqlArgument<'a> {
    type V = ArgumentView;

    open spec fn view(&self) -> ArgumentView {
        match self {
            SqlArgument::Null => ArgumentView::Null,
            SqlArgument::Text(text) => ArgumentView::Text(text@),
            SqlArgument::Real(number) => ArgumentView::Real(*number),
            SqlArgument::Json(value) => ArgumentView::Json(**value),
        }
    }
}

/// The argument that a parameter is bound as: `Null` as SQL `NULL`, a text
/// as text, a number always as a 64-bit float, whether it is whole or not,
/// and every other shape in the driver's encoding.
pub open spec fn binding(param: Param) -> ArgumentView {
    match param {
        Param::Null => ArgumentView::Null,
        Param::Text(text) => ArgumentView::Text(text@),
        Param::Number(number) => ArgumentView::Real(number),
        other => ArgumentView::Json(other),
    }
}

/// The arguments that a sequence of parameters is bound as, in its order.
pub open spec fn bindings(params: Seq<Param>) -> Seq<ArgumentView> {
    Seq::new(params.len(), |i: int| binding(params[i]))
}

/// The views of a sequence of arguments.
pub open spec fn argument_views(arguments: Seq<SqlArgument>) -> Seq<ArgumentView> {
    Seq::new(arguments.len(), |i: int| arguments[i]@)
}

/// Binds one parameter.
pub fn bind_param<'a>(param: &'a Param) -> (argument: SqlArgument<'a>)
    ensures
        argument@ == binding(*param),
{
    match param {
        Param::Null => SqlArgument::Null,
        Param::Text(text) => SqlArgument::Text(text.as_str()),
        Param::Number(number) => SqlArgument::Real(*number),
        Param::Bool(_) => SqlArgument::Json(param),
        Param::Array(_) => SqlArgument::Json(param),
        Param::Object(_) => SqlArgument::Json(param),
    }
}

/// Binds the parameters of a statement, one argument for each placeholder and
/// in the order of the placeholders.
pub fn bind_params<'a>(params: &'a Vec<Param>) -> (arguments: Vec<SqlArgument<'a>>)
    ensures
        argument_views(arguments@) == bindings(params@),
{
    let mut arguments: Vec<SqlArgument<'a>> = Vec::new();
    let mut index: usize = 0;
    while index < params.len()
        invariant
            index <= params.len(),
            arguments.len() == index,
            forall|i: int| 0 <= i < index ==> (#[trigger] arguments[i])@ == binding(params[i]),
        decreases params.len() - index,
    {
        arguments.push(bind_param(&params[index]));
        index = index + 1;
    }
    assert(argument_views(arguments@) =~= bindings(params@));
    arguments
}

} // verus!
