//! Why a call could not be bound, and the words in which the caller is told.

use vstd::prelude::*;
use vstd::string::StringExecFns;
use crate::text::{decimal, push_decimal, quote_names, quoted_list};

verus! {

/// A call that does not fit the function's parameters.
#[derive(Clone, Debug, PartialEq, Eq)]
pub enum BindError {
    /// More positional arguments than positional parameters, and no `*args`.
    TooManyPositional { expected: usize, given: usize },
    /// A keyword names a parameter that already has a value.
    MultipleValues { name: String },
    /// A keyword names no parameter, and there is no `**kwargs`.
    UnexpectedKeyword { name: String },
    /// Keywords name positional-only parameters; all of them, in call order.
    PositionalOnlyAsKeyword { names: Vec<String> },
    /// Positional parameters without a default got no value; all of them, in
    /// parameter order.
    MissingPositional { names: Vec<String> },
    /// A keyword-only parameter without a default got no value; the first
    /// one in parameter order, alone.
    MissingKwOnly { name: String },
}

/// A [`BindError`] as plain data.
pub enum BindErrorView {
    TooManyPositional { expected: nat, given: nat },
    MultipleValues { name: Seq<char> },
    UnexpectedKeyword { name: Seq<char> },
    PositionalOnlyAsKeyword { names: Seq<Seq<char>> },
    MissingPositional { names: Seq<Seq<char>> },
    MissingKwOnly { name: Seq<char> },
}

impl View for BindError {
    type V = BindErrorView;

    open spec fn view(&self) -> BindErrorView {
        match self {
            BindError::TooManyPositional { expected, given } => BindErrorView::TooManyPositional {
                expected: *expected as nat,
                given: *given as nat,
            },
            BindError::MultipleValues { name } => BindErrorView::MultipleValues { name: name@ },
            BindError::UnexpectedKeyword { name } => BindErrorView::UnexpectedKeyword {
                name: name@,
            },
            BindError::PositionalOnlyAsKeyword { names } => BindErrorView::PositionalOnlyAsKeyword {
                names: names.deep_view(),
            },
            BindError::MissingPositional { names } => BindErrorView::MissingPositional {
                names: names.deep_view(),
            },
            BindError::MissingKwOnly { name } => BindErrorView::MissingKwOnly { name: name@ },
        }
    }
}

impl BindErrorView {
    /// The message of the error, for a function of the given qualified name.
    pub open spec fn message(self, qualname: Seq<char>) -> Seq<char> {
        match self {
            BindErrorView::TooManyPositional { expected, given } => qualname + "() takes "@
                + decimal(expected) + " positional arguments but "@ + decimal(given)
                + " were given"@,
            BindErrorView::MultipleValues { name } => qualname
                + "() got multiple values for argument '"@ + name + "'"@,
            BindErrorView::UnexpectedKeyword { name } => qualname
                + "() got an unexpected keyword argument '"@ + name + "'"@,
            BindErrorView::PositionalOnlyAsKeyword { names } => qualname
                + "() got some positional-only arguments passed as keyword arguments: "@
                + quoted_list(names),
            BindErrorView::MissingPositional { names } => qualname + "() missing "@ + decimal(
                names.len(),
            ) + " required positional argument"@ + (if names.len() == 1 {
                Seq::<char>::empty()
            } else {
                "s"@
            }) + ": "@ + quoted_list(names),
            BindErrorView::MissingKwOnly { name } => "Missing required kw only argument: '"@
                + name + "'"@,
        }
    }
}

impl BindError {
    /// The message of the error, for a function of the given qualified name.
    pub fn message(&self, qualname: &str) -> (m: String)
        ensures
            m@ == self@.message(qualname@),
    {
        match self {
            BindError::TooManyPositional { expected, given } => {
                let mut m = String::from_str(qualname);
                m.append("() takes ");
                push_decimal(&mut m, *expected);
                m.append(" positional arguments but ");
                push_decimal(&mut m, *given);
                m.append(" were given");
                m
            },
            BindError::MultipleValues { name } => {
                let mut m = String::from_str(qualname);
                m.append("() got multiple values for argument '");
                m.append(name.as_str());
                m.append("'");
                m
            },
            BindError::UnexpectedKeyword { name } => {
                let mut m = String::from_str(qualname);
                m.append("() got an unexpected keyword argument '");
                m.append(name.as_str());
                m.append("'");
                m
            },
            BindError::PositionalOnlyAsKeyword { names } => {
                let mut m = String::from_str(qualname);
                m.append("() got some positional-only arguments passed as keyword arguments: ");
                let list = quote_names(names);
                m.append(list.as_str());
                m
            },
            BindError::MissingPositional { names } => {
                let mut m = String::from_str(qualname);
                m.append("() missing ");
                push_decimal(&mut m, names.len());
                m.append(" required positional argument");
                let ghost before = m@;
                if names.len() != 1 {
                    m.append("s");
                }
                assert(m@ =~= before + (if names.len() == 1 {
                    Seq::<char>::empty()
                } else {
                    "s"@
                }));
                m.append(": ");
                let list = quote_names(names);
                m.append(list.as_str());
                assert(names.deep_view().len() == names.len());
                m
            },
            BindError::MissingKwOnly { name } => {
                let mut m = String::from_str("Missing required kw only argument: '");
                m.append(name.as_str());
                m.append("'");
                m
            },
        }
    }
}


/// An attribute was assigned a value of the wrong type, or was deleted where
/// it cannot be.
#[derive(Clone, Copy, Debug, PartialEq, Eq, Structural)]
pub enum SetterError {
    /// The qualified name can only be set to a string.
    QualnameNotString,
    /// The type parameters can only be set to a tuple.
    TypeParamsNotTuple,
}

impl SetterError {
    /// The message of the error.
    pub open spec fn message_spec(self) -> Seq<char> {
        match self {
            SetterError::QualnameNotString => "__qualname__ must be set to a string object"@,
            SetterError::TypeParamsNotTuple => "__type_params__ must be set to a tuple object"@,
        }
    }

    /// The message of the error.
    pub fn message(&self) -> (m: String)
        ensures
            m@ == self.message_spec(),
    {
        match self {
            SetterError::QualnameNotString => String::from_str(
                "__qualname__ must be set to a string object",
            ),
            SetterError::TypeParamsNotTuple => String::from_str(
                "__type_params__ must be set to a tuple object",
            ),
        }
    }
}

} // verus!
