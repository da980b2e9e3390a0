//! Errors arising from command-line argument values.

use vstd::prelude::*;

verus! {

/// Errors that could arise in the process of parsing command-line arguments.
#[derive(Debug)]
pub enum ArgError {
    /// No subcommand was provided, and one is required.
    NoSubcommand,
    /// No value was provided for the argument with name `arg`.
    NoValue { arg: String },
    /// An invalid value `value` was provided for the argument with name `arg`.
    InvalidValue { arg: String, value: String },
}

/// The user-facing message for `e`, naming the offending argument and value.
pub open spec fn arg_error_message(e: ArgError) -> Seq<char> {
    match e {
        ArgError::NoSubcommand => "No subcommand was provided"@,
        ArgError::NoValue { arg } => "No value for argument "@ + arg@,
        ArgError::InvalidValue { arg, value } => "Invalid value "@ + value@
            + " provided for argument "@ + arg@,
    }
}

impl ArgError {
    /// The name of the error's kind.
    pub fn description(&self) -> (r: &'static str)
        ensures
            *self is NoSubcommand ==> r@ == "NoSubcommand"@,
            *self is NoValue ==> r@ == "NoValue"@,
            *self is InvalidValue ==> r@ == "InvalidValue"@,
    {
        match *self {
            ArgError::NoSubcommand => "NoSubcommand",
            ArgError::NoValue { .. } => "NoValue",
            ArgError::InvalidValue { .. } => "InvalidValue",
        }
    }

    /// The user-facing message for this error.
    pub fn message(&self) -> (r: String)
        ensures
            r@ == arg_error_message(*self),
    {
        match self {
            ArgError::NoSubcommand => String::from_str("No subcommand was provided"),
            ArgError::NoValue { arg } => String::from_str("No value for argument ").concat(
                arg.as_str(),
            ),
            ArgError::InvalidValue { arg, value } => String::from_str("Invalid value ").concat(
                value.as_str(),
            ).concat(" provided for argument ").concat(arg.as_str()),
        }
    }
}

} // verus!
