//! The label value passed between the list fetch and the copy operation, and
//! the errors of the `label` command as a whole.

use crate::args::ArgError;
use crate::copy::CopyError;
use crate::list::ListError;
use vstd::prelude::*;

verus! {

/// A named, colored issue label on a repository, the color a 6-hex-digit
/// string as returned by the remote API.
#[derive(Debug)]
pub struct Label {
    pub name: String,
    pub color: String,
}

impl Label {
    /// A label with the given name and color.
    pub fn new(name: String, color: String) -> (r: Label)
        ensures
            r.name == name,
            r.color == color,
    {
        Label { name, color }
    }
}

impl Clone for Label {
    fn clone(&self) -> (r: Self)
        ensures
            r == *self,
    {
        Label { name: self.name.clone(), color: self.color.clone() }
    }
}

/// Errors of the `label` command: either no subcommand was given, or one of
/// the subcommands failed.
#[derive(Debug)]
pub enum Error {
    /// No subcommand was provided.
    NoSubcommand,
    /// A command-line argument was missing or invalid.
    ArgError(ArgError),
    /// The list operation failed.
    ListError(ListError),
    /// The copy operation failed.
    CopyError(CopyError),
}

impl Error {
    /// The name of the error's kind.
    pub fn description(&self) -> (r: &'static str)
        ensures
            *self is NoSubcommand ==> r@ == "NoSubcommand"@,
            *self is ArgError ==> r@ == "ArgError"@,
            *self is ListError ==> r@ == "ListError"@,
            *self is CopyError ==> r@ == "CopyError"@,
    {
        match *self {
            Error::NoSubcommand => "NoSubcommand",
            Error::ArgError(_) => "ArgError",
            Error::ListError(_) => "ListError",
            Error::CopyError(_) => "CopyError",
        }
    }
}

} // verus!
