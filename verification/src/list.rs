//! The list operation: fetch the labels of one repository and print each
//! label's name, one per line, in the order the adapter returned them.
//!
//! The fetch itself is a network call made outside this crate; the verified
//! part validates the arguments and renders the output.

use crate::args::ArgError;
use crate::label::Label;
use crate::repo::Repo;
use crate::repo::is_repo_path;
use crate::repo::parses_to;
use vstd::prelude::*;

verus! {

/// Configuration for the `label list` command.
pub struct Config {
    pub parent_config: crate::config::Config,
    /// The repository to list the labels from.
    pub repo: Repo,
}

impl Config {
    /// Attempts to create a `Config` from the raw value of the `repo`
    /// argument, as handed over by the command-line frontend (`None` when the
    /// frontend had no value for it).
    pub fn from_matches(parent_config: crate::config::Config, repo: Option<&str>) -> (r: Result<
        Config,
        ArgError,
    >)
        ensures
            match repo {
                None => r matches Err(e) && e matches ArgError::NoValue { arg } && arg@
                    == "repo"@,
                Some(s) => {
                    if is_repo_path(s@) {
                        &&& r matches Ok(c)
                        &&& parses_to(s@, c.repo.user@, c.repo.repo@)
                        &&& c.parent_config == parent_config
                    } else {
                        r matches Err(e) && e matches ArgError::InvalidValue { arg, value }
                            && arg@ == "repo"@ && value@ == s@
                    }
                },
            },
    {
        match repo {
            None => Err(ArgError::NoValue { arg: String::from_str("repo") }),
            Some(s) => match Repo::from_string(s) {
                Some(rep) => Ok(Config { parent_config, repo: rep }),
                None => Err(
                    ArgError::InvalidValue {
                        arg: String::from_str("repo"),
                        value: s.to_owned(),
                    },
                ),
            },
        }
    }
}

/// Errors that abort the list operation.
#[derive(Clone, Copy, Debug, PartialEq, Eq, Structural)]
pub enum ListError {
    /// The I/O runtime for the network client could not be set up.
    IoError,
    /// The API client failed with a transport or HTTP error.
    HubcapsError,
}

impl ListError {
    /// The name of the error's kind.
    pub fn description(&self) -> (r: &'static str)
        ensures
            *self is IoError ==> r@ == "IoError"@,
            *self is HubcapsError ==> r@ == "HubcapsError"@,
    {
        match *self {
            ListError::IoError => "IoError",
            ListError::HubcapsError => "HubcapsError",
        }
    }
}

/// The text that the list operation prints for `labels`: each label's name
/// followed by a newline, in order.
pub open spec fn listed_names(labels: Seq<Label>) -> Seq<char>
    decreases labels.len(),
{
    if labels.len() == 0 {
        Seq::empty()
    } else {
        listed_names(labels.drop_last()) + labels.last().name@ + seq!['\n']
    }
}

/// Renders the output of the list operation: one name per line, in the order
/// the labels were returned.
pub fn render_label_names(labels: &Vec<Label>) -> (r: String)
    ensures
        r@ == listed_names(labels@),
{
    let mut out = String::new();
    let mut i: usize = 0;
    while i < labels.len()
        invariant
            i <= labels@.len(),
            out@ == listed_names(labels@.take(i as int)),
        decreases labels@.len() - i,
    {
        let lab = &labels[i];
        out.append(lab.name.as_str());
        out.append("\n");
        proof {
            reveal_strlit("\n");
            assert("\n"@ =~= seq!['\n']);
            assert(labels@.take(i as int + 1).drop_last() =~= labels@.take(i as int));
            assert(labels@.take(i as int + 1).last() == labels@[i as int]);
        }
        i += 1;
    }
    proof {
        assert(labels@.take(labels@.len() as int) =~= labels@);
    }
    out
}

} // verus!
