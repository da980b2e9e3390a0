//! The copy operation: fetch the source labels, optionally clear the
//! destination after confirmation, then create each source label at the
//! destination, isolating per-label failures.
//!
//! The network calls and the prompt are made outside this crate; the verified
//! part takes their outcomes as plain values and makes every decision: which
//! arguments are valid, whether confirmation is required, whether the
//! operation proceeds, which labels are created and in what order, and how
//! the per-label outcomes are summarized.

use crate::args::ArgError;
use crate::label::Label;
use crate::repo::Repo;
use crate::repo::is_repo_path;
use crate::repo::parses_to;
use vstd::prelude::*;

verus! {

/// Configuration for the `label copy` command.
pub struct Config {
    pub parent_config: crate::config::Config,
    /// The repository to copy labels from.
    pub from_repo: Repo,
    /// The repository to copy labels to.
    pub to_repo: Repo,
}

impl Config {
    /// Attempts to create a `Config` from the raw values of the `from` and
    /// `to` arguments, as handed over by the command-line frontend (`None`
    /// when the frontend had no value). A missing value is reported before an
    /// invalid one, and `from` is checked before `to`.
    pub fn from_matches(
        parent_config: crate::config::Config,
        from: Option<&str>,
        to: Option<&str>,
    ) -> (r: Result<Config, ArgError>)
        ensures
            match (from, to) {
                (None, _) => r matches Err(e) && e matches ArgError::NoValue { arg } && arg@
                    == "from"@,
                (Some(_), None) => r matches Err(e) && e matches ArgError::NoValue { arg }
                    && arg@ == "to"@,
                (Some(f), Some(t)) => {
                    if !is_repo_path(f@) {
                        r matches Err(e) && e matches ArgError::InvalidValue { arg, value }
                            && arg@ == "from"@ && value@ == f@
                    } else if !is_repo_path(t@) {
                        r matches Err(e) && e matches ArgError::InvalidValue { arg, value }
                            && arg@ == "to"@ && value@ == t@
                    } else {
                        &&& r matches Ok(c)
                        &&& parses_to(f@, c.from_repo.user@, c.from_repo.repo@)
                        &&& parses_to(t@, c.to_repo.user@, c.to_repo.repo@)
                        &&& c.parent_config == parent_config
                    }
                },
            },
    {
        let from_string = match from {
            Some(s) => s,
            None => {
                return Err(ArgError::NoValue { arg: String::from_str("from") });
            },
        };
        let to_string = match to {
            Some(s) => s,
            None => {
                return Err(ArgError::NoValue { arg: String::from_str("to") });
            },
        };
        let from_repo = match Repo::from_string(from_string) {
            Some(rep) => rep,
            None => {
                return Err(
                    ArgError::InvalidValue {
                        arg: String::from_str("from"),
                        value: from_string.to_owned(),
                    },
                );
            },
        };
        let to_repo = match Repo::from_string(to_string) {
            Some(rep) => rep,
            None => {
                return Err(
                    ArgError::InvalidValue {
                        arg: String::from_str("to"),
                        value: to_string.to_owned(),
                    },
                );
            },
        };
        Ok(Config { parent_config, from_repo, to_repo })
    }
}

/// Modifiers for the copy command.
#[derive(Clone, Copy, Debug, PartialEq, Eq, Structural)]
pub struct RuntimeOptions {
    /// Gate the whole operation on interactive confirmation before touching
    /// the destination. Beyond that gate the operation only creates labels:
    /// no existing destination label is deleted.
    pub clear: bool,
    /// Assume "yes" to prompts and run non-interactively.
    pub assume_yes: bool,
}

/// Clearing the destination is destructive, so it is gated on interactive
/// confirmation unless the assume-yes flag suppresses the prompt.
pub open spec fn confirmation_needed(opts: RuntimeOptions) -> bool {
    opts.clear && !opts.assume_yes
}

/// Whether the copy operation must ask for confirmation before proceeding.
pub fn confirmation_required(opts: &RuntimeOptions) -> (r: bool)
    ensures
        r == confirmation_needed(*opts),
{
    opts.clear && !opts.assume_yes
}

/// The labels the operation will create at the destination, in source order,
/// or `None` when the user declined the clearing confirmation. Declining
/// aborts the whole operation with nothing created; that is a normal exit,
/// not an error.
pub fn planned_creations(labels: Vec<Label>, opts: &RuntimeOptions, confirmed: bool) -> (r:
    Option<Vec<Label>>)
    ensures
        confirmation_needed(*opts) && !confirmed ==> r is None,
        !(confirmation_needed(*opts) && !confirmed) ==> (r matches Some(v) && v == labels),
{
    if confirmation_required(opts) && !confirmed {
        None
    } else {
        Some(labels)
    }
}

/// Errors that abort the copy operation at its initial fetch.
#[derive(Clone, Copy, Debug, PartialEq, Eq, Structural)]
pub enum CopyError {
    /// The I/O runtime for the network client could not be set up.
    IoError,
    /// The API client failed with a transport or HTTP error.
    HubcapsError,
}

impl CopyError {
    /// The name of the error's kind.
    pub fn description(&self) -> (r: &'static str)
        ensures
            *self is IoError ==> r@ == "IoError"@,
            *self is HubcapsError ==> r@ == "HubcapsError"@,
    {
        match *self {
            CopyError::IoError => "IoError",
            CopyError::HubcapsError => "HubcapsError",
        }
    }
}

/// The per-label outcomes of a copy. Creations are attempted in order, and a
/// failure for one label does not abort the rest.
#[derive(Debug)]
pub struct CopySummary {
    /// The labels created at the destination, in the order attempted.
    pub copied: Vec<Label>,
    /// The labels whose creation failed, in the order attempted.
    pub failed: Vec<Label>,
}

/// Of `labels`, those whose flag in `outcomes` equals `wanted`, in order.
pub open spec fn selected(labels: Seq<Label>, outcomes: Seq<bool>, wanted: bool) -> Seq<Label>
    decreases labels.len(),
{
    if labels.len() == 0 {
        Seq::empty()
    } else {
        let init = selected(labels.drop_last(), outcomes.drop_last(), wanted);
        if outcomes.len() > 0 && outcomes.last() == wanted {
            init.push(labels.last())
        } else {
            init
        }
    }
}

/// Collects the outcome of each attempted creation into a summary. The
/// operation as a whole completes once every label has been attempted,
/// whatever the individual outcomes: per-label failures are isolated and
/// never abort the run.
pub fn summarize(attempted: &Vec<Label>, succeeded: &Vec<bool>) -> (r: CopySummary)
    requires
        attempted@.len() == succeeded@.len(),
    ensures
        r.copied@ == selected(attempted@, succeeded@, true),
        r.failed@ == selected(attempted@, succeeded@, false),
{
    let mut copied: Vec<Label> = Vec::new();
    let mut failed: Vec<Label> = Vec::new();
    let mut i: usize = 0;
    while i < attempted.len()
        invariant
            attempted@.len() == succeeded@.len(),
            i <= attempted@.len(),
            copied@ == selected(attempted@.take(i as int), succeeded@.take(i as int), true),
            failed@ == selected(attempted@.take(i as int), succeeded@.take(i as int), false),
        decreases attempted@.len() - i,
    {
        let lab = attempted[i].clone();
        if succeeded[i] {
            copied.push(lab);
        } else {
            failed.push(lab);
        }
        proof {
            assert(attempted@.take(i as int + 1).drop_last() =~= attempted@.take(i as int));
            assert(succeeded@.take(i as int + 1).drop_last() =~= succeeded@.take(i as int));
            assert(attempted@.take(i as int + 1).last() == attempted@[i as int]);
            assert(succeeded@.take(i as int + 1).last() == succeeded@[i as int]);
        }
        i += 1;
    }
    proof {
        assert(attempted@.take(attempted@.len() as int) =~= attempted@);
        assert(succeeded@.take(succeeded@.len() as int) =~= succeeded@);
    }
    CopySummary { copied, failed }
}

} // verus!
