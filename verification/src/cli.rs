//! Decisions taken at startup from the command line: the verbosity level and
//! the answer to the interactive confirmation prompt.

use vstd::prelude::*;

verus! {

/// The log verbosity selected by repeating the verbosity flag.
#[derive(Clone, Copy, Debug, PartialEq, Eq, Structural)]
pub enum Verbosity {
    Warn,
    Info,
    Debug,
    Trace,
}

/// The verbosity that a count of flag occurrences selects; more than three
/// occurrences is a fatal configuration error.
pub open spec fn verbosity_spec(occurrences: u64) -> Option<Verbosity> {
    if occurrences == 0 {
        Some(Verbosity::Warn)
    } else if occurrences == 1 {
        Some(Verbosity::Info)
    } else if occurrences == 2 {
        Some(Verbosity::Debug)
    } else if occurrences == 3 {
        Some(Verbosity::Trace)
    } else {
        None
    }
}

/// Maps the number of verbosity-flag occurrences to a log level, or `None`
/// when the count exceeds the maximum of three.
pub fn verbosity_level(occurrences: u64) -> (r: Option<Verbosity>)
    ensures
        r == verbosity_spec(occurrences),
{
    match occurrences {
        0 => Some(Verbosity::Warn),
        1 => Some(Verbosity::Info),
        2 => Some(Verbosity::Debug),
        3 => Some(Verbosity::Trace),
        _ => None,
    }
}

/// How a line read from the terminal answers a yes/no prompt: `None` means
/// the answer was unrecognized and the prompt is repeated.
pub open spec fn confirm_answer_spec(line: Seq<char>) -> Option<bool> {
    if line == "y\n"@ || line == "Y\n"@ {
        Some(true)
    } else if line == "n\n"@ || line == "N\n"@ {
        Some(false)
    } else {
        None
    }
}

/// Interprets one line of a yes/no prompt response.
pub fn confirm_answer(line: &str) -> (r: Option<bool>)
    ensures
        r == confirm_answer_spec(line@),
{
    proof {
        reveal_strlit("y\n");
        reveal_strlit("Y\n");
        reveal_strlit("n\n");
        reveal_strlit("N\n");
    }
    let n = line.unicode_len();
    if n != 2 {
        return None;
    }
    let first = line.get_char(0);
    let second = line.get_char(1);
    if second != '\n' {
        return None;
    }
    if first == 'y' || first == 'Y' {
        proof {
            if first == 'y' {
                assert(line@ =~= "y\n"@);
            } else {
                assert(line@ =~= "Y\n"@);
            }
        }
        Some(true)
    } else if first == 'n' || first == 'N' {
        proof {
            if first == 'n' {
                assert(line@ =~= "n\n"@);
            } else {
                assert(line@ =~= "N\n"@);
            }
        }
        Some(false)
    } else {
        None
    }
}

} // verus!
