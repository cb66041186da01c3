//! What to execute in the guest.

use std::path::PathBuf;
use vstd::prelude::*;

verus! {

/// What to execute in the guest.
#[derive(Debug, Clone)]
pub enum Exec {
    /// Inline code string — passed to the guest's dispatch callback.
    Code(String),
    /// Script file — read to string and passed to the guest's dispatch callback.
    File(PathBuf),
}

impl Exec {
    /// What a command asks to execute: a script file when one is given,
    /// else inline code when given, else nothing.
    pub fn select(script: Option<PathBuf>, code: Option<String>) -> (r: Option<Exec>)
        ensures
            r == (match (script, code) {
                (Some(path), _) => Some(Exec::File(path)),
                (None, Some(c)) => Some(Exec::Code(c)),
                (None, None) => None,
            }),
    {
        match (script, code) {
            (Some(path), _) => Some(Exec::File(path)),
            (_, Some(c)) => Some(Exec::Code(c)),
            _ => None,
        }
    }
}

impl From<String> for Exec {
    fn from(code: String) -> (e: Exec) {
        Exec::Code(code)
    }
}

impl vstd::std_specs::convert::FromSpecImpl<String> for Exec {
    open spec fn obeys_from_spec() -> bool {
        true
    }

    open spec fn from_spec(code: String) -> Exec {
        Exec::Code(code)
    }
}

impl From<&str> for Exec {
    fn from(code: &str) -> (e: Exec)
        ensures
            e matches Exec::Code(s) && s@ == code@,
    {
        Exec::Code(String::from_str(code))
    }
}

impl vstd::std_specs::convert::FromSpecImpl<&str> for Exec {
    open spec fn obeys_from_spec() -> bool {
        false
    }

    open spec fn from_spec(code: &str) -> Exec {
        Exec::Code(arbitrary())
    }
}

} // verus!
