//! The per-candidate probe record handed to `resolve`.

use vstd::prelude::*;

verus! {

/// The view of an optional string.
pub open spec fn opt_view(o: Option<String>) -> Option<Seq<char>> {
    match o {
        Some(s) => Some(s@),
        None => None,
    }
}

/// One probe input: a candidate executable path, its derived environment
/// root, and its probed version. Built fresh per candidate and immutable
/// after construction.
#[derive(Clone, Debug, PartialEq)]
pub struct PythonEnv {
    pub executable: String,
    pub path: Option<String>,
    pub version: Option<String>,
}

/// The mathematical value of a `PythonEnv`.
#[verifier::ext_equal]
pub struct PythonEnvView {
    pub executable: Seq<char>,
    pub path: Option<Seq<char>>,
    pub version: Option<Seq<char>>,
}

impl View for PythonEnv {
    type V = PythonEnvView;

    open spec fn view(&self) -> PythonEnvView {
        PythonEnvView {
            executable: self.executable@,
            path: opt_view(self.path),
            version: opt_view(self.version),
        }
    }
}

impl PythonEnv {
    /// A candidate record with the given fields.
    pub fn new(executable: String, path: Option<String>, version: Option<String>) -> (r: PythonEnv)
        ensures
            r@ == (PythonEnvView {
                executable: executable@,
                path: opt_view(path),
                version: opt_view(version),
            }),
    {
        PythonEnv { executable, path, version }
    }
}

/// A copy of an optional string.
pub fn clone_opt(o: &Option<String>) -> (r: Option<String>)
    ensures
        r == *o,
{
    match o {
        Some(s) => Some(s.clone()),
        None => None,
    }
}

} // verus!
