//! The normalized descriptor reported for each discovered installation.

use vstd::prelude::*;

use crate::paths::seq_view;
use crate::utils::opt_view;

verus! {

/// The family of discovery strategies a descriptor belongs to. The
/// search-path locator always reports `System`.
#[derive(Clone, Copy, Debug, PartialEq, Eq, Structural)]
pub enum PythonEnvironmentCategory {
    System,
}

/// The normalized record describing one discovered Python installation.
#[derive(Clone, Debug, PartialEq)]
pub struct PythonEnvironment {
    pub display_name: Option<String>,
    pub python_executable_path: Option<String>,
    pub version: Option<String>,
    pub category: PythonEnvironmentCategory,
    pub env_path: Option<String>,
    pub python_run_command: Option<Vec<String>>,
}

/// The mathematical value of a descriptor.
#[verifier::ext_equal]
pub struct PythonEnvironmentView {
    pub display_name: Option<Seq<char>>,
    pub python_executable_path: Option<Seq<char>>,
    pub version: Option<Seq<char>>,
    pub category: PythonEnvironmentCategory,
    pub env_path: Option<Seq<char>>,
    pub python_run_command: Option<Seq<Seq<char>>>,
}

/// The view of an optional run command.
pub open spec fn opt_cmd_view(o: Option<Vec<String>>) -> Option<Seq<Seq<char>>> {
    match o {
        Some(v) => Some(seq_view(v@)),
        None => None,
    }
}

impl View for PythonEnvironment {
    type V = PythonEnvironmentView;

    open spec fn view(&self) -> PythonEnvironmentView {
        PythonEnvironmentView {
            display_name: opt_view(self.display_name),
            python_executable_path: opt_view(self.python_executable_path),
            version: opt_view(self.version),
            category: self.category,
            env_path: opt_view(self.env_path),
            python_run_command: opt_cmd_view(self.python_run_command),
        }
    }
}

/// The view of an optional descriptor.
pub open spec fn opt_env_view(o: Option<PythonEnvironment>) -> Option<PythonEnvironmentView> {
    match o {
        Some(e) => Some(e@),
        None => None,
    }
}

/// The views of a sequence of descriptors.
pub open spec fn env_seq_view(v: Seq<PythonEnvironment>) -> Seq<PythonEnvironmentView> {
    v.map_values(|e: PythonEnvironment| e@)
}

} // verus!
