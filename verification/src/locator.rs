//! The aggregated outcome of one scan.

use vstd::prelude::*;

use crate::messaging::PythonEnvironment;
use crate::messaging::PythonEnvironmentView;
use crate::messaging::env_seq_view;

verus! {

/// A manager executable reported alongside discovered environments. The
/// search-path locator never reports one; its result always carries an
/// empty managers list.
#[derive(Clone, Debug, PartialEq)]
pub struct EnvManager {
    pub executable_path: String,
}

/// One scan's outcome: the discovered environments in search-path order,
/// and the managers seen along the way.
#[derive(Clone, Debug, PartialEq)]
pub struct LocatorResult {
    pub managers: Vec<EnvManager>,
    pub environments: Vec<PythonEnvironment>,
}

/// The mathematical value of a scan outcome.
#[verifier::ext_equal]
pub struct LocatorResultView {
    pub managers: Seq<Seq<char>>,
    pub environments: Seq<PythonEnvironmentView>,
}

impl View for LocatorResult {
    type V = LocatorResultView;

    open spec fn view(&self) -> LocatorResultView {
        LocatorResultView {
            managers: self.managers@.map_values(|m: EnvManager| m.executable_path@),
            environments: env_seq_view(self.environments@),
        }
    }
}

/// The view of an optional scan outcome.
pub open spec fn opt_result_view(o: Option<LocatorResult>) -> Option<LocatorResultView> {
    match o {
        Some(r) => Some(r@),
        None => None,
    }
}

} // verus!
