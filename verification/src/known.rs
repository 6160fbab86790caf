//! The environment accessor capability the locator is built over.
//!
//! The locator never touches the process environment, the filesystem or the
//! version probe directly: it consumes them through the [`Environment`]
//! trait, whose spec functions model one immutable-for-the-call snapshot of
//! that outside state. [`StaticEnvironment`] is an in-memory snapshot that
//! implements the capability exactly; unverified code outside this crate
//! can fill one from the real process state and hand it in.

use vstd::prelude::*;

use crate::utils::clone_opt;
use crate::utils::opt_view;

verus! {

/// Read access to one snapshot of the outside state: the platform family,
/// the process environment variables, the user home directory, filesystem
/// existence, and the version probe. Each exec method reports exactly what
/// the corresponding spec function says of the snapshot, so repeated calls
/// agree with each other.
pub trait Environment {
    /// Whether this is the Windows platform family.
    spec fn windows_spec(&self) -> bool;

    /// The value of the named environment variable, if set.
    spec fn env_var_spec(&self, name: Seq<char>) -> Option<Seq<char>>;

    /// The user home directory, if available.
    spec fn user_home_spec(&self) -> Option<Seq<char>>;

    /// Whether a filesystem entry exists at `path`.
    spec fn exists_spec(&self, path: Seq<char>) -> bool;

    /// The version string the probe reports for the executable at `path`,
    /// if any.
    spec fn version_spec(&self, path: Seq<char>) -> Option<Seq<char>>;

    fn is_windows(&self) -> (r: bool)
        ensures
            r == self.windows_spec(),
    ;

    fn get_env_var(&self, name: &str) -> (r: Option<String>)
        ensures
            opt_view(r) == self.env_var_spec(name@),
    ;

    fn get_user_home(&self) -> (r: Option<String>)
        ensures
            opt_view(r) == self.user_home_spec(),
    ;

    fn path_exists(&self, path: &str) -> (r: bool)
        ensures
            r == self.exists_spec(path@),
    ;

    fn get_version(&self, path: &str) -> (r: Option<String>)
        ensures
            opt_view(r) == self.version_spec(path@),
    ;
}

/// The version entry for `path` among `files`, first match first: `None`
/// when no entry names `path`, otherwise that entry's optional version.
pub open spec fn lookup_file(
    files: Seq<(String, Option<String>)>,
    path: Seq<char>,
) -> Option<Option<Seq<char>>>
    decreases files.len(),
{
    if files.len() == 0 {
        None
    } else if files[0].0@ == path {
        Some(opt_view(files[0].1))
    } else {
        lookup_file(files.drop_first(), path)
    }
}

/// An in-memory snapshot of the outside state: the search-path variable,
/// the user home, the platform family, and the existing files with their
/// probed versions.
#[derive(Clone, Debug, PartialEq)]
pub struct StaticEnvironment {
    pub windows: bool,
    pub path_var: Option<String>,
    pub home: Option<String>,
    pub files: Vec<(String, Option<String>)>,
}

impl Environment for StaticEnvironment {
    open spec fn windows_spec(&self) -> bool {
        self.windows
    }

    open spec fn env_var_spec(&self, name: Seq<char>) -> Option<Seq<char>> {
        if name == "PATH"@ {
            opt_view(self.path_var)
        } else {
            None
        }
    }

    open spec fn user_home_spec(&self) -> Option<Seq<char>> {
        opt_view(self.home)
    }

    open spec fn exists_spec(&self, path: Seq<char>) -> bool {
        lookup_file(self.files@, path) is Some
    }

    open spec fn version_spec(&self, path: Seq<char>) -> Option<Seq<char>> {
        match lookup_file(self.files@, path) {
            Some(v) => v,
            None => None,
        }
    }

    fn is_windows(&self) -> (r: bool) {
        self.windows
    }

    fn get_env_var(&self, name: &str) -> (r: Option<String>) {
        let key = String::from_str(name);
        let path_name = String::from_str("PATH");
        if key == path_name {
            clone_opt(&self.path_var)
        } else {
            None
        }
    }

    fn get_user_home(&self) -> (r: Option<String>) {
        clone_opt(&self.home)
    }

    fn path_exists(&self, path: &str) -> (r: bool) {
        let n = self.files.len();
        let mut i: usize = 0;
        proof {
            assert(self.files@.subrange(0, n as int) =~= self.files@);
        }
        while i < n
            invariant
                i <= n,
                n == self.files@.len(),
                lookup_file(self.files@, path@) == lookup_file(
                    self.files@.subrange(i as int, n as int),
                    path@,
                ),
            decreases n - i,
        {
            proof {
                assert(self.files@.subrange(i as int, n as int).drop_first() =~= self.files@
                    .subrange(i + 1, n as int));
                assert(self.files@.subrange(i as int, n as int)[0] == self.files@[i as int]);
            }
            let key = String::from_str(path);
            if self.files[i].0 == key {
                return true;
            }
            i = i + 1;
        }
        proof {
            assert(self.files@.subrange(n as int, n as int) =~= Seq::<(
                String,
                Option<String>,
            )>::empty());
        }
        false
    }

    fn get_version(&self, path: &str) -> (r: Option<String>) {
        let n = self.files.len();
        let mut i: usize = 0;
        proof {
            assert(self.files@.subrange(0, n as int) =~= self.files@);
        }
        while i < n
            invariant
                i <= n,
                n == self.files@.len(),
                lookup_file(self.files@, path@) == lookup_file(
                    self.files@.subrange(i as int, n as int),
                    path@,
                ),
            decreases n - i,
        {
            proof {
                assert(self.files@.subrange(i as int, n as int).drop_first() =~= self.files@
                    .subrange(i + 1, n as int));
                assert(self.files@.subrange(i as int, n as int)[0] == self.files@[i as int]);
            }
            let key = String::from_str(path);
            if self.files[i].0 == key {
                return clone_opt(&self.files[i].1);
            }
            i = i + 1;
        }
        proof {
            assert(self.files@.subrange(n as int, n as int) =~= Seq::<(
                String,
                Option<String>,
            )>::empty());
        }
        None
    }
}

} // verus!
