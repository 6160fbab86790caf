//! The search-path locator.
//!
//! `PythonOnPath` reads the search-path variable through the injected
//! environment accessor, joins each of its directory entries with the
//! platform's bare interpreter name, filters entries under the Windows
//! app-execution-alias folder, keeps the candidates that exist, and
//! resolves each surviving candidate into a descriptor. Absence — of the
//! variable, of the home directory, or of any match — is an absent result,
//! never a failure.

use vstd::prelude::*;

use crate::known::Environment;
use crate::locator::LocatorResult;
use crate::locator::LocatorResultView;
use crate::locator::opt_result_view;
use crate::messaging::PythonEnvironment;
use crate::messaging::PythonEnvironmentCategory;
use crate::messaging::PythonEnvironmentView;
use crate::messaging::env_seq_view;
use crate::messaging::opt_env_view;
use crate::paths::chars_match_insensitive;
use crate::paths::file_name;
use crate::paths::file_name_spec;
use crate::paths::is_sep;
use crate::paths::join_spec;
use crate::paths::lemma_file_name_of_join;
use crate::paths::matches_ignoring_ascii_case;
use crate::paths::parent;
use crate::paths::parent_spec;
use crate::paths::path_join;
use crate::paths::path_starts_with;
use crate::paths::seq_view;
use crate::paths::split_paths;
use crate::paths::split_paths_spec;
use crate::paths::starts_with_spec;
use crate::utils::PythonEnv;
use crate::utils::PythonEnvView;
use crate::utils::clone_opt;
use crate::utils::opt_view;

verus! {

/// The platform's bare interpreter file name: `python.exe` on the Windows
/// family, `python` otherwise.
pub open spec fn bin_name_spec(windows: bool) -> Seq<char> {
    if windows {
        "python.exe"@
    } else {
        "python"@
    }
}

/// The platform's bare interpreter file name, per `bin_name_spec`.
pub fn bin_name(windows: bool) -> (r: &'static str)
    ensures
        r@ == bin_name_spec(windows),
{
    if windows {
        "python.exe"
    } else {
        "python"
    }
}

/// The interpreter name is non-empty and free of path separators on its
/// own platform family.
pub proof fn lemma_bin_name_no_sep(windows: bool)
    ensures
        bin_name_spec(windows).len() > 0,
        forall|i: int|
            0 <= i < bin_name_spec(windows).len() ==> !is_sep(
                #[trigger] bin_name_spec(windows)[i],
                windows,
            ),
{
    reveal_strlit("python.exe");
    reveal_strlit("python");
    if windows {
        let s = "python.exe"@;
        assert forall|i: int| 0 <= i < s.len() implies !is_sep(s[i], true) by {
            if i == 0 {
                assert(s[0] == 'p');
            } else if i == 1 {
                assert(s[1] == 'y');
            } else if i == 2 {
                assert(s[2] == 't');
            } else if i == 3 {
                assert(s[3] == 'h');
            } else if i == 4 {
                assert(s[4] == 'o');
            } else if i == 5 {
                assert(s[5] == 'n');
            } else if i == 6 {
                assert(s[6] == '.');
            } else if i == 7 {
                assert(s[7] == 'e');
            } else if i == 8 {
                assert(s[8] == 'x');
            } else {
                assert(s[9] == 'e');
            }
        }
    } else {
        let s = "python"@;
        assert forall|i: int| 0 <= i < s.len() implies !is_sep(s[i], false) by {
            if i == 0 {
                assert(s[0] == 'p');
            } else if i == 1 {
                assert(s[1] == 'y');
            } else if i == 2 {
                assert(s[2] == 't');
            } else if i == 3 {
                assert(s[3] == 'h');
            } else if i == 4 {
                assert(s[4] == 'o');
            } else {
                assert(s[5] == 'n');
            }
        }
    }
}

/// The environment root that an executable path points at: the parent
/// directory, or the grandparent when the parent's own name is exactly
/// `Scripts` (the per-environment launcher folder of Windows-style virtual
/// environments). Absent only when the needed ancestor does not exist: when
/// the path has no parent, or when the parent is `Scripts` but has no
/// parent of its own.
pub open spec fn env_path_spec(executable: Seq<char>, windows: bool) -> Option<Seq<char>> {
    match parent_spec(executable, windows) {
        None => None,
        Some(par) => {
            if file_name_spec(par, windows) == Some("Scripts"@) {
                parent_spec(par, windows)
            } else {
                Some(par)
            }
        },
    }
}

/// The environment root of an executable path, per `env_path_spec`.
pub fn get_env_path(python_executable_path: &str, windows: bool) -> (r: Option<String>)
    ensures
        opt_view(r) == env_path_spec(python_executable_path@, windows),
{
    match parent(python_executable_path, windows) {
        None => None,
        Some(par) => {
            let parent_is_scripts = match file_name(par.as_str(), windows) {
                Some(n) => n == String::from_str("Scripts"),
                None => false,
            };
            if parent_is_scripts {
                parent(par.as_str(), windows)
            } else {
                Some(par)
            }
        },
    }
}

/// The app-execution-alias folder under the user home. Entries below it are
/// stub redirectors for store-distributed interpreters, discovered by a
/// dedicated locator elsewhere, so this locator excludes them.
pub open spec fn windows_apps_dir_spec(home: Seq<char>, windows: bool) -> Seq<char> {
    join_spec(
        join_spec(
            join_spec(join_spec(home, "AppData"@, windows), "Local"@, windows),
            "Microsoft"@,
            windows,
        ),
        "WindowsApps"@,
        windows,
    )
}

/// The app-execution-alias folder under `home`, per `windows_apps_dir_spec`.
pub fn windows_apps_dir(home: &str, windows: bool) -> (r: String)
    ensures
        r@ == windows_apps_dir_spec(home@, windows),
{
    let a = path_join(home, "AppData", windows);
    let b = path_join(a.as_str(), "Local", windows);
    let c = path_join(b.as_str(), "Microsoft", windows);
    path_join(c.as_str(), "WindowsApps", windows)
}

/// What `resolve` makes of a candidate: a `System` descriptor carrying the
/// candidate's path, version and root when the candidate's file name
/// matches the platform interpreter name case-insensitively, and nothing
/// otherwise.
pub open spec fn resolve_spec(windows: bool, env: PythonEnvView) -> Option<PythonEnvironmentView> {
    match file_name_spec(env.executable, windows) {
        None => None,
        Some(name) => {
            if chars_match_insensitive(name, bin_name_spec(windows)) {
                Some(
                    PythonEnvironmentView {
                        display_name: None,
                        python_executable_path: Some(env.executable),
                        version: env.version,
                        category: PythonEnvironmentCategory::System,
                        env_path: env.path,
                        python_run_command: Some(seq![env.executable]),
                    },
                )
            } else {
                None
            }
        },
    }
}

/// The probe record that the scan builds for the candidate path `cand`:
/// the path itself, its derived environment root, and the version the
/// accessor's probe reports for it.
pub open spec fn candidate_view<E: Environment>(acc: E, cand: Seq<char>, windows: bool) -> PythonEnvView {
    PythonEnvView {
        executable: cand,
        path: env_path_spec(cand, windows),
        version: acc.version_spec(cand),
    }
}

/// What one directory entry of the search path contributes to the scan:
/// nothing when the entry lies under the exclusion root `excl` or its
/// candidate does not exist, and otherwise whatever `resolve_spec` makes
/// of the candidate.
pub open spec fn entry_contribution<E: Environment>(
    acc: E,
    entry: Seq<char>,
    excl: Seq<char>,
    windows: bool,
) -> Seq<PythonEnvironmentView> {
    if starts_with_spec(entry, excl, windows) {
        Seq::<PythonEnvironmentView>::empty()
    } else {
        let cand = join_spec(entry, bin_name_spec(windows), windows);
        if !acc.exists_spec(cand) {
            Seq::<PythonEnvironmentView>::empty()
        } else {
            match resolve_spec(windows, candidate_view(acc, cand, windows)) {
                Some(d) => seq![d],
                None => Seq::<PythonEnvironmentView>::empty(),
            }
        }
    }
}

/// The descriptors that the directory entries contribute, in entry order.
pub open spec fn collected<E: Environment>(
    acc: E,
    entries: Seq<Seq<char>>,
    excl: Seq<char>,
    windows: bool,
) -> Seq<PythonEnvironmentView>
    decreases entries.len(),
{
    if entries.len() == 0 {
        Seq::<PythonEnvironmentView>::empty()
    } else {
        collected(acc, entries.drop_last(), excl, windows) + entry_contribution(
            acc,
            entries.last(),
            excl,
            windows,
        )
    }
}

/// What `find` reports over the accessor snapshot `acc`: absent when the
/// search-path variable or the user home is unavailable and when no entry
/// contributes a descriptor; otherwise the contributed descriptors in
/// search-path order, with an empty managers list.
pub open spec fn find_spec<E: Environment>(acc: E) -> Option<LocatorResultView> {
    match acc.env_var_spec("PATH"@) {
        None => None,
        Some(paths) => match acc.user_home_spec() {
            None => None,
            Some(home) => {
                let windows = acc.windows_spec();
                let envs = collected(
                    acc,
                    split_paths_spec(paths, windows),
                    windows_apps_dir_spec(home, windows),
                    windows,
                );
                if envs.len() == 0 {
                    None
                } else {
                    Some(LocatorResultView { managers: Seq::<Seq<char>>::empty(), environments: envs })
                }
            },
        },
    }
}

/// The search-path locator: discovers bare `python`/`python.exe`
/// executables reachable through the search-path variable of the injected
/// environment accessor.
pub struct PythonOnPath<'a, E: Environment> {
    pub environment: &'a E,
}

impl<'a, E: Environment> PythonOnPath<'a, E> {
    /// A locator over the given accessor.
    pub fn with(environment: &'a E) -> (r: PythonOnPath<'a, E>)
        ensures
            r.environment == environment,
    {
        PythonOnPath { environment }
    }

    /// Resolves one candidate, per `resolve_spec`: a descriptor exactly
    /// when the candidate's file name matches the platform interpreter
    /// name case-insensitively.
    pub fn resolve(&self, env: &PythonEnv) -> (r: Option<PythonEnvironment>)
        requires
            file_name_spec(env.executable@, self.environment.windows_spec()) is Some,
        ensures
            opt_env_view(r) == resolve_spec(self.environment.windows_spec(), env@),
    {
        let windows = self.environment.is_windows();
        let bin = bin_name(windows);
        let name = match file_name(env.executable.as_str(), windows) {
            Some(n) => n,
            None => {
                proof {
                    assert(false);
                }
                return None;
            },
        };
        if matches_ignoring_ascii_case(name.as_str(), bin) {
            let mut cmd: Vec<String> = Vec::new();
            cmd.push(env.executable.clone());
            let r = PythonEnvironment {
                display_name: None,
                python_executable_path: Some(env.executable.clone()),
                version: clone_opt(&env.version),
                category: PythonEnvironmentCategory::System,
                env_path: clone_opt(&env.path),
                python_run_command: Some(cmd),
            };
            proof {
                assert(seq_view(r.python_run_command->Some_0@) =~= seq![env.executable@]);
                assert(r@ =~= resolve_spec(self.environment.windows_spec(), env@)->Some_0);
            }
            Some(r)
        } else {
            None
        }
    }

    /// Scans the search path, per `find_spec`: absent when the search-path
    /// variable or the user home is unavailable and when nothing matches;
    /// otherwise every resolved candidate, in search-path order, with an
    /// empty managers list. The locator itself is left unchanged.
    pub fn find(&mut self) -> (r: Option<LocatorResult>)
        ensures
            *final(self) == *old(self),
            opt_result_view(r) == find_spec(*old(self).environment),
    {
        let environment = self.environment;
        let ghost acc: E = *environment;
        let paths = match environment.get_env_var("PATH") {
            Some(p) => p,
            None => {
                return None;
            },
        };
        let windows = environment.is_windows();
        let bin = bin_name(windows);
        let home = match environment.get_user_home() {
            Some(h) => h,
            None => {
                return None;
            },
        };
        let apps_path = windows_apps_dir(home.as_str(), windows);
        let entries = split_paths(paths.as_str(), windows);
        let ghost entry_views = seq_view(entries@);
        let ghost excl = apps_path@;
        let mut environments: Vec<PythonEnvironment> = Vec::new();
        proof {
            assert(env_seq_view(environments@) =~= Seq::<PythonEnvironmentView>::empty());
            assert(entry_views.subrange(0, 0) =~= Seq::<Seq<char>>::empty());
        }
        let mut idx: usize = 0;
        while idx < entries.len()
            invariant
                idx <= entries@.len(),
                acc == *self.environment,
                acc == *environment,
                windows == acc.windows_spec(),
                bin@ == bin_name_spec(windows),
                excl == windows_apps_dir_spec(home@, windows),
                apps_path@ == excl,
                entry_views == seq_view(entries@),
                env_seq_view(environments@) == collected(
                    acc,
                    entry_views.subrange(0, idx as int),
                    excl,
                    windows,
                ),
            decreases entries@.len() - idx,
        {
            proof {
                assert(entry_views.subrange(0, idx + 1).drop_last() =~= entry_views.subrange(
                    0,
                    idx as int,
                ));
                assert(entry_views.subrange(0, idx + 1).last() == entries@[idx as int]@);
            }
            let ghost entry_view = entries@[idx as int]@;
            let excluded = path_starts_with(entries[idx].as_str(), apps_path.as_str(), windows);
            if !excluded {
                let full_path = path_join(entries[idx].as_str(), bin, windows);
                let ghost cand = full_path@;
                if environment.path_exists(full_path.as_str()) {
                    let version = environment.get_version(full_path.as_str());
                    let env_path = get_env_path(full_path.as_str(), windows);
                    let candidate = PythonEnv::new(full_path, env_path, version);
                    proof {
                        lemma_bin_name_no_sep(windows);
                        lemma_file_name_of_join(entry_view, bin_name_spec(windows), windows);
                        assert(candidate@ =~= candidate_view(acc, cand, windows));
                    }
                    let ghost prev = environments@;
                    if let Some(env) = self.resolve(&candidate) {
                        environments.push(env);
                        proof {
                            assert(env_seq_view(prev.push(environments@[prev.len() as int]))
                                =~= env_seq_view(prev).push(
                                environments@[prev.len() as int]@,
                            ));
                            assert(env_seq_view(environments@) =~= collected(
                                acc,
                                entry_views.subrange(0, idx + 1),
                                excl,
                                windows,
                            ));
                        }
                    } else {
                        proof {
                            assert(env_seq_view(environments@) =~= collected(
                                acc,
                                entry_views.subrange(0, idx + 1),
                                excl,
                                windows,
                            ));
                        }
                    }
                } else {
                    proof {
                        assert(env_seq_view(environments@) =~= collected(
                            acc,
                            entry_views.subrange(0, idx + 1),
                            excl,
                            windows,
                        ));
                    }
                }
            } else {
                proof {
                    assert(env_seq_view(environments@) =~= collected(
                        acc,
                        entry_views.subrange(0, idx + 1),
                        excl,
                        windows,
                    ));
                }
            }
            idx = idx + 1;
        }
        proof {
            assert(entry_views.subrange(0, entries@.len() as int) =~= entry_views);
        }
        if environments.len() == 0 {
            None
        } else {
            let result = LocatorResult { managers: Vec::new(), environments };
            proof {
                assert(result@.managers =~= Seq::<Seq<char>>::empty());
            }
            Some(result)
        }
    }
}

/// When the search-path variable itself is unset the scan reports nothing,
/// whatever the filesystem holds.
pub proof fn lemma_find_absent_without_search_path<E: Environment>(acc: E)
    requires
        acc.env_var_spec("PATH"@) is None,
    ensures
        find_spec(acc) is None,
{
}

/// When the user home directory is unavailable the scan reports nothing,
/// whatever the filesystem holds.
pub proof fn lemma_find_absent_without_home<E: Environment>(acc: E)
    requires
        acc.user_home_spec() is None,
    ensures
        find_spec(acc) is None,
{
}

/// No directory entry among `entries` holds an existing bin-named
/// candidate, so the entries contribute nothing.
proof fn lemma_collected_no_existing<E: Environment>(
    acc: E,
    entries: Seq<Seq<char>>,
    excl: Seq<char>,
    windows: bool,
)
    requires
        forall|i: int|
            0 <= i < entries.len() ==> !acc.exists_spec(
                join_spec(#[trigger] entries[i], bin_name_spec(windows), windows),
            ),
    ensures
        collected(acc, entries, excl, windows).len() == 0,
    decreases entries.len(),
{
    if entries.len() > 0 {
        assert forall|i: int| 0 <= i < entries.drop_last().len() implies !acc.exists_spec(
            join_spec(#[trigger] entries.drop_last()[i], bin_name_spec(windows), windows),
        ) by {
            assert(entries.drop_last()[i] == entries[i]);
        }
        lemma_collected_no_existing(acc, entries.drop_last(), excl, windows);
        assert(entries.last() == entries[entries.len() - 1]);
    }
}

/// A scan over a search path none of whose directory entries holds an
/// existing bin-named candidate reports nothing.
pub proof fn lemma_find_absent_without_candidates<E: Environment>(acc: E)
    requires
        match acc.env_var_spec("PATH"@) {
            Some(paths) => forall|i: int|
                0 <= i < split_paths_spec(paths, acc.windows_spec()).len() ==> !acc.exists_spec(
                    join_spec(
                        #[trigger] split_paths_spec(paths, acc.windows_spec())[i],
                        bin_name_spec(acc.windows_spec()),
                        acc.windows_spec(),
                    ),
                ),
            None => true,
        },
    ensures
        find_spec(acc) is None,
{
    match acc.env_var_spec("PATH"@) {
        None => {},
        Some(paths) => match acc.user_home_spec() {
            None => {},
            Some(home) => {
                lemma_collected_no_existing(
                    acc,
                    split_paths_spec(paths, acc.windows_spec()),
                    windows_apps_dir_spec(home, acc.windows_spec()),
                    acc.windows_spec(),
                );
            },
        },
    }
}

/// `resolve` accepts exactly the candidates whose file name matches the
/// platform interpreter name, case-insensitively; every other file name
/// yields nothing.
pub proof fn lemma_resolve_matches_iff(windows: bool, env: PythonEnvView, name: Seq<char>)
    requires
        file_name_spec(env.executable, windows) == Some(name),
    ensures
        resolve_spec(windows, env) is Some <==> chars_match_insensitive(
            name,
            bin_name_spec(windows),
        ),
{
}

/// An entry under the exclusion root contributes nothing to the scan, even
/// when its candidate executable exists.
pub proof fn lemma_excluded_entry_contributes_nothing<E: Environment>(
    acc: E,
    entry: Seq<char>,
    excl: Seq<char>,
    windows: bool,
)
    requires
        starts_with_spec(entry, excl, windows),
    ensures
        entry_contribution(acc, entry, excl, windows) == Seq::<PythonEnvironmentView>::empty(),
{
}

/// `d` is what entry `i` of the search path puts into the scan's output:
/// the entry lies outside the exclusion root, its bin-named candidate
/// exists, and `d` is what `resolve_spec` makes of that candidate.
pub open spec fn descriptor_stems_from<E: Environment>(
    acc: E,
    entries: Seq<Seq<char>>,
    excl: Seq<char>,
    windows: bool,
    i: int,
    d: PythonEnvironmentView,
) -> bool {
    &&& 0 <= i < entries.len()
    &&& !starts_with_spec(entries[i], excl, windows)
    &&& acc.exists_spec(join_spec(entries[i], bin_name_spec(windows), windows))
    &&& Some(d) == resolve_spec(
        windows,
        candidate_view(acc, join_spec(entries[i], bin_name_spec(windows), windows), windows),
    )
}

/// Soundness of the entry scan: every collected descriptor stems from some
/// entry, per `descriptor_stems_from`.
proof fn lemma_collected_sound<E: Environment>(
    acc: E,
    entries: Seq<Seq<char>>,
    excl: Seq<char>,
    windows: bool,
    k: int,
)
    requires
        0 <= k < collected(acc, entries, excl, windows).len(),
    ensures
        exists|i: int|
            #[trigger] descriptor_stems_from(
                acc,
                entries,
                excl,
                windows,
                i,
                collected(acc, entries, excl, windows)[k],
            ),
    decreases entries.len(),
{
    if entries.len() > 0 {
        let c = collected(acc, entries, excl, windows);
        let pre = collected(acc, entries.drop_last(), excl, windows);
        let tail = entry_contribution(acc, entries.last(), excl, windows);
        if k < pre.len() {
            lemma_collected_sound(acc, entries.drop_last(), excl, windows, k);
            let i = choose|i: int|
                #[trigger] descriptor_stems_from(
                    acc,
                    entries.drop_last(),
                    excl,
                    windows,
                    i,
                    pre[k],
                );
            assert(entries.drop_last()[i] == entries[i]);
            assert(c[k] == pre[k]);
            assert(descriptor_stems_from(acc, entries, excl, windows, i, c[k]));
        } else {
            let i = entries.len() - 1;
            assert(entries.last() == entries[i]);
            assert(c[k] == tail[k - pre.len()]);
            assert(descriptor_stems_from(acc, entries, excl, windows, i, c[k]));
        }
    }
}

/// Soundness of the whole scan, and with it the exclusion guarantee: every
/// descriptor that `find` reports stems from a directory entry of the
/// search path that lies outside the app-execution-alias folder and whose
/// bin-named candidate existed at scan time; no descriptor is synthesized
/// from anywhere else.
pub proof fn lemma_find_sound<E: Environment>(acc: E, res: LocatorResultView, k: int)
    requires
        find_spec(acc) == Some(res),
        0 <= k < res.environments.len(),
    ensures
        exists|i: int|
            #[trigger] descriptor_stems_from(
                acc,
                split_paths_spec(acc.env_var_spec("PATH"@)->Some_0, acc.windows_spec()),
                windows_apps_dir_spec(acc.user_home_spec()->Some_0, acc.windows_spec()),
                acc.windows_spec(),
                i,
                res.environments[k],
            ),
{
    let entries = split_paths_spec(acc.env_var_spec("PATH"@)->Some_0, acc.windows_spec());
    let excl = windows_apps_dir_spec(acc.user_home_spec()->Some_0, acc.windows_spec());
    lemma_collected_sound(acc, entries, excl, acc.windows_spec(), k);
}

/// Order preservation: the scan of two entry lists laid end to end is the
/// scan of the first followed by the scan of the second.
pub proof fn lemma_collected_append<E: Environment>(
    acc: E,
    a: Seq<Seq<char>>,
    b: Seq<Seq<char>>,
    excl: Seq<char>,
    windows: bool,
)
    ensures
        collected(acc, a + b, excl, windows) == collected(acc, a, excl, windows) + collected(
            acc,
            b,
            excl,
            windows,
        ),
    decreases b.len(),
{
    if b.len() == 0 {
        assert(a + b =~= a);
        assert(collected(acc, a, excl, windows) + collected(acc, b, excl, windows) =~= collected(
            acc,
            a,
            excl,
            windows,
        ));
    } else {
        lemma_collected_append(acc, a, b.drop_last(), excl, windows);
        assert((a + b).drop_last() =~= a + b.drop_last());
        assert((a + b).last() == b.last());
        assert(collected(acc, a, excl, windows) + (collected(acc, b.drop_last(), excl, windows)
            + entry_contribution(acc, b.last(), excl, windows)) =~= (collected(acc, a, excl, windows)
            + collected(acc, b.drop_last(), excl, windows)) + entry_contribution(
            acc,
            b.last(),
            excl,
            windows,
        ));
    }
}

/// The scan's output is at least as long as any one entry's contribution.
proof fn lemma_collected_len_at_least<E: Environment>(
    acc: E,
    entries: Seq<Seq<char>>,
    excl: Seq<char>,
    windows: bool,
    i: int,
)
    requires
        0 <= i < entries.len(),
    ensures
        collected(acc, entries, excl, windows).len() >= entry_contribution(
            acc,
            entries[i],
            excl,
            windows,
        ).len(),
    decreases entries.len(),
{
    if i == entries.len() - 1 {
        assert(entries.last() == entries[i]);
    } else {
        lemma_collected_len_at_least(acc, entries.drop_last(), excl, windows, i);
        assert(entries.drop_last()[i] == entries[i]);
    }
}

/// Success is owed: when the search-path variable and the home directory
/// are available and some directory entry contributes a descriptor — it
/// lies outside the exclusion root, its bin-named candidate exists and
/// resolves — the scan reports a result.
pub proof fn lemma_find_some_with_candidate<E: Environment>(acc: E, i: int)
    requires
        acc.env_var_spec("PATH"@) is Some,
        acc.user_home_spec() is Some,
        0 <= i < split_paths_spec(acc.env_var_spec("PATH"@)->Some_0, acc.windows_spec()).len(),
        entry_contribution(
            acc,
            split_paths_spec(acc.env_var_spec("PATH"@)->Some_0, acc.windows_spec())[i],
            windows_apps_dir_spec(acc.user_home_spec()->Some_0, acc.windows_spec()),
            acc.windows_spec(),
        ).len() > 0,
    ensures
        find_spec(acc) is Some,
{
    lemma_collected_len_at_least(
        acc,
        split_paths_spec(acc.env_var_spec("PATH"@)->Some_0, acc.windows_spec()),
        windows_apps_dir_spec(acc.user_home_spec()->Some_0, acc.windows_spec()),
        acc.windows_spec(),
        i,
    );
}

/// A reported result is never empty: it holds at least one descriptor and
/// no managers.
pub proof fn lemma_find_result_nonempty<E: Environment>(acc: E, res: LocatorResultView)
    requires
        find_spec(acc) == Some(res),
    ensures
        res.environments.len() > 0,
        res.managers.len() == 0,
{
}

/// Idempotence: two scans over one unchanged accessor snapshot agree in
/// content and order.
pub proof fn lemma_find_deterministic<E: Environment>(
    acc: E,
    r1: Option<LocatorResultView>,
    r2: Option<LocatorResultView>,
)
    requires
        r1 == find_spec(acc),
        r2 == find_spec(acc),
    ensures
        r1 == r2,
{
}

} // verus!
