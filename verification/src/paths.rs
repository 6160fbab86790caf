//! A character-level model of filesystem paths and of search-path strings.
//!
//! A path is a `String`; its mathematical value is its `Seq<char>` view.
//! Component separators are `/` on the Unix family and both `\` and `/` on
//! the Windows family. The model keeps the conventions the locator needs:
//! a file name is the non-empty suffix after the last separator, a parent is
//! the prefix before it, joining appends one separator, and a search-path
//! string splits on `:` (Unix) or on `;` outside double quotes (Windows,
//! where empty entries are skipped and the quotes are stripped).

use vstd::prelude::*;

verus! {

/// The separator character that `path_join` inserts on the given platform
/// family.
pub open spec fn sep_char(windows: bool) -> char {
    if windows {
        '\\'
    } else {
        '/'
    }
}

/// Whether `c` separates path components on the given platform family.
pub open spec fn is_sep(c: char, windows: bool) -> bool {
    c == '/' || (windows && c == '\\')
}

/// Whether `c` separates entries of the search-path variable on the given
/// platform family.
pub open spec fn list_sep(windows: bool) -> char {
    if windows {
        ';'
    } else {
        ':'
    }
}

/// Index of the last component separator in `s`, or `-1` if `s` has none.
pub open spec fn last_sep_index(s: Seq<char>, windows: bool) -> int
    decreases s.len(),
{
    if s.len() == 0 {
        -1
    } else if is_sep(s.last(), windows) {
        s.len() - 1
    } else {
        last_sep_index(s.drop_last(), windows)
    }
}

/// `last_sep_index` names the position of the last separator: it is in
/// bounds, it holds a separator, and nothing after it does.
pub proof fn lemma_last_sep_index(s: Seq<char>, windows: bool)
    ensures
        -1 <= last_sep_index(s, windows) < s.len(),
        last_sep_index(s, windows) >= 0 ==> is_sep(s[last_sep_index(s, windows)], windows),
        forall|j: int| last_sep_index(s, windows) < j < s.len() ==> !is_sep(s[j], windows),
    decreases s.len(),
{
    if s.len() == 0 {
    } else if is_sep(s.last(), windows) {
    } else {
        lemma_last_sep_index(s.drop_last(), windows);
        assert forall|j: int| last_sep_index(s, windows) < j < s.len() implies !is_sep(
            s[j],
            windows,
        ) by {
            if j < s.len() - 1 {
                assert(s.drop_last()[j] == s[j]);
            }
        }
    }
}

/// The file-name component of a path: the suffix after the last separator,
/// absent when that suffix is empty (an empty path, or one that ends in a
/// separator).
pub open spec fn file_name_spec(s: Seq<char>, windows: bool) -> Option<Seq<char>> {
    let i = last_sep_index(s, windows);
    if i == s.len() - 1 {
        None
    } else {
        Some(s.subrange(i + 1, s.len() as int))
    }
}

/// The parent directory of a path: the prefix before the last separator,
/// absent when the path has no separator or is a bare root.
pub open spec fn parent_spec(s: Seq<char>, windows: bool) -> Option<Seq<char>> {
    let i = last_sep_index(s, windows);
    if i < 0 {
        None
    } else if i == 0 {
        if s.len() == 1 {
            None
        } else {
            Some(s.subrange(0, 1))
        }
    } else {
        Some(s.subrange(0, i))
    }
}

/// `dir` joined with the relative name `name`: one platform separator is
/// inserted unless `dir` is empty or already ends in a separator.
pub open spec fn join_spec(dir: Seq<char>, name: Seq<char>, windows: bool) -> Seq<char> {
    if dir.len() == 0 {
        name
    } else if is_sep(dir.last(), windows) {
        dir + name
    } else {
        dir + seq![sep_char(windows)] + name
    }
}

/// Whether `prefix` is an ancestor-or-equal of `p`: `p` begins with the
/// characters of `prefix`, and the match ends at a component boundary.
pub open spec fn starts_with_spec(p: Seq<char>, prefix: Seq<char>, windows: bool) -> bool {
    &&& prefix.len() <= p.len()
    &&& p.subrange(0, prefix.len() as int) == prefix
    &&& (p.len() == prefix.len() || is_sep(p[prefix.len() as int], windows) || (prefix.len() > 0
        && is_sep(prefix.last(), windows)))
}

fn is_sep_char(c: char, windows: bool) -> (r: bool)
    ensures
        r == is_sep(c, windows),
{
    c == '/' || (windows && c == '\\')
}

/// Position of the last component separator of `s`, if any.
pub fn find_last_sep(s: &str, windows: bool) -> (r: Option<usize>)
    ensures
        match r {
            Some(i) => last_sep_index(s@, windows) == i as int,
            None => last_sep_index(s@, windows) == -1,
        },
{
    let n = s.unicode_len();
    let mut i = n;
    proof {
        assert(s@.subrange(0, n as int) =~= s@);
    }
    while i > 0
        invariant
            i <= n,
            n == s@.len(),
            last_sep_index(s@, windows) == last_sep_index(s@.subrange(0, i as int), windows),
        decreases i,
    {
        let c = s.get_char(i - 1);
        proof {
            assert(s@.subrange(0, i as int).drop_last() =~= s@.subrange(0, i - 1));
            assert(s@.subrange(0, i as int).last() == s@[i - 1]);
        }
        if is_sep_char(c, windows) {
            return Some(i - 1);
        }
        i = i - 1;
    }
    proof {
        assert(s@.subrange(0, 0) =~= Seq::<char>::empty());
    }
    None
}

/// The file-name component of `path`, per `file_name_spec`.
pub fn file_name(path: &str, windows: bool) -> (r: Option<String>)
    ensures
        match r {
            Some(n) => file_name_spec(path@, windows) == Some(n@),
            None => file_name_spec(path@, windows) is None,
        },
{
    let n = s_len(path);
    proof {
        lemma_last_sep_index(path@, windows);
    }
    let start: usize = match find_last_sep(path, windows) {
        Some(i) => i + 1,
        None => 0,
    };
    if start == n {
        None
    } else {
        Some(path.substring_char(start, n).to_owned())
    }
}

/// The parent directory of `path`, per `parent_spec`.
pub fn parent(path: &str, windows: bool) -> (r: Option<String>)
    ensures
        match r {
            Some(p) => parent_spec(path@, windows) == Some(p@),
            None => parent_spec(path@, windows) is None,
        },
{
    proof {
        lemma_last_sep_index(path@, windows);
    }
    match find_last_sep(path, windows) {
        None => None,
        Some(i) => {
            if i == 0 {
                if s_len(path) == 1 {
                    None
                } else {
                    Some(path.substring_char(0, 1).to_owned())
                }
            } else {
                Some(path.substring_char(0, i).to_owned())
            }
        },
    }
}

/// Character length of `s`.
fn s_len(s: &str) -> (n: usize)
    ensures
        n == s@.len(),
{
    s.unicode_len()
}

/// `dir` joined with `name`, per `join_spec`.
pub fn path_join(dir: &str, name: &str, windows: bool) -> (r: String)
    ensures
        r@ == join_spec(dir@, name@, windows),
{
    let n = s_len(dir);
    if n == 0 {
        name.to_owned()
    } else {
        let last = dir.get_char(n - 1);
        let owned = dir.to_owned();
        if is_sep_char(last, windows) {
            owned.concat(name)
        } else if windows {
            proof {
                reveal_strlit("\\");
                assert("\\"@ =~= seq![sep_char(true)]);
            }
            owned.concat("\\").concat(name)
        } else {
            proof {
                reveal_strlit("/");
                assert("/"@ =~= seq![sep_char(false)]);
            }
            owned.concat("/").concat(name)
        }
    }
}

/// Whether `prefix` is an ancestor-or-equal of `p`, per `starts_with_spec`.
pub fn path_starts_with(p: &str, prefix: &str, windows: bool) -> (r: bool)
    ensures
        r == starts_with_spec(p@, prefix@, windows),
{
    let np = s_len(p);
    let k = s_len(prefix);
    if k > np {
        return false;
    }
    let mut i: usize = 0;
    while i < k
        invariant
            i <= k,
            k <= np,
            np == p@.len(),
            k == prefix@.len(),
            forall|j: int| 0 <= j < i ==> p@[j] == prefix@[j],
        decreases k - i,
    {
        if p.get_char(i) != prefix.get_char(i) {
            proof {
                assert(p@.subrange(0, k as int)[i as int] == p@[i as int]);
            }
            return false;
        }
        i = i + 1;
    }
    proof {
        assert(p@.subrange(0, k as int) =~= prefix@);
    }
    if np == k {
        return true;
    }
    if is_sep_char(p.get_char(k), windows) {
        return true;
    }
    if k > 0 && is_sep_char(prefix.get_char(k - 1), windows) {
        return true;
    }
    false
}

/// The ASCII-lowercase image of a character code: `A`..`Z` shift down by 32,
/// every other code is kept.
pub open spec fn lower_u32(u: u32) -> u32 {
    if 65 <= u <= 90 {
        (u + 32) as u32
    } else {
        u
    }
}

/// `a` equals `b` once each character of `a` is ASCII-lowercased.
pub open spec fn chars_match_insensitive(a: Seq<char>, b: Seq<char>) -> bool {
    a.len() == b.len() && (forall|i: int|
        0 <= i < a.len() ==> lower_u32(#[trigger] a[i] as u32) == b[i] as u32)
}

/// Whether `a` matches `b` after ASCII-lowercasing `a`, per
/// `chars_match_insensitive`.
pub fn matches_ignoring_ascii_case(a: &str, b: &str) -> (r: bool)
    ensures
        r == chars_match_insensitive(a@, b@),
{
    let na = s_len(a);
    let nb = s_len(b);
    if na != nb {
        return false;
    }
    let mut i: usize = 0;
    while i < na
        invariant
            i <= na,
            na == a@.len(),
            na == b@.len(),
            forall|j: int| 0 <= j < i ==> lower_u32(#[trigger] a@[j] as u32) == b@[j] as u32,
        decreases na - i,
    {
        let ca = a.get_char(i) as u32;
        let la = if 65 <= ca && ca <= 90 {
            ca + 32
        } else {
            ca
        };
        if la != b.get_char(i) as u32 {
            return false;
        }
        i = i + 1;
    }
    true
}

/// One step of the search-path scan: `c` toggles quoting (Windows only),
/// closes the current entry when it is an unquoted list separator, and is
/// taken into the current entry otherwise.
pub open spec fn split_step(
    segs: Seq<Seq<char>>,
    cur: Seq<char>,
    inq: bool,
    c: char,
    windows: bool,
) -> (Seq<Seq<char>>, Seq<char>, bool) {
    if windows && c == '"' {
        (segs, cur, !inq)
    } else if c == list_sep(windows) && !inq {
        (segs.push(cur), Seq::empty(), false)
    } else {
        (segs, cur.push(c), inq)
    }
}

/// The scan state after reading all of `s`: closed entries, the open entry,
/// and whether a quoted span is open.
pub open spec fn split_fold(s: Seq<char>, windows: bool) -> (Seq<Seq<char>>, Seq<char>, bool)
    decreases s.len(),
{
    if s.len() == 0 {
        (Seq::<Seq<char>>::empty(), Seq::<char>::empty(), false)
    } else {
        let st = split_fold(s.drop_last(), windows);
        split_step(st.0, st.1, st.2, s.last(), windows)
    }
}

/// `segs` without its empty entries.
pub open spec fn drop_empty(segs: Seq<Seq<char>>) -> Seq<Seq<char>>
    decreases segs.len(),
{
    if segs.len() == 0 {
        Seq::<Seq<char>>::empty()
    } else if segs.last().len() == 0 {
        drop_empty(segs.drop_last())
    } else {
        drop_empty(segs.drop_last()).push(segs.last())
    }
}

/// The entries of the search-path string `s`: split on `:` on the Unix
/// family; on the Windows family split on `;` outside double quotes, strip
/// the quotes, and skip empty entries.
pub open spec fn split_paths_spec(s: Seq<char>, windows: bool) -> Seq<Seq<char>> {
    let st = split_fold(s, windows);
    if windows {
        drop_empty(st.0.push(st.1))
    } else {
        st.0.push(st.1)
    }
}

/// The views of a sequence of strings.
pub open spec fn seq_view(v: Seq<String>) -> Seq<Seq<char>> {
    v.map_values(|s: String| s@)
}

/// Relies on String::push: it appends exactly the one character `c`.
#[verifier::external_body]
fn push_char(s: &mut String, c: char)
    ensures
        final(s)@ == old(s)@.push(c),
{
    s.push(c);
}

/// The entries of the search-path string `s`, per `split_paths_spec`.
pub fn split_paths(s: &str, windows: bool) -> (r: Vec<String>)
    ensures
        seq_view(r@) == split_paths_spec(s@, windows),
{
    let n = s.unicode_len();
    let mut segs: Vec<String> = Vec::new();
    let mut cur = String::new();
    let mut inq = false;
    let mut j: usize = 0;
    proof {
        assert(s@.subrange(0, 0) =~= Seq::<char>::empty());
        assert(seq_view(segs@) =~= Seq::<Seq<char>>::empty());
    }
    while j < n
        invariant
            j <= n,
            n == s@.len(),
            seq_view(segs@) == split_fold(s@.subrange(0, j as int), windows).0,
            cur@ == split_fold(s@.subrange(0, j as int), windows).1,
            inq == split_fold(s@.subrange(0, j as int), windows).2,
        decreases n - j,
    {
        let c = s.get_char(j);
        proof {
            assert(s@.subrange(0, j + 1).drop_last() =~= s@.subrange(0, j as int));
            assert(s@.subrange(0, j + 1).last() == s@[j as int]);
        }
        let sep = if windows {
            ';'
        } else {
            ':'
        };
        if windows && c == '"' {
            inq = !inq;
        } else if c == sep && !inq {
            let ghost prev = segs@;
            segs.push(cur);
            cur = String::new();
            proof {
                assert(seq_view(prev.push(segs@[prev.len() as int])) =~= seq_view(prev).push(
                    segs@[prev.len() as int]@,
                ));
            }
        } else {
            push_char(&mut cur, c);
        }
        j = j + 1;
    }
    proof {
        assert(s@.subrange(0, n as int) =~= s@);
    }
    let ghost closed = segs@;
    segs.push(cur);
    proof {
        assert(seq_view(closed.push(segs@[closed.len() as int])) =~= seq_view(closed).push(
            segs@[closed.len() as int]@,
        ));
    }
    if windows {
        let mut out: Vec<String> = Vec::new();
        let mut k: usize = 0;
        proof {
            assert(seq_view(segs@).subrange(0, 0) =~= Seq::<Seq<char>>::empty());
            assert(seq_view(out@) =~= Seq::<Seq<char>>::empty());
        }
        while k < segs.len()
            invariant
                k <= segs@.len(),
                seq_view(out@) == drop_empty(seq_view(segs@).subrange(0, k as int)),
            decreases segs@.len() - k,
        {
            proof {
                assert(seq_view(segs@).subrange(0, k + 1).drop_last() =~= seq_view(
                    segs@,
                ).subrange(0, k as int));
                assert(seq_view(segs@).subrange(0, k + 1).last() == segs@[k as int]@);
            }
            if segs[k].as_str().unicode_len() > 0 {
                let ghost prev_out = out@;
                out.push(segs[k].clone());
                proof {
                    assert(seq_view(prev_out.push(out@[prev_out.len() as int])) =~= seq_view(
                        prev_out,
                    ).push(out@[prev_out.len() as int]@));
                }
            }
            k = k + 1;
        }
        proof {
            assert(seq_view(segs@).subrange(0, segs@.len() as int) =~= seq_view(segs@));
        }
        out
    } else {
        segs
    }
}

/// Appending characters that are not separators does not move the last
/// separator of a path.
pub proof fn lemma_last_sep_append_nonsep(s: Seq<char>, t: Seq<char>, windows: bool)
    requires
        forall|i: int| 0 <= i < t.len() ==> !is_sep(#[trigger] t[i], windows),
    ensures
        last_sep_index(s + t, windows) == last_sep_index(s, windows),
    decreases t.len(),
{
    if t.len() == 0 {
        assert(s + t =~= s);
    } else {
        assert(forall|i: int| 0 <= i < t.len() - 1 ==> !is_sep(#[trigger] t.drop_last()[i], windows));
        lemma_last_sep_append_nonsep(s, t.drop_last(), windows);
        assert((s + t).drop_last() =~= s + t.drop_last());
        assert((s + t).last() == t[t.len() - 1]);
    }
}

/// A path joined from a directory and a non-empty separator-free name has
/// exactly that name as its file name.
pub proof fn lemma_file_name_of_join(dir: Seq<char>, name: Seq<char>, windows: bool)
    requires
        name.len() > 0,
        forall|i: int| 0 <= i < name.len() ==> !is_sep(#[trigger] name[i], windows),
    ensures
        file_name_spec(join_spec(dir, name, windows), windows) == Some(name),
{
    let j = join_spec(dir, name, windows);
    if dir.len() == 0 {
        assert(Seq::<char>::empty() + name =~= name);
        lemma_last_sep_append_nonsep(Seq::<char>::empty(), name, windows);
        assert(last_sep_index(j, windows) == -1);
        assert(j.subrange(0, j.len() as int) =~= name);
    } else if is_sep(dir.last(), windows) {
        lemma_last_sep_append_nonsep(dir, name, windows);
        assert(last_sep_index(dir, windows) == dir.len() - 1);
        assert(j.subrange(dir.len() as int, j.len() as int) =~= name);
    } else {
        let base = dir + seq![sep_char(windows)];
        assert(j =~= base + name);
        lemma_last_sep_append_nonsep(base, name, windows);
        assert(is_sep(base.last(), windows));
        assert(last_sep_index(base, windows) == base.len() - 1);
        assert(j.subrange(dir.len() as int + 1, j.len() as int) =~= name);
    }
}

} // verus!
