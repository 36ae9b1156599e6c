//! The best-effort PNG cleanup run when the shell quits: out of the
//! direct children of the screenshot directory, every regular file whose
//! extension case-insensitively equals `png` is deleted. This module
//! decides which entries those are; the surrounding binary lists the
//! directory, asks, and performs the deletions, ignoring individual
//! failures.

use vstd::prelude::*;

verus! {

/// A directory entry as the cleanup reads it: its name and whether it is
/// a regular file.
pub struct FsEntry {
    pub name: String,
    pub is_file: bool,
}

/// `i` is the position of the last `.` in `s`.
pub open spec fn is_last_dot(s: Seq<char>, i: int) -> bool {
    &&& 0 <= i < s.len()
    &&& s[i] == '.'
    &&& forall|j: int| i < j < s.len() ==> s[j] != '.'
}

/// `ext` spells `png` up to ASCII case.
pub open spec fn is_png_ext(ext: Seq<char>) -> bool {
    &&& ext.len() == 3
    &&& (ext[0] == 'p' || ext[0] == 'P')
    &&& (ext[1] == 'n' || ext[1] == 'N')
    &&& (ext[2] == 'g' || ext[2] == 'G')
}

/// The name has an extension — the part after a last dot that does not
/// open the name, so a leading-dot name alone has none — and it spells
/// `png` up to case.
pub open spec fn is_png_name(s: Seq<char>) -> bool {
    exists|i: int| 1 <= i && is_last_dot(s, i) && is_png_ext(s.subrange(i + 1, s.len() as int))
}

/// The cleanup deletes an entry exactly when it is a regular file with a
/// `png` extension.
pub open spec fn should_remove(e: FsEntry) -> bool {
    e.is_file && is_png_name(e.name@)
}

/// The names of the entries a cleanup pass deletes, in listing order.
pub open spec fn cleanup_victims(entries: Seq<FsEntry>) -> Seq<Seq<char>>
    decreases entries.len(),
{
    if entries.len() == 0 {
        Seq::empty()
    } else {
        let rest = cleanup_victims(entries.drop_last());
        if should_remove(entries.last()) {
            rest.push(entries.last().name@)
        } else {
            rest
        }
    }
}

proof fn lemma_last_dot_unique(s: Seq<char>, i: int, j: int)
    requires
        is_last_dot(s, i),
        is_last_dot(s, j),
    ensures
        i == j,
{
    if i < j {
        assert(s[j] != '.');
    }
    if j < i {
        assert(s[i] != '.');
    }
}

/// Whether a file name carries a `png` extension, compared without
/// regard to ASCII case.
pub fn is_png_file_name(name: &str) -> (r: bool)
    ensures
        r == is_png_name(name@),
{
    let n = name.unicode_len();
    let mut i: usize = n;
    while i > 0
        invariant
            i <= n == name@.len(),
            forall|j: int| i <= j < n ==> name@[j] != '.',
        decreases i,
    {
        if name.get_char(i - 1) == '.' {
            let dot: usize = i - 1;
            proof {
                assert(is_last_dot(name@, dot as int));
            }
            if dot >= 1 && n - dot == 4 {
                let c0 = name.get_char(dot + 1);
                let c1 = name.get_char(dot + 2);
                let c2 = name.get_char(dot + 3);
                let matched = (c0 == 'p' || c0 == 'P') && (c1 == 'n' || c1 == 'N') && (c2 == 'g'
                    || c2 == 'G');
                proof {
                    let ext = name@.subrange(dot + 1, name@.len() as int);
                    assert(ext.len() == 3);
                    assert(ext[0] == name@[dot + 1] && ext[1] == name@[dot + 2] && ext[2]
                        == name@[dot + 3]);
                    if matched {
                        assert(is_png_name(name@));
                    } else {
                        assert forall|k: int|
                            !(1 <= k && is_last_dot(name@, k) && is_png_ext(
                                name@.subrange(k + 1, name@.len() as int),
                            )) by {
                            if is_last_dot(name@, k) {
                                lemma_last_dot_unique(name@, k, dot as int);
                            }
                        }
                    }
                }
                return matched;
            } else {
                proof {
                    assert forall|k: int|
                        !(1 <= k && is_last_dot(name@, k) && is_png_ext(
                            name@.subrange(k + 1, name@.len() as int),
                        )) by {
                        if is_last_dot(name@, k) {
                            lemma_last_dot_unique(name@, k, dot as int);
                            assert(name@.subrange(k + 1, name@.len() as int).len() == n - dot
                                - 1);
                        }
                    }
                }
                return false;
            }
        }
        i -= 1;
    }
    proof {
        assert forall|k: int|
            !(1 <= k && is_last_dot(name@, k) && is_png_ext(
                name@.subrange(k + 1, name@.len() as int),
            )) by {
            if is_last_dot(name@, k) {
                assert(name@[k] == '.');
            }
        }
    }
    false
}

/// The names the cleanup pass deletes from a listing: every regular file
/// whose extension spells `png` up to case, in listing order.
pub fn cleanup_targets(entries: &Vec<FsEntry>) -> (r: Vec<String>)
    ensures
        r@.map_values(|s: String| s@) == cleanup_victims(entries@),
{
    let mut targets: Vec<String> = Vec::new();
    let mut i: usize = 0;
    while i < entries.len()
        invariant
            i <= entries@.len(),
            targets@.map_values(|s: String| s@) == cleanup_victims(entries@.subrange(0, i as int)),
        decreases entries@.len() - i,
    {
        proof {
            assert(entries@.subrange(0, i + 1).drop_last() =~= entries@.subrange(0, i as int));
            assert(entries@.subrange(0, i + 1).last() == entries@[i as int]);
        }
        let entry = &entries[i];
        if entry.is_file && is_png_file_name(entry.name.as_str()) {
            let ghost before = targets@;
            targets.push(entry.name.clone());
            proof {
                assert(targets@.map_values(|s: String| s@) =~= before.map_values(
                    |s: String| s@,
                ).push(entries@[i as int].name@));
            }
        }
        i += 1;
    }
    proof {
        assert(entries@.subrange(0, entries@.len() as int) =~= entries@);
    }
    targets
}

/// The cleanup deletes exactly the removable entries and leaves every
/// other one alone: its victims are the listing filtered to the regular
/// files with a `png` extension, each reduced to its name, in order.
pub proof fn lemma_cleanup_victims_exact(entries: Seq<FsEntry>)
    ensures
        cleanup_victims(entries) == entries.filter(|e: FsEntry| should_remove(e)).map_values(
            |e: FsEntry| e.name@,
        ),
    decreases entries.len(),
{
    reveal(Seq::filter);
    let pred = |e: FsEntry| should_remove(e);
    let name_of = |e: FsEntry| e.name@;
    if entries.len() == 0 {
        assert(cleanup_victims(entries) =~= entries.filter(pred).map_values(name_of));
    } else {
        lemma_cleanup_victims_exact(entries.drop_last());
        let prefix = entries.drop_last();
        assert(entries.filter(pred) == if pred(entries.last()) {
            prefix.filter(pred).push(entries.last())
        } else {
            prefix.filter(pred)
        });
        if pred(entries.last()) {
            assert(prefix.filter(pred).push(entries.last()).map_values(name_of)
                =~= prefix.filter(pred).map_values(name_of).push(name_of(entries.last())));
        }
        assert(cleanup_victims(entries) =~= entries.filter(pred).map_values(name_of));
    }
}

/// Whether a cleanup pass runs at all: only for a configured,
/// non-empty path that names an existing directory. An empty or missing
/// or non-directory path deletes nothing and is no error.
pub fn cleanup_applicable(path: &str, path_present: bool, is_directory: bool) -> (r: bool)
    ensures
        r == (path@.len() > 0 && path_present && is_directory),
{
    !path.is_empty() && path_present && is_directory
}

} // verus!
