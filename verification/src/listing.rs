//! The directory-listing command. The surrounding binary opens the
//! directory and hands over each entry's file name, already decoded to
//! text where the OS name allows it; this module keeps exactly the
//! decodable names, in order, and formats the error when the directory
//! cannot be opened.

use vstd::prelude::*;
use crate::messages::format_read_dir_error;
use crate::messages::read_dir_error_message;

verus! {

/// The names a listing reports: one per decodable entry, in listing
/// order; undecodable entries are skipped.
pub open spec fn decoded_names(entries: Seq<Option<String>>) -> Seq<Seq<char>>
    decreases entries.len(),
{
    if entries.len() == 0 {
        Seq::empty()
    } else {
        let rest = decoded_names(entries.drop_last());
        match entries.last() {
            Some(name) => rest.push(name@),
            None => rest,
        }
    }
}

/// Keeps the decodable names of a listing, in order.
pub fn decode_entry_names(entries: &Vec<Option<String>>) -> (r: Vec<String>)
    ensures
        r@.map_values(|s: String| s@) == decoded_names(entries@),
{
    let mut names: Vec<String> = Vec::new();
    let mut i: usize = 0;
    while i < entries.len()
        invariant
            i <= entries@.len(),
            names@.map_values(|s: String| s@) == decoded_names(entries@.subrange(0, i as int)),
        decreases entries@.len() - i,
    {
        proof {
            assert(entries@.subrange(0, i + 1).drop_last() =~= entries@.subrange(0, i as int));
            assert(entries@.subrange(0, i + 1).last() == entries@[i as int]);
        }
        match &entries[i] {
            Some(name) => {
                let ghost before = names@;
                names.push(name.clone());
                proof {
                    assert(names@.map_values(|s: String| s@) =~= before.map_values(
                        |s: String| s@,
                    ).push(entries@[i as int]->0@));
                }
            },
            None => {},
        }
        i += 1;
    }
    proof {
        assert(entries@.subrange(0, entries@.len() as int) =~= entries@);
    }
    names
}

/// The listing command: on a successful read, exactly the decodable
/// names; on failure, an error naming the directory and the cause.
pub fn read_directory(path: &str, listing: Result<Vec<Option<String>>, String>) -> (r: Result<
    Vec<String>,
    String,
>)
    ensures
        listing is Ok ==> r is Ok && r->Ok_0@.map_values(|s: String| s@) == decoded_names(
            listing->Ok_0@,
        ),
        listing is Err ==> r is Err && r->Err_0@ == read_dir_error_message(
            path@,
            listing->Err_0@,
        ),
{
    match listing {
        Ok(entries) => Ok(decode_entry_names(&entries)),
        Err(cause) => Err(format_read_dir_error(path, cause.as_str())),
    }
}

/// A listing of decodable and undecodable entries decodes to exactly the
/// decodable names: the result is the listing filtered to its `Some`
/// entries, each reduced to its name — nothing added, nothing dropped,
/// order kept.
pub proof fn lemma_decoded_names_exact(entries: Seq<Option<String>>)
    ensures
        decoded_names(entries) == entries.filter(|e: Option<String>| e is Some).map_values(
            |e: Option<String>| e->0@,
        ),
    decreases entries.len(),
{
    reveal(Seq::filter);
    let pred = |e: Option<String>| e is Some;
    let name_of = |e: Option<String>| e->0@;
    if entries.len() == 0 {
        assert(decoded_names(entries) =~= entries.filter(pred).map_values(name_of));
    } else {
        lemma_decoded_names_exact(entries.drop_last());
        let prefix = entries.drop_last();
        assert(entries.filter(pred) == if pred(entries.last()) {
            prefix.filter(pred).push(entries.last())
        } else {
            prefix.filter(pred)
        });
        if pred(entries.last()) {
            assert(prefix.filter(pred).push(entries.last()).map_values(name_of)
                =~= prefix.filter(pred).map_values(name_of).push(name_of(entries.last())));
        }
        assert(decoded_names(entries) =~= entries.filter(pred).map_values(name_of));
    }
}

} // verus!
