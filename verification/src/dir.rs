//! Directory listings.
//!
//! A listing is made in two steps. Opening the directory fails as a whole, at
//! once. After that every entry is read on its own: one that cannot be read
//! is left out, and the others are kept in the order they came.

use crate::error::FsError;
use crate::path::PathValue;
use vstd::prelude::*;

verus! {

/// What a listing keeps of one entry: the bytes of its path if it was read,
/// nothing if reading it failed.
pub open spec fn readable(entry: Result<PathValue, String>) -> Option<Seq<u8>> {
    match entry {
        Ok(path) => Some(path@),
        Err(_) => None,
    }
}

/// The paths that a listing keeps of the entries it was given: those that
/// were read, in their order.
pub open spec fn kept_spec(entries: Seq<Result<PathValue, String>>) -> Seq<Seq<u8>> {
    entries.filter_map(|entry: Result<PathValue, String>| readable(entry))
}

/// Some entry was read and had this path.
pub open spec fn was_read(entries: Seq<Result<PathValue, String>>, path: Seq<u8>) -> bool {
    exists|i: int| 0 <= i < entries.len() && readable(#[trigger] entries[i]) == Some(path)
}

/// The bytes of each path of a sequence.
pub open spec fn views(paths: Seq<PathValue>) -> Seq<Seq<u8>> {
    paths.map_values(|path: PathValue| path@)
}

/// Keeps the entries that were read and drops those that failed.
pub fn kept_entries(entries: Vec<Result<PathValue, String>>) -> (kept: Vec<PathValue>)
    ensures
        views(kept@) == kept_spec(entries@),
{
    let ghost all = entries@;
    let mut kept: Vec<PathValue> = Vec::new();
    for entry in it: entries.into_iter()
        invariant
            it.seq() == all,
            views(kept@) == kept_spec(all.take(it.index())),
    {
        proof {
            assert(all.take(it.index() + 1).drop_last() == all.take(it.index()));
        }
        match entry {
            Ok(path) => {
                kept.push(path);
                assert(views(kept@) == kept_spec(all.take(it.index() + 1)));
            },
            Err(_) => {},
        }
    }
    assert(all.take(all.len() as int) == all);
    kept
}

/// Completes a listing. `outcome` is what opening the directory gave: the
/// outcome of reading each entry, or the operating system's message where the
/// directory could not be opened at all. Only that failure fails the listing.
pub fn finish_listing(outcome: Result<Vec<Result<PathValue, String>>, String>) -> (result: Result<
    Vec<PathValue>,
    FsError,
>)
    ensures
        match outcome {
            Ok(entries) => result matches Ok(paths) && views(paths@) == kept_spec(entries@),
            Err(message) => result matches Err(FsError::IoFailure(text)) && text@ == message@,
        },
{
    match outcome {
        Ok(entries) => Ok(kept_entries(entries)),
        Err(message) => Err(FsError::IoFailure(message)),
    }
}

/// A listing is exhaustive: where no entry failed, it holds one path for each
/// entry, in the order of the entries.
pub proof fn lemma_listing_exhaustive(entries: Seq<Result<PathValue, String>>)
    requires
        forall|i: int| 0 <= i < entries.len() ==> entries[i] is Ok,
    ensures
        kept_spec(entries).len() == entries.len(),
        forall|i: int|
            0 <= i < entries.len() ==> Some(#[trigger] kept_spec(entries)[i]) == readable(
                entries[i],
            ),
    decreases entries.len(),
{
    if entries.len() > 0 {
        let before = entries.drop_last();
        lemma_listing_exhaustive(before);
        assert(kept_spec(entries) == kept_spec(before) + seq![entries.last()->Ok_0@]);
    }
}

/// A listing is never longer than what it was given, and it is shorter where
/// an entry failed.
pub proof fn lemma_listing_drops_failures(entries: Seq<Result<PathValue, String>>)
    ensures
        kept_spec(entries).len() <= entries.len(),
        (exists|i: int| 0 <= i < entries.len() && entries[i] is Err) ==> kept_spec(entries).len()
            < entries.len(),
    decreases entries.len(),
{
    if entries.len() > 0 {
        let before = entries.drop_last();
        lemma_listing_drops_failures(before);
        if exists|i: int| 0 <= i < entries.len() && entries[i] is Err {
            let i = choose|i: int| 0 <= i < entries.len() && entries[i] is Err;
            if i < before.len() {
                assert(before[i] is Err);
            }
        }
    }
}

/// A listing holds the path of every entry that was read, and nothing else.
pub proof fn lemma_listing_keeps_what_was_read(entries: Seq<Result<PathValue, String>>)
    ensures
        forall|path: Seq<u8>|
            #![trigger kept_spec(entries).contains(path)]
            #![trigger was_read(entries, path)]
            kept_spec(entries).contains(path) <==> was_read(entries, path),
    decreases entries.len(),
{
    let kept = kept_spec(entries);
    if entries.len() == 0 {
        assert forall|path: Seq<u8>| kept.contains(path) <==> #[trigger] was_read(
            entries,
            path,
        ) by {}
    } else {
        let before = entries.drop_last();
        let last = entries.len() - 1;
        let kept_before = kept_spec(before);
        lemma_listing_keeps_what_was_read(before);
        assert forall|path: Seq<u8>|
            #![trigger kept.contains(path)]
            #![trigger was_read(entries, path)]
            kept.contains(path) <==> was_read(entries, path) by {
            if kept.contains(path) {
                let j = choose|j: int| 0 <= j < kept.len() && kept[j] == path;
                if j < kept_before.len() {
                    assert(kept_before[j] == path);
                    assert(kept_before.contains(path));
                    let i = choose|i: int|
                        0 <= i < before.len() && readable(#[trigger] before[i]) == Some(path);
                    assert(entries[i] == before[i]);
                } else {
                    assert(readable(entries[last]) == Some(path));
                }
            }
            if was_read(entries, path) {
                let i = choose|i: int|
                    0 <= i < entries.len() && readable(#[trigger] entries[i]) == Some(path);
                if i < last {
                    assert(before[i] == entries[i]);
                    assert(was_read(before, path));
                    assert(kept_before.contains(path));
                    let j = choose|j: int| 0 <= j < kept_before.len() && kept_before[j] == path;
                    assert(kept[j] == path);
                } else {
                    assert(kept[kept.len() - 1] == path);
                }
            }
        }
    }
}

} // verus!
