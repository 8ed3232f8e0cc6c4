//! The retention policy of the cleanup task: which directory entries one
//! scan deletes.
//!
//! A scan sees each entry as a file name and, where the metadata could be
//! read, the seconds since the file was last modified. An entry is deleted
//! exactly when its age is known, exceeds the retention window, and its
//! name carries the log extension; an entry whose metadata or modification
//! time could not be read is skipped, never deleted, and never aborts the
//! scan.

use vstd::prelude::*;

verus! {

/// One directory entry as the scan sees it: the file name's bytes and the
/// seconds since last modification, `None` when the metadata or the
/// modification time could not be read.
#[derive(Debug, PartialEq, Eq)]
pub struct ScanEntry {
    pub name: Vec<u8>,
    pub age_secs: Option<u64>,
}

/// Model of a scan entry.
pub ghost struct EntryView {
    pub name: Seq<u8>,
    pub age_secs: Option<u64>,
}

impl View for ScanEntry {
    type V = EntryView;

    open spec fn view(&self) -> EntryView {
        EntryView { name: self.name@, age_secs: self.age_secs }
    }
}

impl DeepView for ScanEntry {
    type V = EntryView;

    open spec fn deep_view(&self) -> EntryView {
        self.view()
    }
}

/// The extension that marks a file as a log file: the bytes of `.log`.
pub open spec fn log_suffix() -> Seq<u8> {
    seq![46u8, 108u8, 111u8, 103u8]
}

/// An entry is expired exactly when its age is known, strictly exceeds the
/// retention window, and its name ends in the log extension.
pub open spec fn is_expired(e: EntryView, max_age_secs: u64) -> bool {
    &&& e.age_secs is Some
    &&& e.age_secs.unwrap() > max_age_secs
    &&& log_suffix().is_suffix_of(e.name)
}

fn name_ends_with_log(name: &Vec<u8>) -> (r: bool)
    ensures
        r == log_suffix().is_suffix_of(name@),
{
    let n = name.len();
    if n < 4 {
        return false;
    }
    let r = name[n - 1] == 103u8 && name[n - 2] == 111u8 && name[n - 3] == 108u8
        && name[n - 4] == 46u8;
    proof {
        let s = name@;
        let suf = s.subrange(n - 4, n as int);
        assert(suf[0] == s[n - 4]);
        assert(suf[1] == s[n - 3]);
        assert(suf[2] == s[n - 2]);
        assert(suf[3] == s[n - 1]);
        if r {
            assert(log_suffix() =~= suf);
        }
        if log_suffix().is_suffix_of(s) {
            assert(log_suffix() == suf);
            assert(log_suffix()[0] == suf[0]);
            assert(log_suffix()[1] == suf[1]);
            assert(log_suffix()[2] == suf[2]);
            assert(log_suffix()[3] == suf[3]);
        }
    }
    r
}

/// Whether one scan deletes this entry.
pub fn should_delete(e: &ScanEntry, max_age_secs: u64) -> (r: bool)
    ensures
        r == is_expired(e@, max_age_secs),
{
    match e.age_secs {
        None => false,
        Some(age) => {
            if age > max_age_secs {
                name_ends_with_log(&e.name)
            } else {
                false
            }
        },
    }
}

/// One cleanup scan over a directory listing: the indices, in increasing
/// order, of exactly the expired entries. The caller deletes the files at
/// those indices; every other file is left alone. A deletion that fails is
/// skipped by the caller and does not disturb the rest of the plan.
pub fn plan_cleanup(entries: &Vec<ScanEntry>, max_age_secs: u64) -> (plan: Vec<usize>)
    ensures
        forall|k: int|
            0 <= k < plan.len() ==> plan@[k] < entries.len() && is_expired(
                entries.deep_view()[plan@[k] as int],
                max_age_secs,
            ),
        forall|i: int|
            0 <= i < entries.len() && is_expired(entries.deep_view()[i], max_age_secs)
                ==> plan@.contains(i as usize),
        forall|k1: int, k2: int| 0 <= k1 < k2 < plan.len() ==> plan@[k1] < plan@[k2],
{
    let mut plan: Vec<usize> = Vec::new();
    let mut i: usize = 0;
    while i < entries.len()
        invariant
            0 <= i <= entries.len(),
            forall|k: int|
                0 <= k < plan.len() ==> plan@[k] < i && is_expired(
                    entries.deep_view()[plan@[k] as int],
                    max_age_secs,
                ),
            forall|j: int|
                0 <= j < i && is_expired(entries.deep_view()[j], max_age_secs)
                    ==> plan@.contains(j as usize),
            forall|k1: int, k2: int| 0 <= k1 < k2 < plan.len() ==> plan@[k1] < plan@[k2],
        decreases entries.len() - i,
    {
        proof {
            assert(entries.deep_view()[i as int] == entries@[i as int]@);
        }
        let ghost pre = plan@;
        if should_delete(&entries[i], max_age_secs) {
            plan.push(i);
        }
        proof {
            assert forall|j: int|
                0 <= j < i + 1 && is_expired(entries.deep_view()[j], max_age_secs)
                    implies plan@.contains(j as usize) by {
                if j < i {
                    let k = choose|k: int| 0 <= k < pre.len() && pre[k] == j as usize;
                    assert(plan@[k] == j as usize);
                } else {
                    assert(plan@[plan@.len() - 1] == i as usize);
                }
            }
        }
        i += 1;
    }
    plan
}

/// The directory after one scan: exactly the entries that were not
/// expired, in their original order.
pub open spec fn surviving(entries: Seq<EntryView>, max_age_secs: u64) -> Seq<EntryView>
    decreases entries.len(),
{
    if entries.len() == 0 {
        Seq::empty()
    } else {
        let rest = surviving(entries.drop_last(), max_age_secs);
        if is_expired(entries.last(), max_age_secs) {
            rest
        } else {
            rest.push(entries.last())
        }
    }
}

/// No surviving entry is expired: the scan that produced the listing
/// already deleted every expired one.
pub proof fn lemma_surviving_not_expired(entries: Seq<EntryView>, max_age_secs: u64)
    ensures
        forall|i: int|
            0 <= i < surviving(entries, max_age_secs).len() ==> !is_expired(
                surviving(entries, max_age_secs)[i],
                max_age_secs,
            ),
    decreases entries.len(),
{
    if entries.len() > 0 {
        let rest = surviving(entries.drop_last(), max_age_secs);
        lemma_surviving_not_expired(entries.drop_last(), max_age_secs);
        if !is_expired(entries.last(), max_age_secs) {
            assert(surviving(entries, max_age_secs) == rest.push(entries.last()));
            assert forall|i: int| 0 <= i < surviving(entries, max_age_secs).len()
                implies !is_expired(surviving(entries, max_age_secs)[i], max_age_secs) by {
                if i < rest.len() {
                    assert(surviving(entries, max_age_secs)[i] == rest[i]);
                } else {
                    assert(surviving(entries, max_age_secs)[i] == entries.last());
                }
            }
        }
    }
}

/// A listing with no expired entry is left exactly as it is.
pub proof fn lemma_surviving_of_clean(entries: Seq<EntryView>, max_age_secs: u64)
    requires
        forall|i: int| 0 <= i < entries.len() ==> !is_expired(entries[i], max_age_secs),
    ensures
        surviving(entries, max_age_secs) == entries,
    decreases entries.len(),
{
    if entries.len() > 0 {
        assert(entries.last() == entries[entries.len() - 1]);
        lemma_surviving_of_clean(entries.drop_last(), max_age_secs);
        assert(entries.drop_last().push(entries.last()) =~= entries);
    }
}

/// Idempotence of a cleanup cycle: with no new files created, running a
/// second scan over what the first one left is a no-op — nothing further
/// is expired, and the listing does not change.
pub proof fn lemma_cleanup_idempotent(entries: Seq<EntryView>, max_age_secs: u64)
    ensures
        surviving(surviving(entries, max_age_secs), max_age_secs) == surviving(
            entries,
            max_age_secs,
        ),
        forall|i: int|
            0 <= i < surviving(entries, max_age_secs).len() ==> !is_expired(
                surviving(entries, max_age_secs)[i],
                max_age_secs,
            ),
{
    lemma_surviving_not_expired(entries, max_age_secs);
    lemma_surviving_of_clean(surviving(entries, max_age_secs), max_age_secs);
}

/// The listing after one scan, as a value: exactly the entries the scan
/// keeps, in order. Applying `plan_cleanup` to a directory and deleting
/// the planned files leaves the files this returns.
pub fn survivors_of(entries: &Vec<ScanEntry>, max_age_secs: u64) -> (kept: Vec<ScanEntry>)
    ensures
        kept.deep_view() == surviving(entries.deep_view(), max_age_secs),
{
    let ghost all = entries.deep_view();
    let mut kept: Vec<ScanEntry> = Vec::new();
    let mut i: usize = 0;
    proof {
        assert(kept.deep_view() =~= surviving(all.take(0), max_age_secs));
    }
    while i < entries.len()
        invariant
            0 <= i <= entries.len(),
            all == entries.deep_view(),
            kept.deep_view() == surviving(all.take(i as int), max_age_secs),
        decreases entries.len() - i,
    {
        proof {
            assert(all.take(i + 1).drop_last() =~= all.take(i as int));
            assert(all.take(i + 1).last() == all[i as int]);
            assert(entries.deep_view()[i as int] == entries@[i as int]@);
        }
        if !should_delete(&entries[i], max_age_secs) {
            let e = ScanEntry {
                name: crate::copy_bytes(&entries[i].name),
                age_secs: entries[i].age_secs,
            };
            kept.push(e);
            proof {
                assert(e@ == all[i as int]);
                assert(kept.deep_view() =~= surviving(all.take(i + 1), max_age_secs));
            }
        }
        i += 1;
    }
    proof {
        assert(all.take(entries.len() as int) =~= all);
    }
    kept
}

} // verus!
