//! One output destination of the pipeline: its current file, a running byte
//! count, and the rotated segments kept under the keep-all policy.
//!
//! Files are modelled as sequences of whole records (each a byte sequence);
//! the bytes of a file are the concatenation of its records, so by
//! construction no record is ever split across a file boundary.

use vstd::prelude::*;
use crate::cleanup::log_suffix;

verus! {

/// Mathematical model of one sink: the size limit, the records of the
/// current file, and the rotated segments, oldest first.
pub ghost struct SinkView {
    pub max: nat,
    pub current: Seq<Seq<u8>>,
    pub rotated: Seq<Seq<Seq<u8>>>,
}

/// Total bytes of a file's records.
pub open spec fn file_size(f: Seq<Seq<u8>>) -> nat
    decreases f.len(),
{
    if f.len() == 0 {
        0
    } else {
        file_size(f.drop_last()) + f.last().len()
    }
}

/// The bytes a file holds on disk: its whole records, concatenated in order.
pub open spec fn file_bytes(f: Seq<Seq<u8>>) -> Seq<u8> {
    f.flatten()
}

/// Appending `rec` rotates exactly when it would push the current file past
/// the size limit.
pub open spec fn needs_rotation(v: SinkView, rec: Seq<u8>) -> bool {
    file_size(v.current) + rec.len() > v.max
}

/// The rotation policy as a function on the model: a write that would
/// overflow the current file archives that file as the newest rotated
/// segment and starts a fresh current file holding only the new record;
/// otherwise it appends the record to the current file.
pub open spec fn spec_write(v: SinkView, rec: Seq<u8>) -> SinkView {
    if needs_rotation(v, rec) {
        SinkView { max: v.max, current: seq![rec], rotated: v.rotated.push(v.current) }
    } else {
        SinkView { max: v.max, current: v.current.push(rec), rotated: v.rotated }
    }
}

pub proof fn lemma_file_size_push(f: Seq<Seq<u8>>, r: Seq<u8>)
    ensures
        file_size(f.push(r)) == file_size(f) + r.len(),
{
    assert(f.push(r).drop_last() =~= f);
}

proof fn lemma_bytes_deep_view(v: Vec<u8>)
    ensures
        v.deep_view() =~= v@,
{
}

/// One sink. `current` holds the whole records of the current file,
/// `current_size` their total bytes, `rotated` the archived segments.
pub struct Sink {
    pub max_size_bytes: usize,
    pub current: Vec<Vec<u8>>,
    pub current_size: usize,
    pub rotated: Vec<Vec<Vec<u8>>>,
}

impl View for Sink {
    type V = SinkView;

    open spec fn view(&self) -> SinkView {
        SinkView {
            max: self.max_size_bytes as nat,
            current: self.current.deep_view(),
            rotated: self.rotated.deep_view(),
        }
    }
}

impl Sink {
    /// The running byte count agrees with the records of the current file.
    /// This also keeps the count from overflowing: a non-rotating write
    /// stays at or below the size limit.
    pub open spec fn wf(self) -> bool {
        self.current_size == file_size(self@.current)
    }

    pub fn new(max_size_bytes: usize) -> (s: Sink)
        ensures
            s.wf(),
            s@.max == max_size_bytes,
            s@.current == Seq::<Seq<u8>>::empty(),
            s@.rotated == Seq::<Seq<Seq<u8>>>::empty(),
    {
        let s = Sink {
            max_size_bytes,
            current: Vec::new(),
            current_size: 0,
            rotated: Vec::new(),
        };
        proof {
            assert(s@.current =~= Seq::<Seq<u8>>::empty());
            assert(s@.rotated =~= Seq::<Seq<Seq<u8>>>::empty());
        }
        s
    }

    /// Append one record, rotating first when the record would push the
    /// current file past the size limit. Returns whether a rotation
    /// happened, so a caller driving real files knows to archive the
    /// current file under the next segment name before appending.
    pub fn write(&mut self, record: Vec<u8>) -> (did_rotate: bool)
        requires
            old(self).wf(),
        ensures
            final(self).wf(),
            final(self)@ == spec_write(old(self)@, record@),
            did_rotate == needs_rotation(old(self)@, record@),
    {
        let len = record.len();
        let rotate = len > self.max_size_bytes || self.current_size > self.max_size_bytes - len;
        proof {
            lemma_bytes_deep_view(record);
        }
        if rotate {
            let mut fresh: Vec<Vec<u8>> = Vec::new();
            core::mem::swap(&mut self.current, &mut fresh);
            self.rotated.push(fresh);
            self.current.push(record);
            self.current_size = len;
            proof {
                let post = spec_write(old(self)@, record@);
                assert(self.current.deep_view() =~= seq![record@]);
                assert(self.rotated.deep_view() =~= old(self)@.rotated.push(old(self)@.current));
                assert(self@ == post);
                lemma_file_size_push(Seq::<Seq<u8>>::empty(), record@);
                assert(seq![record@].drop_last() =~= Seq::<Seq<u8>>::empty());
                assert(file_size(post.current) == record@.len());
            }
            true
        } else {
            self.current.push(record);
            self.current_size = self.current_size + len;
            proof {
                let post = spec_write(old(self)@, record@);
                assert(self.current.deep_view() =~= old(self)@.current.push(record@));
                assert(self@ == post);
                lemma_file_size_push(old(self)@.current, record@);
            }
            false
        }
    }
}

/// No record is ever split across a file boundary. A write either appends
/// the record's bytes whole to the end of the current file's bytes, or
/// moves the current file aside untouched and starts the new current file
/// with exactly the record's bytes; every previously rotated segment is
/// left as it was. Reading back any file therefore yields only whole
/// records.
pub proof fn lemma_write_never_splits_record(v: SinkView, rec: Seq<u8>)
    ensures
        ({
            let post = spec_write(v, rec);
            &&& forall|i: int| 0 <= i < v.rotated.len() ==> post.rotated[i] == v.rotated[i]
            &&& needs_rotation(v, rec) ==> post.rotated == v.rotated.push(v.current)
                && file_bytes(post.current) == rec
            &&& !needs_rotation(v, rec) ==> post.rotated == v.rotated
                && file_bytes(post.current) == file_bytes(v.current) + rec
        }),
{
    broadcast use Seq::lemma_flatten_push;

    let post = spec_write(v, rec);
    if needs_rotation(v, rec) {
        post.current.lemma_flatten_singleton();
    } else {
        assert(v.current.push(rec).flatten() =~= v.current.flatten() + rec);
    }
}

/// The rotation policy, stated over the model: exactly when the current
/// file's bytes plus the next record would exceed the size limit, that
/// write starts a fresh current file holding only the new record, and the
/// old current file persists unmodified as the newest rotated segment;
/// otherwise the set of rotated segments does not change. In either case no
/// rotated segment is ever written to again.
pub proof fn lemma_rotation_at_size_limit(v: SinkView, rec: Seq<u8>)
    ensures
        needs_rotation(v, rec) <==> file_size(v.current) + rec.len() > v.max,
        needs_rotation(v, rec) ==> spec_write(v, rec).current == seq![rec]
            && spec_write(v, rec).rotated == v.rotated.push(v.current),
        !needs_rotation(v, rec) ==> spec_write(v, rec).rotated == v.rotated,
        forall|i: int| 0 <= i < v.rotated.len() ==> spec_write(v, rec).rotated[i] == v.rotated[i],
{
}

/// Every record a sink ever accepted, in the order the writes were
/// issued: the rotated segments' records, oldest segment first, then the
/// current file's.
pub open spec fn all_records(v: SinkView) -> Seq<Seq<u8>> {
    v.rotated.flatten() + v.current
}

/// Within a single sink, records are kept in the order the write calls
/// were issued: a write appends the record to the sink's record journal
/// and disturbs nothing before it, whether or not the file rotates.
pub proof fn lemma_write_preserves_order(v: SinkView, rec: Seq<u8>)
    ensures
        all_records(spec_write(v, rec)) == all_records(v).push(rec),
{
    broadcast use Seq::lemma_flatten_push;

    let post = spec_write(v, rec);
    if needs_rotation(v, rec) {
        assert(post.rotated.flatten() =~= v.rotated.flatten() + v.current);
        assert(all_records(post) =~= all_records(v).push(rec));
    } else {
        assert(all_records(post) =~= all_records(v).push(rec));
    }
}

/// The decimal digits of `n`, most significant first, as ASCII bytes.
pub open spec fn decimal_digits(n: nat) -> Seq<u8>
    decreases n,
{
    if n < 10 {
        seq![(48 + n) as u8]
    } else {
        decimal_digits(n / 10).push((48 + n % 10) as u8)
    }
}

/// The deterministic name of a rotated segment: the sink's base name, a
/// dot, the segment's index in decimal, and the log extension — for the
/// backend sink's first segment, the bytes of `backend.1.log`.
pub open spec fn rotated_name(base: Seq<u8>, index: u64) -> Seq<u8> {
    base + seq![46u8] + decimal_digits(index as nat) + log_suffix()
}

fn push_decimal_digits(n: u64, out: &mut Vec<u8>)
    ensures
        final(out)@ == old(out)@ + decimal_digits(n as nat),
    decreases n,
{
    if n < 10 {
        out.push(48 + (n as u8));
        proof {
            assert(out@ =~= old(out)@ + decimal_digits(n as nat));
        }
    } else {
        push_decimal_digits(n / 10, out);
        out.push(48 + ((n % 10) as u8));
        proof {
            assert(out@ =~= old(out)@ + decimal_digits(n as nat));
        }
    }
}

/// Build the name a sink's `index`-th rotated segment is archived under.
pub fn segment_file_name(base: &Vec<u8>, index: u64) -> (name: Vec<u8>)
    ensures
        name@ == rotated_name(base@, index),
{
    let mut name = crate::copy_bytes(base);
    name.push(46u8);
    push_decimal_digits(index, &mut name);
    name.push(46u8);
    name.push(108u8);
    name.push(111u8);
    name.push(103u8);
    proof {
        assert(name@ =~= rotated_name(base@, index));
    }
    name
}

/// Every rotated segment's name ends in the log extension, so an aged
/// segment is exactly what a later cleanup scan deletes.
pub proof fn lemma_rotated_name_is_log_file(base: Seq<u8>, index: u64)
    ensures
        log_suffix().is_suffix_of(rotated_name(base, index)),
{
    let name = rotated_name(base, index);
    assert(log_suffix() =~= name.subrange(name.len() - 4, name.len() as int));
}

} // verus!
