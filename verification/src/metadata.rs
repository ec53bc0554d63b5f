//! The lazy metadata sequence.
//!
//! A [`MetadataIterator`] walks a clip's key/value metadata once, front to
//! back. Each advance asks the engine for the next entry, copies the key
//! out of its native buffer, and decodes the value through the variant
//! decoder. The end-of-sequence sentinel and a native failure both end the
//! sequence for good — a failure mid-iteration is treated as end of data,
//! never surfaced — while an entry whose value has no known decoding is
//! silently skipped. The sequence is finite, single-pass, and exhaustion
//! is idempotent: once ended, every further advance yields nothing.

use vstd::prelude::*;
use crate::engine::{
    lemma_wf_update_same_kind, Engine, MetaEntry, ObjectKind, Payload,
};
use crate::facade::Clip;
use crate::handle::HandleRef;
use crate::status::Error;
use crate::variant::{
    is_scalar_tag, spec_array_read_status, spec_decoded_elems, spec_scalar_value, SafeArray,
    Value, Variant, VariantDecoder, TAG_SAFE_ARRAY, TAG_STRING,
};

verus! {

/// Decoding an entry's value fails outright: only a bounded-array payload
/// can fail, on one of its descriptor reads or on releasing its lock.
pub open spec fn value_decode_fails(v: Variant) -> bool {
    v.tag == TAG_SAFE_ARRAY && (match v.array {
        Some(a) => spec_array_read_status(a) != 0 || a.unaccess_status != 0,
        None => true,
    })
}

/// Decoding an entry's value yields a value: a scalar tag, a string tag,
/// or a readable bounded array of one of the scalar kinds.
pub open spec fn value_produces(v: Variant) -> bool {
    ||| is_scalar_tag(v.tag)
    ||| v.tag == TAG_STRING
    ||| (v.tag == TAG_SAFE_ARRAY && (match v.array {
        Some(a) => spec_array_read_status(a) == 0 && a.unaccess_status == 0 && is_scalar_tag(
            a.element_tag,
        ),
        None => false,
    }))
}

/// Reaching or reading this entry ends the iteration: the advance to it
/// reports the sentinel or a failure, one of its reads fails, or its value
/// fails to decode.
pub open spec fn entry_terminates(en: MetaEntry) -> bool {
    ||| en.advance_status != 0
    ||| en.key_status != 0
    ||| en.data_status != 0
    ||| value_decode_fails(en.value)
}

/// This entry yields an item.
pub open spec fn entry_produces(en: MetaEntry) -> bool {
    &&& !entry_terminates(en)
    &&& value_produces(en.value)
}

/// The value a produced entry decodes to.
pub open spec fn produced_value_matches(en: MetaEntry, v: Value) -> bool {
    if is_scalar_tag(en.value.tag) {
        v == spec_scalar_value(en.value.tag, en.value.scalar)
    } else if en.value.tag == TAG_STRING {
        v matches Value::Text(t) && t@ == en.value.text@
    } else {
        match en.value.array {
            Some(a) => (v matches Value::Array(vs) && vs@ == spec_decoded_elems(
                a.element_tag,
                a.data@,
            )),
            None => false,
        }
    }
}

/// The item a produced entry decodes to: its key, copied out of the native
/// buffer, and its decoded value.
pub open spec fn produced_item_matches(en: MetaEntry, key: String, v: Value) -> bool {
    &&& key@ == en.key@
    &&& produced_value_matches(en, v)
}

/// The index of the entry that yields the next item when iteration stands
/// at `p`: skipped entries are passed over, and a terminating entry or the
/// end of the sequence yields nothing.
pub open spec fn next_index(s: Seq<MetaEntry>, p: int) -> Option<int>
    decreases s.len() - p,
{
    if p < 0 || p >= s.len() {
        None
    } else if entry_terminates(s[p]) {
        None
    } else if entry_produces(s[p]) {
        Some(p)
    } else {
        next_index(s, p + 1)
    }
}

/// What one advance finds at one entry.
enum Advance {
    Terminate,
    Produce(String, Value),
    Skip,
}

/// A fresh copy of the raw element cells of an array descriptor.
fn copy_cells(src: &Vec<u32>) -> (r: Vec<u32>)
    ensures
        r@ == src@,
{
    let n = src.len();
    let mut out: Vec<u32> = Vec::new();
    let mut i: usize = 0;
    while i < n
        invariant
            i <= n,
            n == src@.len(),
            out@ =~= src@.take(i as int),
        decreases n - i,
    {
        out.push(src[i]);
        proof {
            assert(out@ =~= src@.take(i + 1 as int));
        }
        i = i + 1;
    }
    proof {
        assert(out@ =~= src@);
    }
    out
}

/// A field-for-field copy of an array descriptor, so the decoder can walk
/// it without touching the engine-held original.
fn copy_array(a: &SafeArray) -> (r: SafeArray)
    ensures
        r.element_tag == a.element_tag,
        r.lower_bound == a.lower_bound,
        r.upper_bound == a.upper_bound,
        r.data@ == a.data@,
        r.vartype_status == a.vartype_status,
        r.upper_bound_status == a.upper_bound_status,
        r.lower_bound_status == a.lower_bound_status,
        r.access_status == a.access_status,
        r.unaccess_status == a.unaccess_status,
        r.lock_count == a.lock_count,
        r.locks_taken == a.locks_taken,
        r.unlocks_taken == a.unlocks_taken,
{
    SafeArray {
        element_tag: a.element_tag,
        lower_bound: a.lower_bound,
        upper_bound: a.upper_bound,
        data: copy_cells(&a.data),
        vartype_status: a.vartype_status,
        upper_bound_status: a.upper_bound_status,
        lower_bound_status: a.lower_bound_status,
        access_status: a.access_status,
        unaccess_status: a.unaccess_status,
        lock_count: a.lock_count,
        locks_taken: a.locks_taken,
        unlocks_taken: a.unlocks_taken,
    }
}

/// Reads one entry of a clip's metadata: checks the advance, key and data
/// statuses in the order the native calls run, copies the key out, and
/// decodes the value.
fn read_entry_step(e: &Engine, clip_id: usize, p: usize) -> (a: Advance)
    requires
        e.wf(),
        e.is_obj(clip_id, ObjectKind::Clip),
        p < e.clip_info(clip_id).1.metadata@.len(),
    ensures
        entry_terminates(e.clip_info(clip_id).1.metadata@[p as int]) ==> a is Terminate,
        entry_produces(e.clip_info(clip_id).1.metadata@[p as int]) ==> (a matches Advance::Produce(
            k,
            v,
        ) && produced_item_matches(e.clip_info(clip_id).1.metadata@[p as int], k, v)),
        !entry_terminates(e.clip_info(clip_id).1.metadata@[p as int]) && !entry_produces(
            e.clip_info(clip_id).1.metadata@[p as int],
        ) ==> a is Skip,
{
    proof {
        assert(e.payload_wf(e.payloads@[clip_id as int]));
        assert((e.clip_info(clip_id).1.metadata@[p as int]).value.wf());
    }
    let entries = match &e.payloads[clip_id] {
        Payload::ClipObj { props, .. } => &props.metadata,
        _ => {
            proof {
                assert(false);
            }
            return Advance::Terminate;
        },
    };
    let en = &entries[p];
    if en.advance_status != 0 {
        return Advance::Terminate;
    }
    if en.key_status != 0 {
        return Advance::Terminate;
    }
    let key = en.key.clone();
    if en.data_status != 0 {
        return Advance::Terminate;
    }
    let tag = en.value.tag;
    match VariantDecoder::decode_scalar(tag, en.value.scalar) {
        Some(v) => Advance::Produce(key, v),
        None => {
            if tag == TAG_STRING {
                Advance::Produce(key, Value::Text(en.value.text.clone()))
            } else if tag == TAG_SAFE_ARRAY {
                let mut arr = match &en.value.array {
                    Some(a) => copy_array(a),
                    None => {
                        proof {
                            assert(false);
                        }
                        return Advance::Terminate;
                    },
                };
                match VariantDecoder::decode_array(&mut arr) {
                    Err(_) => Advance::Terminate,
                    Ok(Some(v)) => Advance::Produce(key, v),
                    Ok(None) => Advance::Skip,
                }
            } else {
                Advance::Skip
            }
        },
    }
}

/// Writes a metadata-iterator slot's position and exhaustion mark.
fn set_iter_state(e: &mut Engine, iter_id: usize, clip_id: usize, pos: usize, done: bool)
    requires
        old(e).wf(),
        old(e).is_obj(iter_id, ObjectKind::MetadataIterator),
        old(e).is_obj(clip_id, ObjectKind::Clip),
    ensures
        final(e).wf(),
        final(e).payloads@ == old(e).payloads@.update(
            iter_id as int,
            Payload::IterObj { clip_id, pos, done },
        ),
        final(e).counts@ == old(e).counts@,
        final(e).pending@ == old(e).pending@,
        final(e).prepared_clips@ == old(e).prepared_clips@,
        final(e).factory_available == old(e).factory_available,
{
    let p_new = Payload::IterObj { clip_id, pos, done };
    e.payloads[iter_id] = p_new;
    proof {
        lemma_wf_update_same_kind(*old(e), *e, iter_id as int, p_new);
    }
}

/// A lazy, finite, single-pass walk over one clip's metadata.
pub struct MetadataIterator {
    h: HandleRef,
}

impl Clip {
    /// Starts a metadata walk over this clip, at its first entry.
    pub fn get_metadata_iterator(&self, e: &mut Engine) -> (r: Result<MetadataIterator, Error>)
        requires
            old(e).wf(),
            self.valid(*old(e)),
            old(e).n_objects() < usize::MAX,
        ensures
            final(e).wf(),
            crate::engine::misc_same(*old(e), *final(e)),
            final(e).n_objects() == old(e).n_objects() + 1,
            final(e).counts@ == old(e).counts@.push(1),
            r matches Ok(it) && it.valid(*final(e)) && it.id() == old(e).n_objects()
                && final(e).rc(it.id()) == 1 && final(e).iter_info(it.id()) == (
            self.id(),
            0usize,
            false,
            ),
    {
        let clip_id = self.raw_id();
        let raw = e.install(Payload::IterObj { clip_id, pos: 0, done: false });
        Ok(MetadataIterator { h: HandleRef::adopt(e, raw, ObjectKind::MetadataIterator) })
    }
}

impl MetadataIterator {
    /// The slot of the owned object.
    pub closed spec fn id(self) -> usize {
        self.h.id()
    }

    /// The wrapper carries the interface kind this type stands for.
    pub closed spec fn kind_ok(self) -> bool {
        self.h.kind() == ObjectKind::MetadataIterator
    }

    /// The wrapper is typed to its interface kind and its object is live.
    pub open spec fn valid(self, e: Engine) -> bool {
        &&& self.kind_ok()
        &&& e.live(self.id(), ObjectKind::MetadataIterator)
    }

    /// Advances to the next decodable entry and yields its key and value.
    ///
    /// Entries whose value has no known decoding are skipped silently. The
    /// end of the sequence, a failing native read, and a value that fails
    /// to decode all end the iteration for good: the iterator becomes
    /// exhausted, and an exhausted iterator yields nothing, unchanged, on
    /// every further advance.
    pub fn next(&self, e: &mut Engine) -> (r: Option<(String, Value)>)
        requires
            old(e).wf(),
            self.valid(*old(e)),
        ensures
            final(e).wf(),
            final(e).counts@ == old(e).counts@,
            final(e).pending@ == old(e).pending@,
            final(e).prepared_clips@ == old(e).prepared_clips@,
            final(e).factory_available == old(e).factory_available,
            final(e).payloads@.len() == old(e).payloads@.len(),
            forall|j: int|
                0 <= j < old(e).payloads@.len() && j != self.id() as int ==> final(e).payloads@[j]
                    == #[trigger] old(e).payloads@[j],
            final(e).iter_info(self.id()).0 == old(e).iter_info(self.id()).0,
            old(e).iter_info(self.id()).2 ==> r is None && *final(e) == *old(e),
            !old(e).iter_info(self.id()).2 ==> ({
                let s = old(e).clip_info(old(e).iter_info(self.id()).0).1.metadata@;
                let p = old(e).iter_info(self.id()).1;
                match next_index(s, p as int) {
                    Option::None => r is None && final(e).iter_info(self.id()).2,
                    Option::Some(i) => {
                        &&& r matches Some(kv) && produced_item_matches(s[i], kv.0, kv.1)
                        &&& final(e).iter_info(self.id()).1 == i + 1
                        &&& !final(e).iter_info(self.id()).2
                    },
                }
            }),
    {
        let iter_id = self.h.raw_id();
        let (clip_id, pos0, done) = match &e.payloads[iter_id] {
            Payload::IterObj { clip_id, pos, done } => (*clip_id, *pos, *done),
            _ => {
                proof {
                    assert(false);
                }
                (0, 0, true)
            },
        };
        if done {
            return None;
        }
        let n = match &e.payloads[clip_id] {
            Payload::ClipObj { props, .. } => props.metadata.len(),
            _ => {
                proof {
                    assert(false);
                }
                0
            },
        };
        let ghost s = e.clip_info(clip_id).1.metadata@;
        let mut p = pos0;
        while p < n
            invariant
                *e == *old(e),
                e.wf(),
                iter_id == self.id(),
                e.is_obj(iter_id, ObjectKind::MetadataIterator),
                e.is_obj(clip_id, ObjectKind::Clip),
                e.iter_info(iter_id) == (clip_id, pos0, false),
                s == e.clip_info(clip_id).1.metadata@,
                n == s.len(),
                pos0 <= p,
                next_index(s, pos0 as int) == next_index(s, p as int),
            decreases n - p,
        {
            let step = read_entry_step(e, clip_id, p);
            match step {
                Advance::Terminate => {
                    proof {
                        assert(entry_terminates(s[p as int]));
                        assert(next_index(s, p as int) is None);
                    }
                    set_iter_state(e, iter_id, clip_id, p, true);
                    return None;
                },
                Advance::Produce(k, v) => {
                    proof {
                        assert(entry_produces(s[p as int]));
                        assert(next_index(s, p as int) == Some(p as int));
                    }
                    set_iter_state(e, iter_id, clip_id, p + 1, false);
                    return Some((k, v));
                },
                Advance::Skip => {
                    proof {
                        assert(!entry_terminates(s[p as int]) && !entry_produces(s[p as int]));
                        assert(next_index(s, p as int) == next_index(s, p + 1 as int));
                    }
                    p = p + 1;
                },
            }
        }
        proof {
            assert(next_index(s, p as int) is None);
        }
        set_iter_state(e, iter_id, clip_id, p, true);
        None
    }

    /// Releases the one reference this wrapper owns.
    pub fn release(self, e: &mut Engine)
        requires
            old(e).aligned(),
            self.valid(*old(e)),
        ensures
            crate::engine::counts_bumped(*old(e), *final(e), self.id() as int, -1),
            final(e).payloads@ == old(e).payloads@,
            crate::engine::misc_same(*old(e), *final(e)),
    {
        self.h.release(e);
    }

    /// The raw slot index of the owned object.
    pub fn raw_id(&self) -> (r: usize)
        ensures
            r == self.id(),
    {
        self.h.raw_id()
    }
}

} // verus!
