//! The self-describing value decoder.
//!
//! The engine exposes metadata as tagged payloads: a runtime type tag plus a
//! union of scalar storage, a string buffer, or a bounded array descriptor.
//! This module turns such a payload into a closed sum type ([`Value`]) with
//! one variant per concrete kind, with an explicit "unrecognized tag"
//! outcome instead of a crash.

use vstd::prelude::*;
use crate::status::Error;

verus! {

/// The bit pattern of a 32-bit IEEE 754 floating point value. The core never
/// interprets the bits; they are carried through verbatim.
#[derive(Clone, Copy, Debug, PartialEq, Eq, Structural)]
pub struct Float32(pub u32);

/// Tag of an empty payload.
pub const TAG_EMPTY: u32 = 0;

/// Tag of a signed 16-bit scalar.
pub const TAG_S16: u32 = 2;

/// Tag of a signed 32-bit scalar.
pub const TAG_S32: u32 = 3;

/// Tag of a 32-bit floating point scalar, carried as its bit pattern.
pub const TAG_FLOAT32: u32 = 4;

/// Tag of a string payload.
pub const TAG_STRING: u32 = 8;

/// Tag of an unsigned 8-bit scalar.
pub const TAG_U8: u32 = 17;

/// Tag of an unsigned 16-bit scalar.
pub const TAG_U16: u32 = 18;

/// Tag of an unsigned 32-bit scalar.
pub const TAG_U32: u32 = 19;

/// Tag of a bounded homogeneous array payload.
pub const TAG_SAFE_ARRAY: u32 = 27;

/// A decoded metadata value: a tagged union over the six scalar kinds, an
/// owned UTF-8 string, and a flat homogeneous array of scalar values.
#[derive(Debug, PartialEq)]
pub enum Value {
    UInt8(u8),
    Int16(i16),
    UInt16(u16),
    Int32(i32),
    UInt32(u32),
    Float(Float32),
    Text(String),
    Array(Vec<Value>),
}

/// Whether a tag names one of the six scalar kinds.
pub open spec fn is_scalar_tag(tag: u32) -> bool {
    ||| tag == TAG_U8
    ||| tag == TAG_S16
    ||| tag == TAG_U16
    ||| tag == TAG_S32
    ||| tag == TAG_U32
    ||| tag == TAG_FLOAT32
}

/// The low 16 bits of a storage cell read as a two's complement signed value.
pub open spec fn spec_bits_to_i16(bits: u32) -> i16 {
    let b = bits % 0x10000;
    if b < 0x8000 {
        b as i16
    } else {
        (b - 0x10000) as i16
    }
}

/// A full storage cell read as a two's complement signed value.
pub open spec fn spec_bits_to_i32(bits: u32) -> i32 {
    if bits < 0x80000000 {
        bits as i32
    } else {
        ((bits as int) - 0x100000000) as i32
    }
}

/// The scalar value denoted by a storage cell under a scalar tag: the cell's
/// low bits reinterpreted as the tagged type.
pub open spec fn spec_scalar_value(tag: u32, bits: u32) -> Value {
    if tag == TAG_U8 {
        Value::UInt8((bits % 0x100) as u8)
    } else if tag == TAG_S16 {
        Value::Int16(spec_bits_to_i16(bits))
    } else if tag == TAG_U16 {
        Value::UInt16((bits % 0x10000) as u16)
    } else if tag == TAG_S32 {
        Value::Int32(spec_bits_to_i32(bits))
    } else if tag == TAG_U32 {
        Value::UInt32(bits)
    } else {
        Value::Float(Float32(bits))
    }
}

/// What `decode_scalar` yields: the reinterpreted scalar for one of the six
/// scalar tags, and no value for every other tag.
pub open spec fn spec_decode_scalar(tag: u32, bits: u32) -> Option<Value> {
    if is_scalar_tag(tag) {
        Some(spec_scalar_value(tag, bits))
    } else {
        None
    }
}

/// A bounded homogeneous array descriptor, as the engine hands it out: an
/// element type tag, inclusive lower and upper index bounds, one 32-bit
/// storage cell per element, the status each descriptor operation would
/// report, and the lock bookkeeping of the backing storage.
pub struct SafeArray {
    /// The type tag of every element.
    pub element_tag: u32,
    /// Inclusive lower index bound.
    pub lower_bound: i32,
    /// Inclusive upper index bound.
    pub upper_bound: i32,
    /// Raw element storage, one 32-bit cell per element, in index order.
    pub data: Vec<u32>,
    /// Status reported when reading the element type tag.
    pub vartype_status: i32,
    /// Status reported when reading the upper bound.
    pub upper_bound_status: i32,
    /// Status reported when reading the lower bound.
    pub lower_bound_status: i32,
    /// Status reported when taking the locked view of the storage.
    pub access_status: i32,
    /// Status reported when releasing the locked view.
    pub unaccess_status: i32,
    /// Locks currently outstanding on the storage.
    pub lock_count: u32,
    /// Locks ever taken on the storage.
    pub locks_taken: u64,
    /// Locks ever released on the storage.
    pub unlocks_taken: u64,
}

impl SafeArray {
    /// A coherent descriptor: the inclusive bounds span exactly the stored
    /// elements.
    pub open spec fn wf(self) -> bool {
        self.upper_bound - self.lower_bound + 1 == self.data@.len()
    }

    /// Room in the lock counters for one more paired lock and unlock.
    pub open spec fn lock_room(self) -> bool {
        &&& self.lock_count < u32::MAX
        &&& self.locks_taken < u64::MAX
        &&& self.unlocks_taken < u64::MAX
    }

    /// The descriptor's identity: everything but the lock bookkeeping.
    pub open spec fn same_descriptor(self, other: SafeArray) -> bool {
        &&& self.element_tag == other.element_tag
        &&& self.lower_bound == other.lower_bound
        &&& self.upper_bound == other.upper_bound
        &&& self.data@ == other.data@
        &&& self.vartype_status == other.vartype_status
        &&& self.upper_bound_status == other.upper_bound_status
        &&& self.lower_bound_status == other.lower_bound_status
        &&& self.access_status == other.access_status
        &&& self.unaccess_status == other.unaccess_status
    }
}

/// The first failing status a descriptor read reports, checked in the order
/// the decoder performs the reads: element tag, upper bound, lower bound,
/// then the lock. Zero when every read succeeds.
pub open spec fn spec_array_read_status(a: SafeArray) -> i32 {
    if a.vartype_status != 0 {
        a.vartype_status
    } else if a.upper_bound_status != 0 {
        a.upper_bound_status
    } else if a.lower_bound_status != 0 {
        a.lower_bound_status
    } else if a.access_status != 0 {
        a.access_status
    } else {
        0
    }
}

/// The element sequence an array descriptor decodes to under a scalar tag.
pub open spec fn spec_decoded_elems(tag: u32, data: Seq<u32>) -> Seq<Value> {
    data.map_values(|bits: u32| spec_scalar_value(tag, bits))
}

/// A self-describing native value: a runtime type tag plus the storage the
/// tag selects — a 32-bit scalar cell, a string buffer, or a bounded array
/// descriptor. Produced by the engine, consumed read-only by the decoder
/// (only the array's lock bookkeeping moves).
pub struct Variant {
    /// The runtime type tag.
    pub tag: u32,
    /// The raw 32-bit scalar storage cell.
    pub scalar: u32,
    /// The string storage, already copied out of the engine's buffer.
    pub text: String,
    /// The bounded array descriptor, present when the tag selects it.
    pub array: Option<SafeArray>,
}

impl Variant {
    /// A coherent payload: when the tag selects the array storage, a
    /// coherent descriptor with room in its lock counters is present.
    pub open spec fn wf(self) -> bool {
        self.tag == TAG_SAFE_ARRAY ==> (self.array matches Some(a) && a.wf() && a.lock_room())
    }
}

/// The self-describing value decoder: a total mapping from engine payloads
/// to [`Value`], with an explicit "no value" outcome for unrecognized tags.
pub struct VariantDecoder;

impl VariantDecoder {
    /// Maps a scalar tag and its raw storage cell to the corresponding
    /// scalar variant; an unrecognized tag yields no value (callers treat
    /// that as "skip this entry", not as an error).
    pub fn decode_scalar(tag: u32, bits: u32) -> (r: Option<Value>)
        ensures
            r == spec_decode_scalar(tag, bits),
    {
        if tag == TAG_U8 || tag == TAG_S16 || tag == TAG_U16 || tag == TAG_S32 || tag == TAG_U32
            || tag == TAG_FLOAT32 {
            Some(Self::scalar_from_bits(tag, bits))
        } else {
            None
        }
    }

    /// Reinterprets one raw storage cell under a scalar tag.
    pub fn scalar_from_bits(tag: u32, bits: u32) -> (v: Value)
        requires
            is_scalar_tag(tag),
        ensures
            v == spec_scalar_value(tag, bits),
    {
        if tag == TAG_U8 {
            Value::UInt8((bits % 0x100) as u8)
        } else if tag == TAG_S16 {
            let b: u32 = bits % 0x10000;
            if b < 0x8000 {
                Value::Int16(b as i16)
            } else {
                Value::Int16(-((0x10000u32 - b) as i32) as i16)
            }
        } else if tag == TAG_U16 {
            Value::UInt16((bits % 0x10000) as u16)
        } else if tag == TAG_S32 {
            if bits < 0x80000000 {
                Value::Int32(bits as i32)
            } else {
                Value::Int32((-(((0xFFFFFFFFu32 - bits) as i64) + 1)) as i32)
            }
        } else if tag == TAG_U32 {
            Value::UInt32(bits)
        } else {
            Value::Float(Float32(bits))
        }
    }

    /// Decodes a bounded array descriptor.
    ///
    /// Reads the element tag and the inclusive bounds (`count = upper -
    /// lower + 1`), takes the locked view of the backing storage, copies the
    /// cells out as scalar values, and releases the view. The lock and
    /// unlock are paired unconditionally: whenever the lock is taken it is
    /// released again, also when the decoder then fails or yields no value.
    /// An element tag outside the six scalar kinds yields `Ok(None)`.
    pub fn decode_array(arr: &mut SafeArray) -> (r: Result<Option<Value>, Error>)
        requires
            old(arr).wf(),
            old(arr).lock_room(),
        ensures
            final(arr).same_descriptor(*old(arr)),
            final(arr).lock_count == old(arr).lock_count,
            final(arr).locks_taken == old(arr).locks_taken + (
                if spec_array_read_status(*old(arr)) == 0 {
                    1int
                } else {
                    0int
                }
            ),
            final(arr).unlocks_taken == old(arr).unlocks_taken + (
                if spec_array_read_status(*old(arr)) == 0 {
                    1int
                } else {
                    0int
                }
            ),
            spec_array_read_status(*old(arr)) != 0 ==> r == Result::<Option<Value>, Error>::Err(
                Error { result: spec_array_read_status(*old(arr)) },
            ),
            spec_array_read_status(*old(arr)) == 0 && old(arr).unaccess_status != 0 ==> r
                == Result::<Option<Value>, Error>::Err(Error { result: old(arr).unaccess_status }),
            spec_array_read_status(*old(arr)) == 0 && old(arr).unaccess_status == 0 && !is_scalar_tag(
                old(arr).element_tag,
            ) ==> r == Result::<Option<Value>, Error>::Ok(None::<Value>),
            spec_array_read_status(*old(arr)) == 0 && old(arr).unaccess_status == 0 && is_scalar_tag(
                old(arr).element_tag,
            ) ==> (r matches Ok(Some(Value::Array(vs))) && vs@ == spec_decoded_elems(
                old(arr).element_tag,
                old(arr).data@,
            )),
    {
        if arr.vartype_status != 0 {
            return Err(Error { result: arr.vartype_status });
        }
        let tag = arr.element_tag;

        if arr.upper_bound_status != 0 {
            return Err(Error { result: arr.upper_bound_status });
        }
        let upper = arr.upper_bound;

        if arr.lower_bound_status != 0 {
            return Err(Error { result: arr.lower_bound_status });
        }
        let lower = arr.lower_bound;

        let len: usize = arr.data.len();
        proof {
            assert(upper - lower + 1 == len as int);
        }

        if arr.access_status != 0 {
            return Err(Error { result: arr.access_status });
        }
        arr.lock_count = arr.lock_count + 1;
        arr.locks_taken = arr.locks_taken + 1;

        let ret: Option<Value> = if tag == TAG_U8 || tag == TAG_S16 || tag == TAG_U16 || tag
            == TAG_S32 || tag == TAG_U32 || tag == TAG_FLOAT32 {
            let mut vals: Vec<Value> = Vec::new();
            let mut i: usize = 0;
            while i < len
                invariant
                    i <= len,
                    len == arr.data@.len(),
                    is_scalar_tag(tag),
                    vals@.len() == i,
                    forall|j: int|
                        0 <= j < i ==> vals@[j] == spec_scalar_value(tag, arr.data@[j]),
                decreases len - i,
            {
                vals.push(Self::scalar_from_bits(tag, arr.data[i]));
                i = i + 1;
            }
            proof {
                assert(vals@ =~= spec_decoded_elems(tag, arr.data@));
            }
            Some(Value::Array(vals))
        } else {
            None
        };

        arr.lock_count = arr.lock_count - 1;
        arr.unlocks_taken = arr.unlocks_taken + 1;
        if arr.unaccess_status != 0 {
            return Err(Error { result: arr.unaccess_status });
        }

        Ok(ret)
    }
}

} // verus!
