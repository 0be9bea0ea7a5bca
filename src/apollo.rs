use vstd::prelude::*;

use prost::encoding::{DecodeContext, WireType};
use prost::DecodeError;
use vstd::string::StringExecFns;

verus! {

#[verifier::external_type_specification]
#[verifier::external_body]
pub struct ExDecodeError(prost::DecodeError);

/// Start of the message of every error that reading an Apollo map gives.
pub const DECODE_FAILURE_PREFIX: &'static str = "Failed to decode Apollo map: ";

/// Value and length of the LEB128 number at the start of `b`, reading at
/// most `limit` bytes: seven bits per byte, low bits first, every byte but
/// the last with its top bit set.
pub open spec fn leb128(b: Seq<u8>, limit: nat) -> Option<(int, int)>
    decreases limit,
{
    if limit == 0 || b.len() == 0 {
        None
    } else if b[0] < 128 {
        Some((b[0] as int, 1int))
    } else {
        match leb128(b.drop_first(), (limit - 1) as nat) {
            Some((v, n)) => Some(((b[0] - 128) + 128 * v, n + 1)),
            None => None,
        }
    }
}

/// A protobuf varint at the start of `b`: at most ten bytes, with a value
/// that fits in 64 bits.
pub open spec fn spec_varint(b: Seq<u8>) -> Option<(int, int)> {
    match leb128(b, 10) {
        Some((v, n)) => if v <= u64::MAX {
            Some((v, n))
        } else {
            None
        },
        None => None,
    }
}

/// A field key at the start of `b`: a varint that fits in 32 bits, whose
/// low three bits are a wire type from 0 to 5 and whose other bits are a
/// tag of at least 1. The result is the tag, the wire type and the key's
/// length.
pub open spec fn spec_key(b: Seq<u8>) -> Option<(int, int, int)> {
    match spec_varint(b) {
        Some((k, n)) => if k <= u32::MAX && k % 8 <= 5 && k / 8 >= 1 {
            Some((k / 8, k % 8, n))
        } else {
            None
        },
        None => None,
    }
}

/// Length of a value of wire type `wire` (other than a group) at the start of
/// `b`: a varint, eight bytes, a varint length and that many bytes, or four
/// bytes. A stray end-of-group key has no value.
pub open spec fn spec_value_len(wire: int, b: Seq<u8>) -> Option<int> {
    if wire == 0 {
        match spec_varint(b) {
            Some((_, n)) => Some(n),
            None => None,
        }
    } else if wire == 1 {
        if b.len() >= 8 {
            Some(8)
        } else {
            None
        }
    } else if wire == 2 {
        match spec_varint(b) {
            Some((l, n)) => if n + l <= b.len() {
                Some(n + l)
            } else {
                None
            },
            None => None,
        }
    } else if wire == 5 {
        if b.len() >= 4 {
            Some(4)
        } else {
            None
        }
    } else {
        None
    }
}

/// A LEB128 number is not negative and takes one byte at least, and
/// `limit` bytes and the whole buffer at most.
pub proof fn lemma_leb128_len(b: Seq<u8>, limit: nat)
    ensures
        leb128(b, limit) matches Some((v, n)) ==> 0 <= v && 1 <= n <= limit && n <= b.len(),
    decreases limit,
{
    if limit > 0 && b.len() > 0 && b[0] >= 128 {
        lemma_leb128_len(b.drop_first(), (limit - 1) as nat);
    }
}

/// A field key takes one to ten bytes of the buffer.
pub proof fn lemma_key_len(b: Seq<u8>)
    ensures
        spec_key(b) matches Some((_, _, n)) ==> 1 <= n <= 10 && n <= b.len(),
{
    lemma_leb128_len(b, 10);
}

/// Relies on `prost::encoding::decode_key`: it reads the key varint and
/// succeeds exactly on a valid key (see `spec_key`). On success the result
/// holds the tag, the wire type's number, and how many bytes follow the key.
#[verifier::external_body]
fn read_key(rest: &[u8]) -> (r: Result<(u32, u8, usize), DecodeError>)
    ensures
        r is Ok <==> spec_key(rest@) is Some,
        r is Ok ==> {
            let (tag, wire, left) = r->Ok_0;
            let k = spec_key(rest@)->0;
            tag == k.0 && wire == k.1 && left == rest@.len() - k.2
        },
{
    let mut cursor = rest;
    let (tag, wire_type) = prost::encoding::decode_key(&mut cursor)?;
    Ok((tag, wire_type as u8, cursor.len()))
}

/// Relies on `prost::encoding::skip_field`: it steps over the value of one
/// field and fails rather than read past the end. For every wire type but a
/// group it succeeds exactly when `spec_value_len` gives a length, and steps
/// over that many bytes; a group it steps over up to its end key. On success
/// the result is how many bytes follow the value.
#[verifier::external_body]
fn skip_value(wire: u8, tag: u32, rest: &[u8]) -> (r: Result<usize, DecodeError>)
    requires
        wire <= 5,
    ensures
        wire != 3 ==> (r is Ok <==> spec_value_len(wire as int, rest@) is Some),
        wire != 3 && r is Ok ==> r->Ok_0 == rest@.len() - spec_value_len(wire as int, rest@)->0,
        r is Ok ==> r->Ok_0 <= rest@.len(),
{
    let wire_type = match wire {
        0 => WireType::Varint,
        1 => WireType::SixtyFourBit,
        2 => WireType::LengthDelimited,
        3 => WireType::StartGroup,
        4 => WireType::EndGroup,
        _ => WireType::ThirtyTwoBit,
    };
    let mut cursor = rest;
    prost::encoding::skip_field(wire_type, tag, &mut cursor, DecodeContext::default())?;
    Ok(cursor.len())
}

/// One top-level field of an encoded Apollo map: its tag, its wire type, and
/// the bytes `start..end` that hold its key and value.
#[derive(Clone, Copy, Debug, PartialEq, Eq, Structural)]
pub struct ApolloField {
    pub tag: u32,
    pub wire_type: u8,
    pub start: usize,
    pub end: usize,
}

/// How the top-level framing of a buffer reads.
pub enum Framing {
    /// Every field is well formed; these are the fields, in order.
    Fields(Seq<ApolloField>),
    /// A key or a value is malformed or runs past the end.
    Malformed,
    /// A group is met before either, whose extent the decoder settles.
    Group,
}

/// `fs` followed by the fields of `f`, if `f` reads as fields.
pub open spec fn prepend(fs: Seq<ApolloField>, f: Framing) -> Framing {
    match f {
        Framing::Fields(g) => Framing::Fields(fs + g),
        Framing::Malformed => Framing::Malformed,
        Framing::Group => Framing::Group,
    }
}

/// The top-level framing of `b` from position `pos` on.
pub open spec fn frames_from(b: Seq<u8>, pos: int) -> Framing
    decreases b.len() - pos,
    via frames_from_decreases
{
    if pos < 0 || pos >= b.len() {
        Framing::Fields(Seq::empty())
    } else {
        let rest = b.subrange(pos, b.len() as int);
        match spec_key(rest) {
            None => Framing::Malformed,
            Some((tag, wire, kn)) => if wire == 3 {
                Framing::Group
            } else {
                match spec_value_len(wire, rest.subrange(kn, rest.len() as int)) {
                    None => Framing::Malformed,
                    Some(vn) => {
                        let end = pos + kn + vn;
                        let field = ApolloField {
                            tag: tag as u32,
                            wire_type: wire as u8,
                            start: pos as usize,
                            end: end as usize,
                        };
                        prepend(seq![field], frames_from(b, end))
                    },
                }
            },
        }
    }
}

#[via_fn]
proof fn frames_from_decreases(b: Seq<u8>, pos: int) {
    if 0 <= pos < b.len() {
        let rest = b.subrange(pos, b.len() as int);
        lemma_key_len(rest);
        match spec_key(rest) {
            Some((_, wire, kn)) => {
                let after = rest.subrange(kn, rest.len() as int);
                lemma_leb128_len(after, 10);
            },
            None => {},
        }
    }
}

/// The top-level framing of a whole buffer.
pub open spec fn spec_frames(b: Seq<u8>) -> Framing {
    frames_from(b, 0)
}

/// `fields` cut the first `len` bytes into consecutive, non-empty records,
/// each with a valid tag and wire type.
pub open spec fn tiles(fields: Seq<ApolloField>, len: int) -> bool {
    &&& fields.len() == 0 ==> len == 0
    &&& fields.len() > 0 ==> fields[0].start == 0 && fields.last().end == len
    &&& forall|k: int|
        0 <= k < fields.len() ==> {
            &&& (#[trigger] fields[k]).start < fields[k].end
            &&& fields[k].tag >= 1
            &&& fields[k].wire_type <= 5
        }
    &&& forall|k: int| 0 <= k < fields.len() - 1 ==> (#[trigger] fields[k]).end == fields[k + 1].start
}

/// An Apollo HD map, split into the top-level fields of its protobuf message.
/// The fields are kept as encoded; nested messages are not read.
#[derive(Clone, Debug)]
pub struct ApolloMap {
    fields: Vec<ApolloField>,
}

impl ApolloMap {
    pub closed spec fn spec_fields(&self) -> Seq<ApolloField> {
        self.fields@
    }

    /// The top-level fields, in the order they are encoded.
    pub fn fields(&self) -> (r: &[ApolloField])
        ensures
            r@ == self.spec_fields(),
    {
        self.fields.as_slice()
    }
}

/// Splits an encoded Apollo map into its top-level fields. A buffer whose
/// framing is well formed gives exactly its fields; a malformed one gives the
/// decoder's error. Where a group comes first, the decoder settles the
/// outcome; a success still tiles the whole buffer. Nested messages are not
/// checked.
pub fn parse_apollo_map_internal(buf: &[u8]) -> (r: Result<ApolloMap, DecodeError>)
    ensures
        spec_frames(buf@) matches Framing::Fields(fs) ==> r is Ok && r->Ok_0.spec_fields() == fs,
        spec_frames(buf@) is Malformed ==> r is Err,
        r is Ok ==> tiles(r->Ok_0.spec_fields(), buf@.len() as int),
{
    let mut fields: Vec<ApolloField> = Vec::new();
    let mut pos: usize = 0;
    while pos < buf.len()
        invariant
            pos <= buf@.len(),
            tiles(fields@, pos as int),
            spec_frames(buf@) is Group || spec_frames(buf@) == prepend(
                fields@,
                frames_from(buf@, pos as int),
            ),
        decreases buf@.len() - pos,
    {
        let ghost b = buf@;
        let rest = slice_from(buf, pos);
        proof {
            lemma_key_len(rest@);
        }
        let (tag, wire, after_key) = match read_key(rest) {
            Ok(k) => k,
            Err(e) => return Err(e),
        };
        let value_start = buf.len() - after_key;
        let after = slice_from(buf, value_start);
        let ghost kn = rest@.len() - after_key;
        assert(after@ == rest@.subrange(kn, rest@.len() as int));
        let after_value = match skip_value(wire, tag, after) {
            Ok(n) => n,
            Err(e) => return Err(e),
        };
        let end = buf.len() - after_value;
        let ghost before = fields@;
        let field = ApolloField { tag, wire_type: wire, start: pos, end };
        fields.push(field);
        proof {
            assert(forall|k: int| 0 <= k < before.len() ==> fields@[k] == before[k]);
            assert forall|k: int| 0 <= k < fields@.len() - 1 implies (#[trigger] fields@[k]).end
                == fields@[k + 1].start by {
                if k < before.len() - 1 {
                    assert(fields@[k] == before[k] && fields@[k + 1] == before[k + 1]);
                }
            }
            if wire != 3 {
                assert(frames_from(b, pos as int) == prepend(seq![field], frames_from(b, end as int)));
                assert(before + (seq![field] + Seq::<ApolloField>::empty()) == fields@ + Seq::<ApolloField>::empty());
                match frames_from(b, end as int) {
                    Framing::Fields(g) => {
                        assert(before + (seq![field] + g) == fields@ + g);
                    },
                    _ => {},
                }
            }
        }
        pos = end;
    }
    assert(fields@ + Seq::<ApolloField>::empty() == fields@);
    Ok(ApolloMap { fields })
}

/// The bytes of `buf` from position `from` on.
fn slice_from(buf: &[u8], from: usize) -> (r: &[u8])
    requires
        from <= buf@.len(),
    ensures
        r@ == buf@.subrange(from as int, buf@.len() as int),
{
    vstd::slice::slice_subrange(buf, from, buf.len())
}

/// Reads an encoded Apollo map into its top-level fields, as
/// `parse_apollo_map_internal` does; an error becomes its message, after
/// `DECODE_FAILURE_PREFIX`. Nested messages are not checked.
pub fn parse_apollo_map(buf: &[u8]) -> (r: Result<ApolloMap, String>)
    ensures
        spec_frames(buf@) matches Framing::Fields(fs) ==> r is Ok && r->Ok_0.spec_fields() == fs,
        spec_frames(buf@) is Malformed ==> r is Err,
        r is Ok ==> tiles(r->Ok_0.spec_fields(), buf@.len() as int),
        r is Err ==> r->Err_0@.len() >= DECODE_FAILURE_PREFIX@.len()
            && r->Err_0@.subrange(0, DECODE_FAILURE_PREFIX@.len() as int)
            == DECODE_FAILURE_PREFIX@,
{
    match parse_apollo_map_internal(buf) {
        Ok(map) => Ok(map),
        Err(e) => {
            let message = e.to_string();
            let full = DECODE_FAILURE_PREFIX.to_owned().concat(message.as_str());
            assert(full@.subrange(0, DECODE_FAILURE_PREFIX@.len() as int) == DECODE_FAILURE_PREFIX@);
            Err(full)
        },
    }
}

} // verus!
