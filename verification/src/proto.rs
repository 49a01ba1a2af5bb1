//! A minimal reader of the protobuf wire format: enough to pull singular
//! strings, bytes and varints out of a message by field number.
use crate::outside::utf8_text;
use std::collections::HashMap;
use vstd::arithmetic::power2::{lemma2_to64, lemma_pow2_adds, pow2};
use vstd::prelude::*;
use vstd::slice::slice_subrange;
use vstd::utf8::{decode_utf8, valid_utf8};

verus! {

broadcast use vstd::std_specs::hash::group_hash_axioms;

/// The longest varint that is read, in bytes.
pub const MAX_VARINT_BYTES: usize = 10;

/// Number of bytes of the varint at the front of `buf`: up to and with the
/// first byte whose high bit is clear, which must be one of the first `limit`.
pub open spec fn varint_size(buf: Seq<u8>, limit: nat) -> Option<nat>
    decreases limit,
{
    if limit == 0 || buf.len() == 0 {
        None
    } else if buf[0] < 128 {
        Some(1)
    } else {
        match varint_size(buf.drop_first(), (limit - 1) as nat) {
            Some(n) => Some(n + 1),
            None => None,
        }
    }
}

/// The number that little-endian groups of seven bits spell.
pub open spec fn base128(groups: Seq<u8>) -> nat
    decreases groups.len(),
{
    if groups.len() == 0 {
        0
    } else {
        (groups[0] % 128) as nat + 128 * base128(groups.drop_first())
    }
}

/// The varint at the front of `buf`, modulo the width of a `u64`, and the
/// number of bytes that it takes; `None` where it is cut off or too long.
pub open spec fn leading_varint(buf: Seq<u8>) -> Option<(u64, nat)> {
    match varint_size(buf, MAX_VARINT_BYTES as nat) {
        Some(n) => Some(((base128(buf.take(n as int)) % pow2(64)) as u64, n)),
        None => None,
    }
}

pub proof fn lemma_varint_size(buf: Seq<u8>, limit: nat)
    ensures
        varint_size(buf, limit) matches Some(n) ==> {
            &&& 0 < n <= limit
            &&& n <= buf.len()
            &&& buf[n - 1] < 128
            &&& forall|i: int| 0 <= i < n - 1 ==> buf[i] >= 128
        },
    decreases limit,
{
    if limit > 0 && buf.len() > 0 && buf[0] >= 128 {
        let rest = buf.drop_first();
        lemma_varint_size(rest, (limit - 1) as nat);
        if let Some(n) = varint_size(rest, (limit - 1) as nat) {
            assert(buf[n as int] == rest[n - 1]);
            assert forall|i: int| 0 <= i < n implies buf[i] >= 128 by {
                if i > 0 {
                    assert(buf[i] == rest[i - 1]);
                }
            }
        }
    }
}

/// A run of `k` continuation bytes only moves the question to what follows.
pub proof fn lemma_varint_size_skip(buf: Seq<u8>, limit: nat, k: nat)
    requires
        k <= limit,
        k <= buf.len(),
        forall|i: int| 0 <= i < k ==> buf[i] >= 128,
    ensures
        varint_size(buf, limit) == (match varint_size(buf.skip(k as int), (limit - k) as nat) {
            Some(n) => Some((n + k) as nat),
            None => None,
        }),
    decreases k,
{
    if k == 0 {
        assert(buf.skip(0) =~= buf);
    } else {
        let rest = buf.drop_first();
        assert forall|i: int| 0 <= i < k - 1 implies rest[i] >= 128 by {
            assert(rest[i] == buf[i + 1]);
        }
        lemma_varint_size_skip(rest, (limit - 1) as nat, (k - 1) as nat);
        assert(rest.skip(k - 1) =~= buf.skip(k as int));
    }
}

pub proof fn lemma_base128_push(groups: Seq<u8>, b: u8)
    ensures
        base128(groups.push(b)) == base128(groups) + (b % 128) as nat * pow2(7 * groups.len()),
    decreases groups.len(),
{
    if groups.len() == 0 {
        assert(groups.push(b).drop_first() =~= Seq::<u8>::empty());
        lemma2_to64();
        assert(base128(Seq::<u8>::empty()) == 0);
        assert(pow2(7 * groups.len()) == 1);
    } else {
        assert(groups.push(b)[0] == groups[0]);
        let rest = groups.drop_first();
        lemma_base128_push(rest, b);
        assert(groups.push(b).drop_first() =~= rest.push(b));
        let p = pow2(7 * rest.len());
        assert(pow2(7 * groups.len()) == 128 * p) by {
            lemma_pow2_adds(7, 7 * rest.len());
            lemma2_to64();
        }
        let c = (b % 128) as nat;
        assert(128 * (c * p) == c * (128 * p)) by (nonlinear_arith);
    }
}

proof fn lemma_base128_bound(groups: Seq<u8>)
    ensures
        base128(groups) < pow2(7 * groups.len()),
    decreases groups.len(),
{
    lemma2_to64();
    if groups.len() > 0 {
        let rest = groups.drop_first();
        lemma_base128_bound(rest);
        lemma_pow2_adds(7, 7 * rest.len());
    }
}

/// Setting seven bits above the bits of `acc` adds them at their place.
proof fn lemma_or_at_shift(acc: u64, group: u8, shift: u32)
    requires
        shift <= 63,
        acc < pow2(shift as nat),
    ensures
        acc | (((group & 0x7f) as u64) << shift)
            == (acc + (group % 128) as nat * pow2(shift as nat)) % (pow2(64) as int),
{
    let p: u64 = (group & 0x7f) as u64;
    assert(group & 0x7f == group % 128) by (bit_vector);
    lemma2_to64();
    vstd::arithmetic::power2::lemma2_to64_rest();
    vstd::arithmetic::power2::lemma_pow2_pos(shift as nat);
    assert(pow2(shift as nat) <= pow2(63)) by {
        if shift < 63 {
            vstd::arithmetic::power2::lemma_pow2_strictly_increases(shift as nat, 63);
        }
    }
    let one: u64 = 1u64 << shift;
    assert(one == pow2(shift as nat)) by {
        vstd::bits::lemma_u64_shl_is_mul(1, shift as u64);
    }
    assert(acc | (p << shift) == (acc + p * one) % 0x1_0000_0000_0000_0000) by (bit_vector)
        requires
            one == 1u64 << shift,
            acc < one,
            shift <= 63,
            p < 128,
    ;
    assert(p * one == (group % 128) as nat * pow2(shift as nat)) by (nonlinear_arith)
        requires
            p == group % 128,
            one == pow2(shift as nat),
    ;
}

/// Reads the varint at `start`: its value and the position behind it.
fn read_varint(buf: &[u8], start: usize) -> (r: Option<(u64, usize)>)
    requires
        start <= buf@.len(),
    ensures
        match leading_varint(buf@.skip(start as int)) {
            Some((v, n)) => r == Some((v, (start + n) as usize)) && start + n <= buf@.len(),
            None => r is None,
        },
{
    let ghost rest = buf@.skip(start as int);
    let mut result: u64 = 0;
    let mut i: usize = 0;
    proof {
        lemma2_to64();
        lemma_varint_size(rest, MAX_VARINT_BYTES as nat);
        assert(rest.take(0) =~= Seq::<u8>::empty());
    }
    while i < buf.len() - start
        invariant
            i < MAX_VARINT_BYTES,
            start + i <= buf@.len(),
            rest == buf@.skip(start as int),
            forall|j: int| 0 <= j < i ==> rest[j] >= 128,
            result == base128(rest.take(i as int)),
        decreases buf@.len() - start - i,
    {
        let byte = buf[start + i];
        let shift: u32 = 7 * i as u32;
        proof {
            assert(byte == rest[i as int]);
            assert(rest.take(i + 1) =~= rest.take(i as int).push(byte));
            lemma_base128_bound(rest.take(i as int));
            lemma_base128_push(rest.take(i as int), byte);
            lemma_or_at_shift(result, byte, shift);
            lemma_base128_bound(rest.take(i + 1));
            lemma_varint_size_skip(rest, MAX_VARINT_BYTES as nat, i as nat);
            assert(rest.skip(i as int)[0] == byte);
            assert(byte & 0x80 == 0 <==> byte < 128) by (bit_vector);
        }
        result = result | (((byte & 0x7f) as u64) << shift);
        if byte & 0x80 == 0 {
            return Some((result, start + i + 1));
        }
        i = i + 1;
        if i >= MAX_VARINT_BYTES {
            proof {
                lemma_varint_size_skip(rest, MAX_VARINT_BYTES as nat, i as nat);
            }
            return None;
        }
        proof {
            lemma2_to64();
            vstd::arithmetic::power2::lemma2_to64_rest();
            assert(pow2(7 * i as nat) <= pow2(63)) by {
                if i < 9 {
                    vstd::arithmetic::power2::lemma_pow2_strictly_increases(7 * i as nat, 63);
                }
            }
            let sum = base128(rest.take(i as int));
            assert(rest.take(i as int).len() == i);
            assert(sum < pow2(63));
            assert(sum % pow2(64) == sum);
        }
    }
    proof {
        lemma_varint_size_skip(rest, MAX_VARINT_BYTES as nat, i as nat);
        assert(rest.skip(i as int).len() == 0);
    }
    None
}

/// What one record carries. The fixed-width payloads are only stepped over.
pub enum Payload {
    Varint(u64),
    Fixed64,
    Bytes(Seq<u8>),
    Fixed32,
}

/// One record of a message: a field number and its payload.
pub struct Record {
    pub field: u64,
    pub payload: Payload,
}

/// The record at the front of `buf` and the number of bytes that it takes;
/// `None` where `buf` does not start with a whole record of a known wire type.
pub open spec fn leading_record(buf: Seq<u8>) -> Option<(Record, nat)> {
    match leading_varint(buf) {
        None => None,
        Some((key, n)) => {
            let field = key / 8;
            let rest = buf.skip(n as int);
            if key % 8 == 0 {
                match leading_varint(rest) {
                    Some((v, m)) => Some((Record { field, payload: Payload::Varint(v) }, n + m)),
                    None => None,
                }
            } else if key % 8 == 1 {
                if rest.len() < 8 {
                    None
                } else {
                    Some((Record { field, payload: Payload::Fixed64 }, n + 8))
                }
            } else if key % 8 == 2 {
                match leading_varint(rest) {
                    Some((len, m)) => {
                        let body = rest.skip(m as int);
                        let len = len as usize;
                        if body.len() < len {
                            None
                        } else {
                            Some((
                                Record { field, payload: Payload::Bytes(body.take(len as int)) },
                                n + m + len as nat,
                            ))
                        }
                    },
                    None => None,
                }
            } else if key % 8 == 5 {
                if rest.len() < 4 {
                    None
                } else {
                    Some((Record { field, payload: Payload::Fixed32 }, n + 4))
                }
            } else {
                None
            }
        },
    }
}

pub proof fn lemma_leading_record(buf: Seq<u8>)
    ensures
        leading_record(buf) matches Some((_, n)) ==> 0 < n <= buf.len(),
{
    lemma_varint_size(buf, MAX_VARINT_BYTES as nat);
    if let Some((_, n)) = leading_varint(buf) {
        lemma_varint_size(buf.skip(n as int), MAX_VARINT_BYTES as nat);
    }
}

/// The records of a message, in order. Reading stops, and keeps what it has,
/// at the first place where no whole record follows.
pub open spec fn records(buf: Seq<u8>) -> Seq<Record>
    decreases buf.len(),
{
    match leading_record(buf) {
        Some((r, n)) => if 0 < n <= buf.len() {
            seq![r] + records(buf.skip(n as int))
        } else {
            Seq::empty()
        },
        None => Seq::empty(),
    }
}

/// The last length-delimited payload of `field`.
pub open spec fn last_bytes(rs: Seq<Record>, field: u64) -> Option<Seq<u8>>
    decreases rs.len(),
{
    if rs.len() == 0 {
        None
    } else {
        match rs.last().payload {
            Payload::Bytes(b) if rs.last().field == field => Some(b),
            _ => last_bytes(rs.drop_last(), field),
        }
    }
}

/// The last varint payload of `field`.
pub open spec fn last_varint(rs: Seq<Record>, field: u64) -> Option<u64>
    decreases rs.len(),
{
    if rs.len() == 0 {
        None
    } else {
        match rs.last().payload {
            Payload::Varint(v) if rs.last().field == field => Some(v),
            _ => last_varint(rs.drop_last(), field),
        }
    }
}

/// The text that a field holds, where it holds valid UTF-8.
pub open spec fn field_text(bytes: Option<Seq<u8>>) -> Option<Seq<char>> {
    match bytes {
        Some(b) if valid_utf8(b) => Some(decode_utf8(b)),
        _ => None,
    }
}

/// The length-delimited and varint fields of a message, by field number. Where
/// a field occurs more than once the last value stays.
pub struct ProtoFields {
    ld: HashMap<u64, Vec<u8>>,
    varint: HashMap<u64, u64>,
}

impl ProtoFields {
    /// The bytes that are held for `field`.
    pub closed spec fn spec_bytes(&self, field: u64) -> Option<Seq<u8>> {
        if self.ld@.contains_key(field) {
            Some(self.ld@[field]@)
        } else {
            None
        }
    }

    /// The varint that is held for `field`.
    pub closed spec fn spec_varint(&self, field: u64) -> Option<u64> {
        if self.varint@.contains_key(field) {
            Some(self.varint@[field])
        } else {
            None
        }
    }

    /// Holds, for every field, the last payload among the records `rs`.
    pub open spec fn holds(&self, rs: Seq<Record>) -> bool {
        &&& forall|f: u64| #[trigger] self.spec_bytes(f) == last_bytes(rs, f)
        &&& forall|f: u64| #[trigger] self.spec_varint(f) == last_varint(rs, f)
    }

    /// Reads the fields of the message `buf`. What follows the first
    /// malformed record is not read; everything before it is kept.
    pub fn parse(buf: &[u8]) -> (f: ProtoFields)
        ensures
            f.holds(records(buf@)),
    {
        let mut f = ProtoFields { ld: HashMap::new(), varint: HashMap::new() };
        let mut pos: usize = 0;
        let ghost mut done: Seq<Record> = Seq::empty();
        proof {
            assert(buf@.skip(0) =~= buf@);
            assert(done + records(buf@) =~= records(buf@));
        }
        while pos < buf.len()
            invariant_except_break
                pos <= buf@.len(),
                f.holds(done),
                records(buf@) == done + records(buf@.skip(pos as int)),
            ensures
                f.holds(records(buf@)),
            decreases buf@.len() - pos,
        {
            let ghost rest = buf@.skip(pos as int);
            proof {
                lemma_leading_record(rest);
            }
            let (key, after_key) = match read_varint(buf, pos) {
                Some(kv) => kv,
                None => {
                    assert(records(buf@) =~= done);
                    break;
                },
            };
            let field: u64 = key >> 3;
            let wire: u64 = key & 7;
            proof {
                assert(key >> 3 == key / 8 && key & 7 == key % 8) by (bit_vector);
                assert(rest.skip(after_key - pos) =~= buf@.skip(after_key as int));
            }
            if wire == 0 {
                match read_varint(buf, after_key) {
                    Some((v, end)) => {
                        let ghost before = f;
                        f.varint.insert(field, v);
                        let ghost r = Record { field, payload: Payload::Varint(v) };
                        proof {
                            step(buf@, pos as int, end as int, done, r);
                            lemma_holds_varint(before, f, done, r);
                            done = done.push(r);
                        }
                        pos = end;
                    },
                    None => {
                        assert(records(buf@) =~= done);
                        break;
                    },
                }
            } else if wire == 1 {
                if buf.len() - after_key < 8 {
                    assert(records(buf@) =~= done);
                    break;
                }
                proof {
                    let r = Record { field, payload: Payload::Fixed64 };
                    step(buf@, pos as int, after_key + 8, done, r);
                    lemma_holds_skipped(f, done, r);
                    done = done.push(r);
                }
                pos = after_key + 8;
            } else if wire == 2 {
                let (len, start) = match read_varint(buf, after_key) {
                    Some(lv) => lv,
                    None => {
                        assert(records(buf@) =~= done);
                        break;
                    },
                };
                let len = len as usize;
                proof {
                    assert(buf@.skip(after_key as int).skip(start - after_key) =~= buf@.skip(
                        start as int,
                    ));
                }
                if buf.len() - start < len {
                    assert(records(buf@) =~= done);
                    break;
                }
                let bytes = vstd::slice::slice_to_vec(slice_subrange(buf, start, start + len));
                let ghost before = f;
                let ghost r = Record { field, payload: Payload::Bytes(bytes@) };
                f.ld.insert(field, bytes);
                proof {
                    assert(bytes@ =~= buf@.skip(start as int).take(len as int));
                    step(buf@, pos as int, start + len, done, r);
                    lemma_holds_bytes(before, f, done, r);
                    done = done.push(r);
                }
                pos = start + len;
            } else if wire == 5 {
                if buf.len() - after_key < 4 {
                    assert(records(buf@) =~= done);
                    break;
                }
                proof {
                    let r = Record { field, payload: Payload::Fixed32 };
                    step(buf@, pos as int, after_key + 4, done, r);
                    lemma_holds_skipped(f, done, r);
                    done = done.push(r);
                }
                pos = after_key + 4;
            } else {
                assert(records(buf@) =~= done);
                break;
            }
        }
        f
    }

    /// The bytes of a length-delimited field.
    pub fn bytes(&self, field: u64) -> (r: Option<&[u8]>)
        ensures
            match r {
                Some(b) => self.spec_bytes(field) == Some(b@),
                None => self.spec_bytes(field) is None,
            },
    {
        match self.ld.get(&field) {
            Some(v) => Some(v.as_slice()),
            None => None,
        }
    }

    /// The text of a length-delimited field; `None` also where it is not UTF-8.
    pub fn string(&self, field: u64) -> (r: Option<String>)
        ensures
            match r {
                Some(s) => field_text(self.spec_bytes(field)) == Some(s@),
                None => field_text(self.spec_bytes(field)) is None,
            },
    {
        match self.ld.get(&field) {
            Some(v) => utf8_text(v.as_slice()),
            None => None,
        }
    }

    /// The number of a varint field.
    pub fn get_varint(&self, field: u64) -> (r: Option<u64>)
        ensures
            r == self.spec_varint(field),
    {
        match self.varint.get(&field) {
            Some(v) => Some(*v),
            None => None,
        }
    }
}

/// One turn of the reading loop, over record sequences.
proof fn step(buf: Seq<u8>, pos: int, end: int, done: Seq<Record>, r: Record)
    requires
        0 <= pos < end <= buf.len(),
        leading_record(buf.skip(pos)) == Some((r, (end - pos) as nat)),
        records(buf) == done + records(buf.skip(pos)),
    ensures
        records(buf) == done.push(r) + records(buf.skip(end)),
{
    assert(buf.skip(pos).skip(end - pos) =~= buf.skip(end));
    assert(done + (seq![r] + records(buf.skip(end))) =~= done.push(r) + records(buf.skip(end)));
}

proof fn lemma_holds_skipped(f: ProtoFields, done: Seq<Record>, r: Record)
    requires
        f.holds(done),
        r.payload is Fixed64 || r.payload is Fixed32,
    ensures
        f.holds(done.push(r)),
{
    assert(done.push(r).drop_last() =~= done);
}

proof fn lemma_holds_varint(before: ProtoFields, after: ProtoFields, done: Seq<Record>, r: Record)
    requires
        before.holds(done),
        r.payload is Varint,
        after.ld@ == before.ld@,
        after.varint@ == before.varint@.insert(r.field, r.payload->Varint_0),
    ensures
        after.holds(done.push(r)),
{
    assert(done.push(r).drop_last() =~= done);
    assert forall|f: u64| #[trigger] after.spec_bytes(f) == last_bytes(done.push(r), f) by {
        assert(before.spec_bytes(f) == last_bytes(done, f));
    }
    assert forall|f: u64| #[trigger] after.spec_varint(f) == last_varint(done.push(r), f) by {
        assert(before.spec_varint(f) == last_varint(done, f));
    }
}

proof fn lemma_holds_bytes(before: ProtoFields, after: ProtoFields, done: Seq<Record>, r: Record)
    requires
        before.holds(done),
        r.payload is Bytes,
        after.varint@ == before.varint@,
        after.ld@.dom() == before.ld@.dom().insert(r.field),
        forall|f: u64| f != r.field ==> after.ld@[f] == before.ld@[f],
        after.ld@[r.field]@ == r.payload->Bytes_0,
    ensures
        after.holds(done.push(r)),
{
    assert(done.push(r).drop_last() =~= done);
    assert forall|f: u64| #[trigger] after.spec_bytes(f) == last_bytes(done.push(r), f) by {
        assert(before.spec_bytes(f) == last_bytes(done, f));
    }
    assert forall|f: u64| #[trigger] after.spec_varint(f) == last_varint(done.push(r), f) by {
        assert(before.spec_varint(f) == last_varint(done, f));
    }
}

} // verus!
