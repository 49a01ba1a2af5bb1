//! What holds of the wire-format reader on every message: it gives back what
//! was written, later values replace earlier ones, and a damaged tail does not
//! touch what stands before it.
use crate::proto::{
    base128, last_bytes, last_varint, leading_record, leading_varint, lemma_leading_record,
    lemma_base128_push, lemma_varint_size, lemma_varint_size_skip, records, varint_size, Payload,
    ProtoFields, Record, MAX_VARINT_BYTES,
};
use vstd::arithmetic::power2::{lemma2_to64, lemma_pow2_adds, pow2};
use vstd::prelude::*;
use vstd::utf8::{decode_utf8, valid_utf8};

verus! {

/// A number as a varint: groups of seven bits, the lowest first, with the high
/// bit set on all but the last.
pub open spec fn varint_bytes(v: nat) -> Seq<u8>
    decreases v,
{
    if v < 128 {
        seq![v as u8]
    } else {
        seq![(v % 128 + 128) as u8] + varint_bytes(v / 128)
    }
}

/// A record that has a canonical encoding here.
pub open spec fn writable(r: Record) -> bool {
    &&& r.field * 8 + 7 <= u64::MAX
    &&& match r.payload {
        Payload::Varint(_) => true,
        Payload::Bytes(b) => b.len() <= usize::MAX,
        _ => false,
    }
}

/// A record as bytes: the key, then the payload.
pub open spec fn record_bytes(r: Record) -> Seq<u8> {
    match r.payload {
        Payload::Varint(v) => varint_bytes((r.field * 8) as nat) + varint_bytes(v as nat),
        Payload::Bytes(b) => varint_bytes((r.field * 8 + 2) as nat) + (varint_bytes(b.len()) + b),
        _ => Seq::empty(),
    }
}

/// A message: its records one after the other.
pub open spec fn message(rs: Seq<Record>) -> Seq<u8>
    decreases rs.len(),
{
    if rs.len() == 0 {
        Seq::empty()
    } else {
        record_bytes(rs[0]) + message(rs.drop_first())
    }
}

/// Whether reading gets to the very end of `buf`.
pub open spec fn whole(buf: Seq<u8>) -> bool
    decreases buf.len(),
{
    buf.len() == 0 || match leading_record(buf) {
        Some((_, n)) => 0 < n <= buf.len() && whole(buf.skip(n as int)),
        None => false,
    }
}

proof fn lemma_varint_size_written(v: nat, tail: Seq<u8>, limit: nat)
    requires
        limit > 0,
        v < pow2(7 * limit),
    ensures
        varint_size(varint_bytes(v) + tail, limit) == Some(varint_bytes(v).len()),
        base128(varint_bytes(v)) == v,
    decreases v,
{
    lemma2_to64();
    let buf = varint_bytes(v) + tail;
    if v < 128 {
        assert(base128(varint_bytes(v).drop_first()) == 0);
        assert(buf[0] == v as u8);
    } else {
        let rest = varint_bytes(v / 128);
        assert(pow2(7 * limit) == 128 * pow2(7 * (limit - 1) as nat)) by {
            lemma_pow2_adds(7, 7 * (limit - 1) as nat);
        }
        lemma_varint_size_written(v / 128, tail, (limit - 1) as nat);
        assert(buf.drop_first() =~= rest + tail);
        assert(varint_bytes(v).drop_first() =~= rest);
        assert(((v % 128 + 128) as u8) % 128 == v % 128);
    }
}

/// A varint is read back as it was written, whatever follows it.
pub proof fn law_varint_round_trip(v: u64, tail: Seq<u8>)
    ensures
        leading_varint(varint_bytes(v as nat) + tail) == Some(
            (v, varint_bytes(v as nat).len()),
        ),
{
    let w = varint_bytes(v as nat);
    lemma2_to64();
    assert(pow2(70) > v) by {
        lemma_pow2_adds(64, 6);
    }
    lemma_varint_size_written(v as nat, tail, MAX_VARINT_BYTES as nat);
    assert((w + tail).take(w.len() as int) =~= w);
}

/// What is read at the front of `a` does not depend on what follows `a`.
proof fn lemma_varint_size_extends(a: Seq<u8>, b: Seq<u8>, limit: nat)
    requires
        varint_size(a, limit) is Some,
    ensures
        varint_size(a + b, limit) == varint_size(a, limit),
    decreases limit,
{
    if a[0] >= 128 {
        lemma_varint_size_extends(a.drop_first(), b, (limit - 1) as nat);
        assert((a + b).drop_first() =~= a.drop_first() + b);
    }
}

proof fn lemma_varint_extends(a: Seq<u8>, b: Seq<u8>)
    requires
        leading_varint(a) is Some,
    ensures
        leading_varint(a + b) == leading_varint(a),
{
    lemma_varint_size_extends(a, b, MAX_VARINT_BYTES as nat);
    lemma_varint_size(a, MAX_VARINT_BYTES as nat);
    let n = varint_size(a, MAX_VARINT_BYTES as nat)->0;
    assert((a + b).take(n as int) =~= a.take(n as int));
}

proof fn lemma_record_extends(a: Seq<u8>, b: Seq<u8>)
    requires
        leading_record(a) is Some,
    ensures
        leading_record(a + b) == leading_record(a),
{
    lemma_varint_extends(a, b);
    lemma_varint_size(a, MAX_VARINT_BYTES as nat);
    let (key, n) = leading_varint(a)->0;
    let rest = a.skip(n as int);
    assert((a + b).skip(n as int) =~= rest + b);
    if key % 8 == 0 {
        lemma_varint_extends(rest, b);
    } else if key % 8 == 2 {
        lemma_varint_extends(rest, b);
        lemma_varint_size(rest, MAX_VARINT_BYTES as nat);
        let (len, m) = leading_varint(rest)->0;
        let len = len as usize;
        assert((rest + b).skip(m as int) =~= rest.skip(m as int) + b);
        assert((rest.skip(m as int) + b).take(len as int) =~= rest.skip(m as int).take(len as int));
    }
}

/// The records of two messages put together are those of the first, then
/// those of the second.
pub proof fn law_records_of_concatenation(a: Seq<u8>, b: Seq<u8>)
    requires
        whole(a),
    ensures
        records(a + b) == records(a) + records(b),
    decreases a.len(),
{
    if a.len() == 0 {
        assert(a + b =~= b);
        assert(leading_record(a) is None) by {
            lemma_leading_record(a);
        }
        assert(records(a) + records(b) =~= records(b));
    } else {
        let (r, n) = leading_record(a)->0;
        lemma_record_extends(a, b);
        law_records_of_concatenation(a.skip(n as int), b);
        assert((a + b).skip(n as int) =~= a.skip(n as int) + b);
        assert(seq![r] + (records(a.skip(n as int)) + records(b)) =~= (seq![r] + records(
            a.skip(n as int),
        )) + records(b));
    }
}

proof fn lemma_last_of_concatenation(p: Seq<Record>, q: Seq<Record>, field: u64)
    ensures
        last_bytes(p + q, field) == (match last_bytes(q, field) {
            Some(b) => Some(b),
            None => last_bytes(p, field),
        }),
        last_varint(p + q, field) == (match last_varint(q, field) {
            Some(v) => Some(v),
            None => last_varint(p, field),
        }),
    decreases q.len(),
{
    if q.len() == 0 {
        assert(p + q =~= p);
    } else {
        assert((p + q).drop_last() =~= p + q.drop_last());
        assert((p + q).last() == q.last());
        lemma_last_of_concatenation(p, q.drop_last(), field);
    }
}

/// Where a message is continued by another, the later value of a field
/// replaces the earlier one, and a field that the continuation leaves out
/// keeps its value.
pub proof fn law_later_values_win(a: Seq<u8>, b: Seq<u8>, field: u64)
    requires
        whole(a),
    ensures
        last_bytes(records(a + b), field) == (match last_bytes(records(b), field) {
            Some(v) => Some(v),
            None => last_bytes(records(a), field),
        }),
        last_varint(records(a + b), field) == (match last_varint(records(b), field) {
            Some(v) => Some(v),
            None => last_varint(records(a), field),
        }),
{
    law_records_of_concatenation(a, b);
    lemma_last_of_concatenation(records(a), records(b), field);
}

/// A tail that does not start with a record is not read, and nothing in front
/// of it is lost.
pub proof fn law_damaged_tail_is_dropped(a: Seq<u8>, tail: Seq<u8>)
    requires
        whole(a),
        leading_record(tail) is None,
    ensures
        records(a + tail) == records(a),
{
    law_records_of_concatenation(a, tail);
    assert(records(a) + records(tail) =~= records(a));
}

proof fn lemma_varint_record(field: u64, v: u64, tail: Seq<u8>)
    requires
        field * 8 + 7 <= u64::MAX,
    ensures
        ({
            let r = Record { field, payload: Payload::Varint(v) };
            &&& leading_record(record_bytes(r) + tail) == Some((r, record_bytes(r).len()))
            &&& record_bytes(r).len() > 0
        }),
{
    let key = (field * 8) as u64;
    let k = varint_bytes(key as nat);
    let w = varint_bytes(v as nat);
    let buf = k + (w + tail);
    law_varint_round_trip(key, w + tail);
    law_varint_round_trip(v, tail);
    lemma_varint_size(buf, MAX_VARINT_BYTES as nat);
    assert(k + w + tail =~= buf);
    assert(buf.skip(k.len() as int) =~= w + tail);
    assert(key / 8 == field && key % 8 == 0);
}

proof fn lemma_bytes_record(field: u64, b: Seq<u8>, tail: Seq<u8>)
    requires
        field * 8 + 7 <= u64::MAX,
        b.len() <= usize::MAX,
    ensures
        ({
            let r = Record { field, payload: Payload::Bytes(b) };
            &&& leading_record(record_bytes(r) + tail) == Some((r, record_bytes(r).len()))
            &&& record_bytes(r).len() > 0
        }),
{
    let key = (field * 8 + 2) as u64;
    let k = varint_bytes(key as nat);
    let w = varint_bytes(b.len());
    let body = b + tail;
    let rest = w + body;
    let buf = k + rest;
    law_varint_round_trip(key, rest);
    law_varint_round_trip(b.len() as u64, body);
    lemma_varint_size(buf, MAX_VARINT_BYTES as nat);
    assert(k + (w + b) + tail =~= buf);
    assert(buf.skip(k.len() as int) =~= rest);
    assert(rest.skip(w.len() as int) =~= body);
    assert(body.take(b.len() as int) =~= b);
    assert((b.len() as u64) as usize == b.len());
    assert(key / 8 == field && key % 8 == 2);
}

/// A record is read back as it was written, whatever follows it.
pub proof fn law_record_round_trip(r: Record, tail: Seq<u8>)
    requires
        writable(r),
    ensures
        leading_record(record_bytes(r) + tail) == Some((r, record_bytes(r).len())),
        record_bytes(r).len() > 0,
{
    match r.payload {
        Payload::Varint(v) => lemma_varint_record(r.field, v, tail),
        Payload::Bytes(b) => lemma_bytes_record(r.field, b, tail),
        _ => {},
    }
}

/// A message is read back as it was written: the same records in the same
/// order, and nothing is left over.
pub proof fn law_message_round_trip(rs: Seq<Record>)
    requires
        forall|i: int| 0 <= i < rs.len() ==> writable(#[trigger] rs[i]),
    ensures
        records(message(rs)) == rs,
        whole(message(rs)),
    decreases rs.len(),
{
    if rs.len() == 0 {
        lemma_leading_record(message(rs));
    } else {
        let rest = rs.drop_first();
        assert forall|i: int| 0 <= i < rest.len() implies writable(#[trigger] rest[i]) by {
            assert(rest[i] == rs[i + 1]);
        }
        law_message_round_trip(rest);
        law_record_round_trip(rs[0], message(rest));
        let w = record_bytes(rs[0]);
        assert((w + message(rest)).skip(w.len() as int) =~= message(rest));
        assert(seq![rs[0]] + rest =~= rs);
    }
}

/// The record at `i` holds the bytes of `field`: it is the last record of that
/// number that holds bytes.
pub open spec fn is_value(rs: Seq<Record>, field: u64, i: int) -> bool {
    &&& 0 <= i < rs.len()
    &&& rs[i].field == field && rs[i].payload is Bytes
    &&& forall|j: int|
        i < j < rs.len() && (#[trigger] rs[j]).payload is Bytes ==> rs[j].field != field
}

/// The record at `i` holds the number of `field`: it is the last record of that
/// number that holds a varint.
pub open spec fn is_number(rs: Seq<Record>, field: u64, i: int) -> bool {
    &&& 0 <= i < rs.len()
    &&& rs[i].field == field && rs[i].payload is Varint
    &&& forall|j: int|
        i < j < rs.len() && (#[trigger] rs[j]).payload is Varint ==> rs[j].field != field
}

/// The bytes of a field are those of its last record with bytes, and there are
/// none where there is no such record.
pub proof fn law_last_bytes_are_those_of_the_last_record(rs: Seq<Record>, field: u64)
    ensures
        forall|i: int| #[trigger]
            is_value(rs, field, i) ==> last_bytes(rs, field) == Some(rs[i].payload->Bytes_0),
        (forall|i: int| !#[trigger] is_value(rs, field, i)) ==> last_bytes(rs, field) is None,
    decreases rs.len(),
{
    if rs.len() > 0 {
        let init = rs.drop_last();
        let last = rs.len() - 1;
        law_last_bytes_are_those_of_the_last_record(init, field);
        if rs[last].field == field && rs[last].payload is Bytes {
            assert(is_value(rs, field, last));
        } else {
            assert forall|i: int| is_value(init, field, i) == #[trigger] is_value(rs, field, i) by {
                if is_value(init, field, i) {
                    assert forall|j: int|
                        i < j < rs.len() && (#[trigger] rs[j]).payload is Bytes implies rs[j].field
                        != field by {
                        if j < last {
                            assert(init[j] == rs[j]);
                        }
                    }
                }
                if is_value(rs, field, i) {
                    assert forall|j: int|
                        i < j < init.len() && (#[trigger] init[j]).payload is Bytes implies init[j].field
                        != field by {
                        assert(init[j] == rs[j]);
                    }
                }
            }
            assert forall|i: int| is_value(init, field, i) implies is_value(rs, field, i) by {
                assert(is_value(rs, field, i) == is_value(init, field, i));
            }
        }
        assert forall|i: int| #[trigger] is_value(rs, field, i) implies last_bytes(rs, field)
            == Some(rs[i].payload->Bytes_0) by {
            if rs[last].field == field && rs[last].payload is Bytes {
                assert(i == last);
            } else {
                assert(is_value(init, field, i));
                assert(init[i] == rs[i]);
            }
        }
        if forall|i: int| !#[trigger] is_value(rs, field, i) {
            assert forall|i: int| !#[trigger] is_value(init, field, i) by {
                assert(!is_value(rs, field, i));
            }
        }
    }
}

/// The number of a field is that of its last record with a varint, and there is
/// none where there is no such record.
pub proof fn law_last_varint_is_that_of_the_last_record(rs: Seq<Record>, field: u64)
    ensures
        forall|i: int| #[trigger]
            is_number(rs, field, i) ==> last_varint(rs, field) == Some(rs[i].payload->Varint_0),
        (forall|i: int| !#[trigger] is_number(rs, field, i)) ==> last_varint(rs, field) is None,
    decreases rs.len(),
{
    if rs.len() > 0 {
        let init = rs.drop_last();
        let last = rs.len() - 1;
        law_last_varint_is_that_of_the_last_record(init, field);
        if rs[last].field == field && rs[last].payload is Varint {
            assert(is_number(rs, field, last));
        } else {
            assert forall|i: int| is_number(init, field, i) == #[trigger] is_number(rs, field, i) by {
                if is_number(init, field, i) {
                    assert forall|j: int|
                        i < j < rs.len() && (#[trigger] rs[j]).payload is Varint implies rs[j].field
                        != field by {
                        if j < last {
                            assert(init[j] == rs[j]);
                        }
                    }
                }
                if is_number(rs, field, i) {
                    assert forall|j: int|
                        i < j < init.len() && (#[trigger] init[j]).payload is Varint implies init[j].field
                        != field by {
                        assert(init[j] == rs[j]);
                    }
                }
            }
            assert forall|i: int| is_number(init, field, i) implies is_number(rs, field, i) by {
                assert(is_number(rs, field, i) == is_number(init, field, i));
            }
        }
        assert forall|i: int| #[trigger] is_number(rs, field, i) implies last_varint(rs, field)
            == Some(rs[i].payload->Varint_0) by {
            if rs[last].field == field && rs[last].payload is Varint {
                assert(i == last);
            } else {
                assert(is_number(init, field, i));
                assert(init[i] == rs[i]);
            }
        }
        if forall|i: int| !#[trigger] is_number(rs, field, i) {
            assert forall|i: int| !#[trigger] is_number(init, field, i) by {
                assert(!is_number(rs, field, i));
            }
        }
    }
}

/// What the reader finds in written records with a damaged tail: every field
/// has the bytes of its last record with bytes, whole and unchanged, as bytes
/// and as text, and nothing is found under a number that no such record has.
pub proof fn law_written_bytes_are_found(
    rs: Seq<Record>,
    tail: Seq<u8>,
    buf: &[u8],
    f: ProtoFields,
    field: u64,
    b: Option<&[u8]>,
    t: Option<String>,
)
    requires
        forall|i: int|
            0 <= i < rs.len() ==> (#[trigger] rs[i]).field * 8 + 7 <= u64::MAX && match rs[i].payload {
                Payload::Varint(_) => true,
                Payload::Bytes(b) => b.len() <= usize::MAX,
                _ => false,
            },
        leading_record(tail) is None,
        buf@ == message(rs) + tail,
        call_ensures(ProtoFields::parse, (buf,), f),
        call_ensures(ProtoFields::bytes, (&f, field), b),
        call_ensures(ProtoFields::string, (&f, field), t),
    ensures
        forall|i: int| #[trigger]
            is_value(rs, field, i) ==> {
                let held = rs[i].payload->Bytes_0;
                &&& b matches Some(x) && x@ == held
                &&& t is Some <==> valid_utf8(held)
                &&& t matches Some(x) ==> x@ == decode_utf8(held)
            },
        (forall|i: int| !#[trigger] is_value(rs, field, i)) ==> b is None && t is None,
{
    law_message_round_trip(rs);
    law_damaged_tail_is_dropped(message(rs), tail);
    law_last_bytes_are_those_of_the_last_record(rs, field);
    assert(f.spec_bytes(field) == last_bytes(rs, field));
}

/// What the reader finds in written records with a damaged tail: every field
/// has the number of its last record with a varint, and nothing is found under
/// a number that no such record has.
pub proof fn law_written_varints_are_found(
    rs: Seq<Record>,
    tail: Seq<u8>,
    buf: &[u8],
    f: ProtoFields,
    field: u64,
    v: Option<u64>,
)
    requires
        forall|i: int|
            0 <= i < rs.len() ==> (#[trigger] rs[i]).field * 8 + 7 <= u64::MAX && match rs[i].payload {
                Payload::Varint(_) => true,
                Payload::Bytes(b) => b.len() <= usize::MAX,
                _ => false,
            },
        leading_record(tail) is None,
        buf@ == message(rs) + tail,
        call_ensures(ProtoFields::parse, (buf,), f),
        call_ensures(ProtoFields::get_varint, (&f, field), v),
    ensures
        forall|i: int| #[trigger]
            is_number(rs, field, i) ==> v == Some(rs[i].payload->Varint_0),
        (forall|i: int| !#[trigger] is_number(rs, field, i)) ==> v is None,
{
    law_message_round_trip(rs);
    law_damaged_tail_is_dropped(message(rs), tail);
    law_last_varint_is_that_of_the_last_record(rs, field);
    assert(f.spec_varint(field) == last_varint(rs, field));
}

/// What the reader finds in any bytes: under every number what the last record
/// of that number holds.
pub proof fn law_every_field_is_found_in_its_last_record(
    buf: &[u8],
    f: ProtoFields,
    field: u64,
    b: Option<&[u8]>,
    t: Option<String>,
    v: Option<u64>,
)
    requires
        call_ensures(ProtoFields::parse, (buf,), f),
        call_ensures(ProtoFields::bytes, (&f, field), b),
        call_ensures(ProtoFields::string, (&f, field), t),
        call_ensures(ProtoFields::get_varint, (&f, field), v),
    ensures
        forall|i: int| #[trigger]
            is_value(records(buf@), field, i) ==> {
                let held = records(buf@)[i].payload->Bytes_0;
                &&& b matches Some(x) && x@ == held
                &&& t is Some <==> valid_utf8(held)
                &&& t matches Some(x) ==> x@ == decode_utf8(held)
            },
        (forall|i: int| !#[trigger] is_value(records(buf@), field, i)) ==> b is None && t is None,
        forall|i: int| #[trigger]
            is_number(records(buf@), field, i) ==> v == Some(records(buf@)[i].payload->Varint_0),
        (forall|i: int| !#[trigger] is_number(records(buf@), field, i)) ==> v is None,
{
    law_last_bytes_are_those_of_the_last_record(records(buf@), field);
    law_last_varint_is_that_of_the_last_record(records(buf@), field);
    assert(f.spec_bytes(field) == last_bytes(records(buf@), field));
    assert(f.spec_varint(field) == last_varint(records(buf@), field));
}

/// A varint has the value that its groups of seven bits spell: an empty one has
/// none, and each further group counts for as much as its place says.
pub proof fn law_groups_count_by_their_place(groups: Seq<u8>, b: u8)
    ensures
        base128(Seq::empty()) == 0,
        base128(groups.push(b)) == base128(groups) + (b % 128) * pow2(7 * groups.len()),
{
    lemma_base128_push(groups, b);
}

/// Up to ten bytes, all but the last with the high bit set, are read as a
/// varint, also where fewer would do; bits beyond the 64th are dropped.
pub proof fn law_any_varint_is_read(groups: Seq<u8>, tail: Seq<u8>)
    requires
        0 < groups.len() <= 10,
        forall|i: int| 0 <= i < groups.len() - 1 ==> #[trigger] groups[i] >= 128,
        groups.last() < 128,
    ensures
        leading_varint(groups + tail) == Some(
            ((base128(groups) % pow2(64)) as u64, groups.len()),
        ),
{
    let buf = groups + tail;
    let k = (groups.len() - 1) as nat;
    assert forall|i: int| 0 <= i < k implies buf[i] >= 128 by {
        assert(buf[i] == groups[i]);
    }
    lemma_varint_size_skip(buf, MAX_VARINT_BYTES as nat, k);
    assert(buf.skip(k as int)[0] == groups.last());
    assert(buf.take(groups.len() as int) =~= groups);
}

/// A varint that ends in nothing, or that goes on behind its tenth byte, is not
/// read.
pub proof fn law_unended_varint_is_not_read(buf: Seq<u8>)
    requires
        forall|i: int| 0 <= i < buf.len() && i < 10 ==> #[trigger] buf[i] >= 128,
    ensures
        leading_varint(buf) is None,
        leading_record(buf) is None,
        records(buf) == Seq::<Record>::empty(),
{
    lemma_varint_size(buf, MAX_VARINT_BYTES as nat);
}

/// A key that names none of the four wire types ends the reading.
pub proof fn law_unknown_wire_type_is_not_read(key: u64, tail: Seq<u8>)
    requires
        key % 8 == 3 || key % 8 == 4 || key % 8 == 6 || key % 8 == 7,
    ensures
        leading_record(varint_bytes(key as nat) + tail) is None,
        records(varint_bytes(key as nat) + tail) == Seq::<Record>::empty(),
{
    law_varint_round_trip(key, tail);
}

/// Eight bytes, or four, are skipped behind a key that says so, whatever they
/// are.
pub proof fn law_fixed_width_fields_are_skipped(field: u64, fixed: Seq<u8>, tail: Seq<u8>)
    requires
        field * 8 + 7 <= u64::MAX,
        fixed.len() == 8 || fixed.len() == 4,
    ensures
        fixed.len() == 8 ==> records(varint_bytes((field * 8 + 1) as nat) + (fixed + tail)) == seq![
            Record { field, payload: Payload::Fixed64 },
        ] + records(tail),
        fixed.len() == 4 ==> records(varint_bytes((field * 8 + 5) as nat) + (fixed + tail)) == seq![
            Record { field, payload: Payload::Fixed32 },
        ] + records(tail),
{
    let key = (field * 8 + if fixed.len() == 8 {
        1int
    } else {
        5int
    }) as u64;
    let k = varint_bytes(key as nat);
    let buf = k + (fixed + tail);
    law_varint_round_trip(key, fixed + tail);
    lemma_varint_size(buf, MAX_VARINT_BYTES as nat);
    assert(buf.skip(k.len() as int) =~= fixed + tail);
    assert(key / 8 == field);
    assert(buf.skip((k.len() + fixed.len()) as int) =~= tail);
}

/// A payload that is cut off is not read: neither a varint without its last
/// byte, nor fewer bytes than a key or a length announces.
pub proof fn law_cut_off_payload_is_not_read(field: u64, b: Seq<u8>, rest: Seq<u8>)
    requires
        field * 8 + 7 <= u64::MAX,
        b.len() <= usize::MAX,
        rest.len() < b.len(),
    ensures
        leading_record(varint_bytes((field * 8 + 2) as nat) + (varint_bytes(b.len()) + rest)) is None,
        rest.len() < 8 ==> leading_record(varint_bytes((field * 8 + 1) as nat) + rest) is None,
        rest.len() < 4 ==> leading_record(varint_bytes((field * 8 + 5) as nat) + rest) is None,
        leading_varint(rest) is None ==> {
            &&& leading_record(varint_bytes((field * 8) as nat) + rest) is None
            &&& leading_record(varint_bytes((field * 8 + 2) as nat) + rest) is None
        },
{
    let key = (field * 8 + 2) as u64;
    let k = varint_bytes(key as nat);
    let w = varint_bytes(b.len());
    let buf = k + (w + rest);
    law_varint_round_trip(key, w + rest);
    law_varint_round_trip(b.len() as u64, rest);
    assert(buf.skip(k.len() as int) =~= w + rest);
    assert((w + rest).skip(w.len() as int) =~= rest);
    assert((b.len() as u64) as usize == b.len());
    assert(key % 8 == 2);
    lemma_key((field * 8) as u64, rest);
    lemma_key((field * 8 + 1) as u64, rest);
    lemma_key((field * 8 + 2) as u64, rest);
    lemma_key((field * 8 + 5) as u64, rest);
}

proof fn lemma_key(key: u64, rest: Seq<u8>)
    ensures
        leading_varint(varint_bytes(key as nat) + rest) == Some(
            (key, varint_bytes(key as nat).len()),
        ),
        (varint_bytes(key as nat) + rest).skip(varint_bytes(key as nat).len() as int) == rest,
{
    let k = varint_bytes(key as nat);
    law_varint_round_trip(key, rest);
    assert((k + rest).skip(k.len() as int) =~= rest);
}

/// A record is read by the value of its key alone: however long the key is
/// written, the same record follows, or none.
pub proof fn law_key_counts_by_its_value(a: Seq<u8>, b: Seq<u8>, key: u64, n: nat, m: nat)
    requires
        leading_varint(a) == Some((key, n)),
        leading_varint(b) == Some((key, m)),
        a.skip(n as int) == b.skip(m as int),
    ensures
        match (leading_record(a), leading_record(b)) {
            (Some((r, x)), Some((s, y))) => r == s && x - n == y - m,
            (None, None) => true,
            _ => false,
        },
        records(a) == records(b),
{
    lemma_varint_size(a, MAX_VARINT_BYTES as nat);
    lemma_varint_size(b, MAX_VARINT_BYTES as nat);
    lemma_leading_record(a);
    lemma_leading_record(b);
    if let (Some((_, x)), Some((_, y))) = (leading_record(a), leading_record(b)) {
        assert(a.skip(x as int) =~= a.skip(n as int).skip(x - n));
        assert(b.skip(y as int) =~= b.skip(m as int).skip(y - m));
    }
}

/// A payload is read by the value of its number or its length alone, however
/// long that is written.
pub proof fn law_payload_counts_by_its_value(
    field: u64,
    a: Seq<u8>,
    b: Seq<u8>,
    v: u64,
    n: nat,
    m: nat,
)
    requires
        field * 8 + 7 <= u64::MAX,
        leading_varint(a) == Some((v, n)),
        leading_varint(b) == Some((v, m)),
        a.skip(n as int) == b.skip(m as int),
    ensures
        records(varint_bytes((field * 8) as nat) + a) == records(
            varint_bytes((field * 8) as nat) + b,
        ),
        records(varint_bytes((field * 8) as nat) + a) == seq![
            Record { field, payload: Payload::Varint(v) },
        ] + records(a.skip(n as int)),
        records(varint_bytes((field * 8 + 2) as nat) + a) == records(
            varint_bytes((field * 8 + 2) as nat) + b,
        ),
{
    lemma_varint_size(a, MAX_VARINT_BYTES as nat);
    lemma_varint_size(b, MAX_VARINT_BYTES as nat);
    let k0 = varint_bytes((field * 8) as nat);
    let k2 = varint_bytes((field * 8 + 2) as nat);
    lemma_key((field * 8) as u64, a);
    lemma_key((field * 8) as u64, b);
    lemma_key((field * 8 + 2) as u64, a);
    lemma_key((field * 8 + 2) as u64, b);
    assert((k0 + a).skip((k0.len() + n) as int) =~= a.skip(n as int));
    assert((k0 + b).skip((k0.len() + m) as int) =~= b.skip(m as int));
    let len = v as usize;
    if len <= a.skip(n as int).len() {
        assert((k2 + a).skip((k2.len() + n + len) as int) =~= a.skip(n as int).skip(len as int));
        assert((k2 + b).skip((k2.len() + m + len) as int) =~= b.skip(m as int).skip(len as int));
    }
}

} // verus!
