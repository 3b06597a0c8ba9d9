//! The serializer: records are rendered to one JSON array, field names in
//! camelCase, binary fields as lowercase hex, the proof and its inputs
//! spliced in verbatim as rendered by the proving interface.

use vstd::prelude::*;

use crate::bytebuf::push_bytes;
use crate::hexfmt::{bytes_to_hex, hex_of};
use crate::record::{TxDataRequest, TxDataRequestView};

verus! {

/// The bytes of `{"txType":"0000","proof":{"proof":`, the head of one
/// record: the type discriminant of a Deposit, then the proof object.
pub open spec fn lit_record_head() -> Seq<u8> {
    seq![
        0x7bu8, 0x22, 0x74, 0x78, 0x54, 0x79, 0x70, 0x65, 0x22, 0x3a, 0x22, 0x30, 0x30, 0x30,
        0x30, 0x22, 0x2c, 0x22, 0x70, 0x72, 0x6f, 0x6f, 0x66, 0x22, 0x3a, 0x7b, 0x22, 0x70,
        0x72, 0x6f, 0x6f, 0x66, 0x22, 0x3a,
    ]
}

/// The bytes of `,"inputs":`.
pub open spec fn lit_inputs_key() -> Seq<u8> {
    seq![0x2cu8, 0x22, 0x69, 0x6e, 0x70, 0x75, 0x74, 0x73, 0x22, 0x3a]
}

/// The bytes of `},"memo":"`.
pub open spec fn lit_memo_key() -> Seq<u8> {
    seq![0x7du8, 0x2c, 0x22, 0x6d, 0x65, 0x6d, 0x6f, 0x22, 0x3a, 0x22]
}

/// The bytes of `","extraData":"`.
pub open spec fn lit_extra_data_key() -> Seq<u8> {
    seq![0x22u8, 0x2c, 0x22, 0x65, 0x78, 0x74, 0x72, 0x61, 0x44, 0x61, 0x74, 0x61, 0x22, 0x3a,
        0x22]
}

/// The bytes of `"}`.
pub open spec fn lit_record_tail() -> Seq<u8> {
    seq![0x22u8, 0x7d]
}

/// The rendering of one record: the Deposit type discriminant, the proof
/// and its inputs verbatim, then the memo and the signature as lowercase
/// hex.
pub open spec fn record_json_of(r: TxDataRequestView) -> Seq<u8> {
    lit_record_head() + r.proof.proof_json + lit_inputs_key() + r.proof.inputs_json
        + lit_memo_key() + hex_of(r.memo) + lit_extra_data_key() + hex_of(r.extra_data)
        + lit_record_tail()
}

/// The renderings of all records, joined with commas, in order.
pub open spec fn joined_records_of(rs: Seq<TxDataRequestView>) -> Seq<u8>
    decreases rs.len(),
{
    if rs.len() == 0 {
        Seq::empty()
    } else if rs.len() == 1 {
        record_json_of(rs[0])
    } else {
        joined_records_of(rs.drop_last()) + seq![0x2cu8] + record_json_of(rs.last())
    }
}

/// The wire format: one JSON array holding every record's rendering, in
/// order.
pub open spec fn wire_of(rs: Seq<TxDataRequestView>) -> Seq<u8> {
    seq![0x5bu8] + joined_records_of(rs) + seq![0x5du8]
}

/// The views of a sequence of records.
pub open spec fn views_of(rs: Seq<TxDataRequest>) -> Seq<TxDataRequestView> {
    rs.map_values(|t: TxDataRequest| t@)
}

/// Structural scan of a byte string as compact JSON, from position `i` with
/// `depth` open braces and brackets, inside a string when `in_str`, right
/// after a backslash when `esc`: braces and brackets outside strings must
/// nest and close, and every string must close. Every valid JSON document
/// passes this scan.
pub open spec fn json_scan(s: Seq<u8>, i: nat, depth: nat, in_str: bool, esc: bool) -> bool
    decreases s.len() - i,
{
    if i >= s.len() {
        depth == 0 && !in_str && !esc
    } else {
        let c = s[i as int];
        if in_str {
            if esc {
                json_scan(s, i + 1, depth, true, false)
            } else if c == 0x5c {
                json_scan(s, i + 1, depth, true, true)
            } else if c == 0x22 {
                json_scan(s, i + 1, depth, false, false)
            } else {
                json_scan(s, i + 1, depth, true, false)
            }
        } else {
            if c == 0x7b || c == 0x5b {
                json_scan(s, i + 1, depth + 1, false, false)
            } else if c == 0x7d || c == 0x5d {
                depth > 0 && json_scan(s, i + 1, (depth - 1) as nat, false, false)
            } else if c == 0x22 {
                json_scan(s, i + 1, depth, true, false)
            } else {
                json_scan(s, i + 1, depth, false, false)
            }
        }
    }
}

/// A byte string whose braces, brackets and strings are balanced, as every
/// valid JSON document's are.
pub open spec fn json_balanced(s: Seq<u8>) -> bool {
    json_scan(s, 0, 0, false, false)
}

/// The proof segments a record splices verbatim into the wire format are
/// non-empty, delimited as one JSON object (the proof) and one JSON array
/// (the inputs), and structurally balanced.
pub open spec fn segments_wf(r: TxDataRequestView) -> bool {
    &&& r.proof.proof_json.len() > 0
    &&& r.proof.proof_json.first() == 0x7b
    &&& r.proof.proof_json.last() == 0x7d
    &&& json_balanced(r.proof.proof_json)
    &&& r.proof.inputs_json.len() > 0
    &&& r.proof.inputs_json.first() == 0x5b
    &&& r.proof.inputs_json.last() == 0x5d
    &&& json_balanced(r.proof.inputs_json)
}

/// An empty batch serializes to exactly the two bytes `[]`.
pub proof fn lemma_empty_wire()
    ensures
        wire_of(Seq::empty()) =~= seq![0x5bu8, 0x5du8],
{
}

/// The tail of a record rendering determines its hex fields: two tails that
/// read the same decode to the same memo and signature bytes, because a hex
/// rendering never contains the quote byte that ends each field.
proof fn lemma_hex_tail_recoverable(m1: Seq<u8>, x1: Seq<u8>, m2: Seq<u8>, x2: Seq<u8>)
    requires
        hex_of(m1) + lit_extra_data_key() + hex_of(x1) + lit_record_tail() == hex_of(m2)
            + lit_extra_data_key() + hex_of(x2) + lit_record_tail(),
    ensures
        m1 == m2,
        x1 == x2,
{
    let h1 = hex_of(m1);
    let h2 = hex_of(m2);
    let g1 = hex_of(x1);
    let g2 = hex_of(x2);
    let s = h1 + lit_extra_data_key() + g1 + lit_record_tail();
    let t = h2 + lit_extra_data_key() + g2 + lit_record_tail();
    crate::hexfmt::lemma_hex_no_quote(m1);
    crate::hexfmt::lemma_hex_no_quote(m2);
    if h1.len() < h2.len() {
        assert(s[h1.len() as int] == lit_extra_data_key()[0]);
        assert(t[h1.len() as int] == h2[h1.len() as int]);
        assert(false);
    }
    if h2.len() < h1.len() {
        assert(t[h2.len() as int] == lit_extra_data_key()[0]);
        assert(s[h2.len() as int] == h1[h2.len() as int]);
        assert(false);
    }
    assert forall|i: int| 0 <= i < h1.len() implies h1[i] == h2[i] by {
        assert(h1[i] == s[i]);
        assert(h2[i] == t[i]);
    }
    assert(h1 =~= h2);
    crate::hexfmt::lemma_hex_injective(m1, m2);
    assert(s.len() == h1.len() + lit_extra_data_key().len() + g1.len()
        + lit_record_tail().len());
    assert(t.len() == h2.len() + lit_extra_data_key().len() + g2.len()
        + lit_record_tail().len());
    assert(g1.len() == g2.len());
    assert forall|i: int| 0 <= i < g1.len() implies g1[i] == g2[i] by {
        assert(g1[i] == s[h1.len() + lit_extra_data_key().len() + i]);
        assert(g2[i] == t[h2.len() + lit_extra_data_key().len() + i]);
    }
    assert(g1 =~= g2);
    crate::hexfmt::lemma_hex_injective(x1, x2);
}

/// Round trip of the binary fields: a record rendering determines `memo`
/// and `extra_data` byte-identically. Two records with the same proof
/// segments and the same rendering hold the same memo and signature bytes.
pub proof fn lemma_record_json_determines_hex_fields(a: TxDataRequestView, b: TxDataRequestView)
    requires
        record_json_of(a) == record_json_of(b),
        a.proof == b.proof,
    ensures
        a.memo == b.memo,
        a.extra_data == b.extra_data,
{
    let prefix = lit_record_head() + a.proof.proof_json + lit_inputs_key() + a.proof.inputs_json
        + lit_memo_key();
    let ta = hex_of(a.memo) + lit_extra_data_key() + hex_of(a.extra_data) + lit_record_tail();
    let tb = hex_of(b.memo) + lit_extra_data_key() + hex_of(b.extra_data) + lit_record_tail();
    assert(record_json_of(a) =~= prefix + ta);
    assert(record_json_of(b) =~= prefix + tb);
    assert forall|i: int| 0 <= i < ta.len() implies ta[i] == tb[i] by {
        assert(ta[i] == (prefix + ta)[prefix.len() + i]);
        assert(tb[i] == (prefix + tb)[prefix.len() + i]);
    }
    assert(ta =~= tb);
    lemma_hex_tail_recoverable(a.memo, a.extra_data, b.memo, b.extra_data);
}

/// Append the rendering of one record to `out`.
fn write_record(out: &mut Vec<u8>, r: &TxDataRequest)
    ensures
        final(out)@ == old(out)@ + record_json_of(r@),
{
    let head: [u8; 34] = [
        0x7b, 0x22, 0x74, 0x78, 0x54, 0x79, 0x70, 0x65, 0x22, 0x3a, 0x22, 0x30, 0x30, 0x30,
        0x30, 0x22, 0x2c, 0x22, 0x70, 0x72, 0x6f, 0x6f, 0x66, 0x22, 0x3a, 0x7b, 0x22, 0x70,
        0x72, 0x6f, 0x6f, 0x66, 0x22, 0x3a,
    ];
    let inputs_key: [u8; 10] = [0x2c, 0x22, 0x69, 0x6e, 0x70, 0x75, 0x74, 0x73, 0x22, 0x3a];
    let memo_key: [u8; 10] = [0x7d, 0x2c, 0x22, 0x6d, 0x65, 0x6d, 0x6f, 0x22, 0x3a, 0x22];
    let extra_key: [u8; 15] = [
        0x22, 0x2c, 0x22, 0x65, 0x78, 0x74, 0x72, 0x61, 0x44, 0x61, 0x74, 0x61, 0x22, 0x3a,
        0x22,
    ];
    proof {
        assert(head@ =~= lit_record_head());
        assert(inputs_key@ =~= lit_inputs_key());
        assert(memo_key@ =~= lit_memo_key());
        assert(extra_key@ =~= lit_extra_data_key());
    }
    push_bytes(out, head.as_slice());
    push_bytes(out, r.proof.proof_json.as_slice());
    push_bytes(out, inputs_key.as_slice());
    push_bytes(out, r.proof.inputs_json.as_slice());
    push_bytes(out, memo_key.as_slice());
    let memo_hex = bytes_to_hex(r.memo.as_slice());
    push_bytes(out, memo_hex.as_slice());
    push_bytes(out, extra_key.as_slice());
    let extra_hex = bytes_to_hex(r.extra_data.as_slice());
    push_bytes(out, extra_hex.as_slice());
    out.push(0x22);
    out.push(0x7d);
    proof {
        assert(out@ =~= old(out)@ + record_json_of(r@));
    }
}

/// Render the whole batch to its wire format: a JSON array with one entry
/// per record, in the order given.
pub fn to_wire(records: &Vec<TxDataRequest>) -> (r: Vec<u8>)
    ensures
        r@ == wire_of(views_of(records@)),
{
    let mut out: Vec<u8> = Vec::new();
    out.push(0x5b);
    let mut i: usize = 0;
    while i < records.len()
        invariant
            i <= records.len(),
            out@ == seq![0x5bu8] + joined_records_of(views_of(records@).take(i as int)),
        decreases records.len() - i,
    {
        if i > 0 {
            out.push(0x2c);
        }
        write_record(&mut out, &records[i]);
        proof {
            let vs = views_of(records@);
            assert(vs.take(i + 1).drop_last() =~= vs.take(i as int));
            assert(vs.take(i + 1).last() == vs[i as int]);
            assert(out@ =~= seq![0x5bu8] + joined_records_of(vs.take(i + 1)));
        }
        i += 1;
    }
    out.push(0x5d);
    proof {
        assert(views_of(records@).take(records@.len() as int) =~= views_of(records@));
        assert(out@ =~= wire_of(views_of(records@)));
    }
    out
}

} // verus!
