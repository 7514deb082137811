//! Typed records, their canonical wire image, and the decode of a wire
//! image back into a record.  The round-trip identity and the zeroing of
//! padding bytes are proved here.

use vstd::prelude::*;
use vstd::bytes::{spec_u64_from_le_bytes, spec_u64_to_le_bytes, lemma_auto_spec_u64_to_from_le_bytes};
use crate::endianness::{Endianness, spec_tag_byte};
use crate::layout::{
    FieldKind, kind_size, kind_align, pad_len, off_after, field_start, max_align, spec_record_size,
};
use crate::wire::{dbl_to_bytes, dbl_from_bytes};

verus! {

/// One concrete value of a record field, in native interpretation.
///
/// A double field carries its 64-bit IEEE-754 pattern; the codec never
/// interprets the pattern as a number.
#[derive(Clone, Copy, Debug, PartialEq, Eq, Structural)]
pub enum FieldValue {
    Byte(u8),
    Double(u64),
}

/// Whether a value is of the kind a field declares.
pub open spec fn value_fits(k: FieldKind, v: FieldValue) -> bool {
    match k {
        FieldKind::Byte => v is Byte,
        FieldKind::Double => v is Double,
    }
}

/// Whether a value sequence is a record of the given field list: one value
/// per field, each of the declared kind.
pub open spec fn record_matches(fields: Seq<FieldKind>, vals: Seq<FieldValue>) -> bool {
    &&& vals.len() == fields.len()
    &&& forall|i: int| 0 <= i < fields.len() ==> value_fits(fields[i], #[trigger] vals[i])
}

/// `n` zero-valued padding bytes.
pub open spec fn zero_bytes(n: nat) -> Seq<u8> {
    Seq::new(n, |i: int| 0u8)
}

/// The wire bytes of one field value in byte order `o`.
pub open spec fn field_bytes(v: FieldValue, o: Endianness) -> Seq<u8> {
    match v {
        FieldValue::Byte(b) => seq![b],
        FieldValue::Double(x) => dbl_to_bytes(o, x),
    }
}

/// A field's wire bytes are exactly as wide as its kind.
pub proof fn lemma_field_bytes_len(k: FieldKind, v: FieldValue, o: Endianness)
    requires
        value_fits(k, v),
    ensures
        field_bytes(v, o).len() == kind_size(k),
{
    lemma_auto_spec_u64_to_from_le_bytes();
}

/// The wire bytes of the fields laid out from `off`: for each field in
/// order, the zero padding that aligns it, then its value's bytes.
pub open spec fn enc_fields(
    fields: Seq<FieldKind>,
    vals: Seq<FieldValue>,
    o: Endianness,
    off: nat,
) -> Seq<u8>
    decreases fields.len(),
{
    if fields.len() == 0 {
        Seq::empty()
    } else {
        zero_bytes(pad_len(off, kind_align(fields[0]))) + field_bytes(vals[0], o) + enc_fields(
            fields.drop_first(),
            vals.drop_first(),
            o,
            off + pad_len(off, kind_align(fields[0])) + kind_size(fields[0]),
        )
    }
}

/// A record whose values drop their first elements still matches the
/// remaining fields.
pub proof fn lemma_record_matches_drop_first(fields: Seq<FieldKind>, vals: Seq<FieldValue>)
    requires
        record_matches(fields, vals),
        fields.len() > 0,
    ensures
        record_matches(fields.drop_first(), vals.drop_first()),
{
    assert forall|i: int| 0 <= i < fields.drop_first().len() implies value_fits(
        fields.drop_first()[i],
        #[trigger] vals.drop_first()[i],
    ) by {
        assert(fields.drop_first()[i] == fields[i + 1]);
        assert(vals.drop_first()[i] == vals[i + 1]);
    };
}

/// The encoded fields span exactly the layout's extent.
pub proof fn lemma_enc_fields_len(
    fields: Seq<FieldKind>,
    vals: Seq<FieldValue>,
    o: Endianness,
    off: nat,
)
    requires
        record_matches(fields, vals),
    ensures
        enc_fields(fields, vals, o, off).len() == off_after(fields, off) - off,
        off_after(fields, off) >= off,
    decreases fields.len(),
{
    crate::layout::lemma_off_after_ge(fields, off);
    if fields.len() > 0 {
        lemma_field_bytes_len(fields[0], vals[0], o);
        lemma_record_matches_drop_first(fields, vals);
        lemma_enc_fields_len(
            fields.drop_first(),
            vals.drop_first(),
            o,
            off + pad_len(off, kind_align(fields[0])) + kind_size(fields[0]),
        );
    }
}

/// The full wire image of a record: the endianness tag byte if the record
/// carries one, the aligned fields, and trailing padding that rounds the
/// record up to its alignment.  All padding bytes are zero.
pub open spec fn wire_image(
    has_tag: bool,
    fields: Seq<FieldKind>,
    vals: Seq<FieldValue>,
    o: Endianness,
) -> Seq<u8> {
    let head: Seq<u8> = if has_tag {
        seq![spec_tag_byte(o)]
    } else {
        Seq::empty()
    };
    let start: nat = if has_tag {
        1
    } else {
        0
    };
    let end = off_after(fields, start);
    head + enc_fields(fields, vals, o, start) + zero_bytes(pad_len(end, max_align(fields)))
}

/// The wire image is exactly as long as the descriptor's computed size.
pub proof fn lemma_wire_image_len(
    has_tag: bool,
    fields: Seq<FieldKind>,
    vals: Seq<FieldValue>,
    o: Endianness,
)
    requires
        record_matches(fields, vals),
    ensures
        wire_image(has_tag, fields, vals, o).len() == spec_record_size(has_tag, fields),
{
    let start: nat = if has_tag {
        1
    } else {
        0
    };
    lemma_enc_fields_len(fields, vals, o, start);
}

/// The value a span of wire bytes stands for, given the field's kind and
/// the record's byte order.
pub open spec fn dec_field(k: FieldKind, o: Endianness, s: Seq<u8>) -> FieldValue
    recommends
        s.len() == kind_size(k),
{
    match k {
        FieldKind::Byte => FieldValue::Byte(s[0]),
        FieldKind::Double => FieldValue::Double(dbl_from_bytes(o, s)),
    }
}

/// The record read field by field from `buf`, each field at its aligned
/// offset, laid out from `off`.
pub open spec fn dec_fields(
    fields: Seq<FieldKind>,
    o: Endianness,
    buf: Seq<u8>,
    off: nat,
) -> Seq<FieldValue>
    decreases fields.len(),
{
    if fields.len() == 0 {
        Seq::empty()
    } else {
        let p = pad_len(off, kind_align(fields[0]));
        let sz = kind_size(fields[0]);
        seq![dec_field(fields[0], o, buf.subrange((off + p) as int, (off + p + sz) as int))]
            + dec_fields(fields.drop_first(), o, buf, off + p + sz)
    }
}

/// Reading back one field's own wire bytes yields the value it encodes.
pub proof fn lemma_field_roundtrip(k: FieldKind, v: FieldValue, o: Endianness)
    requires
        value_fits(k, v),
    ensures
        dec_field(k, o, field_bytes(v, o)) == v,
{
    lemma_auto_spec_u64_to_from_le_bytes();
    match v {
        FieldValue::Byte(_b) => {
        },
        FieldValue::Double(x) => {
            match o {
                Endianness::Little => {
                },
                Endianness::Big => {
                    assert(spec_u64_to_le_bytes(x).reverse().reverse() =~= spec_u64_to_le_bytes(x));
                    assert(dbl_from_bytes(o, dbl_to_bytes(o, x)) == spec_u64_from_le_bytes(
                        spec_u64_to_le_bytes(x),
                    ));
                },
            }
        },
    }
}

/// Decoding a buffer that holds the encoding of a record, at the offset
/// the encoding was laid out from, recovers the record.
pub proof fn lemma_dec_of_enc(
    fields: Seq<FieldKind>,
    vals: Seq<FieldValue>,
    o: Endianness,
    off: nat,
    buf: Seq<u8>,
)
    requires
        record_matches(fields, vals),
        buf.len() >= off_after(fields, off),
        buf.subrange(off as int, off_after(fields, off) as int) == enc_fields(fields, vals, o, off),
    ensures
        dec_fields(fields, o, buf, off) == vals,
    decreases fields.len(),
{
    if fields.len() == 0 {
        assert(dec_fields(fields, o, buf, off) =~= vals);
    } else {
        let p = pad_len(off, kind_align(fields[0]));
        let sz = kind_size(fields[0]);
        let end0 = off + p + sz;
        let end = off_after(fields, off);
        let fb = field_bytes(vals[0], o);
        let rest = enc_fields(fields.drop_first(), vals.drop_first(), o, end0);
        lemma_field_bytes_len(fields[0], vals[0], o);
        lemma_record_matches_drop_first(fields, vals);
        lemma_enc_fields_len(fields.drop_first(), vals.drop_first(), o, end0);
        assert(end == off_after(fields.drop_first(), end0));
        let whole = buf.subrange(off as int, end as int);
        assert(whole == zero_bytes(p) + fb + rest);
        assert(buf.subrange((off + p) as int, (off + p + sz) as int) =~= fb) by {
            assert forall|i: int| 0 <= i < sz implies buf.subrange(
                (off + p) as int,
                (off + p + sz) as int,
            )[i] == fb[i] by {
                assert(buf[off + p + i] == whole[p + i]);
                assert(whole[p + i] == (zero_bytes(p) + fb + rest)[p + i]);
            };
        };
        lemma_field_roundtrip(fields[0], vals[0], o);
        assert(buf.subrange(end0 as int, end as int) =~= rest) by {
            assert forall|i: int| 0 <= i < end - end0 implies buf.subrange(
                end0 as int,
                end as int,
            )[i] == rest[i] by {
                assert(buf[end0 + i] == whole[p + sz + i]);
                assert(whole[p + sz + i] == (zero_bytes(p) + fb + rest)[p + sz + i]);
            };
        };
        lemma_dec_of_enc(fields.drop_first(), vals.drop_first(), o, end0, buf);
        assert(dec_fields(fields, o, buf, off) == seq![vals[0]] + vals.drop_first());
        assert(seq![vals[0]] + vals.drop_first() =~= vals);
    }
}

/// Round-trip identity: decoding the wire image of any record, in the
/// byte order it was encoded with, recovers the record, and the image's
/// leading byte is the encoded tag.
pub proof fn lemma_decode_encode_identity(
    has_tag: bool,
    fields: Seq<FieldKind>,
    vals: Seq<FieldValue>,
    o: Endianness,
)
    requires
        record_matches(fields, vals),
    ensures
        ({
            let start: nat = if has_tag {
                1
            } else {
                0
            };
            dec_fields(fields, o, wire_image(has_tag, fields, vals, o), start) == vals
        }),
        has_tag ==> wire_image(has_tag, fields, vals, o)[0] == spec_tag_byte(o),
{
    let start: nat = if has_tag {
        1
    } else {
        0
    };
    let img = wire_image(has_tag, fields, vals, o);
    let end = off_after(fields, start);
    let enc = enc_fields(fields, vals, o, start);
    lemma_enc_fields_len(fields, vals, o, start);
    lemma_wire_image_len(has_tag, fields, vals, o);
    assert(img.subrange(start as int, end as int) =~= enc) by {
        let head: Seq<u8> = if has_tag {
            seq![spec_tag_byte(o)]
        } else {
            Seq::empty()
        };
        let tail = zero_bytes(pad_len(end, max_align(fields)));
        assert forall|i: int| 0 <= i < end - start implies img.subrange(
            start as int,
            end as int,
        )[i] == enc[i] by {
            assert(img[start + i] == (head + enc + tail)[start + i]);
        };
    };
    lemma_dec_of_enc(fields, vals, o, start, img);
}

/// Whether position `i` of a buffer falls inside some field of the layout
/// that starts at `off`.
pub open spec fn in_field_range(fields: Seq<FieldKind>, off: nat, i: int) -> bool {
    exists|j: int|
        0 <= j < fields.len() && #[trigger] field_start(fields, off, j) <= i < field_start(
            fields,
            off,
            j,
        ) + kind_size(fields[j])
}

/// Every encoded byte that belongs to no field is a padding byte, and is
/// zero.
pub proof fn lemma_enc_fields_padding(
    fields: Seq<FieldKind>,
    vals: Seq<FieldValue>,
    o: Endianness,
    off: nat,
    i: int,
)
    requires
        record_matches(fields, vals),
        off <= i < off_after(fields, off),
        !in_field_range(fields, off, i),
    ensures
        enc_fields(fields, vals, o, off)[i - off] == 0,
    decreases fields.len(),
{
    crate::layout::lemma_off_after_ge(fields, off);
    if fields.len() == 0 {
    } else {
        let p = pad_len(off, kind_align(fields[0]));
        let sz = kind_size(fields[0]);
        let end0 = off + p + sz;
        let fs0 = field_start(fields, off, 0);
        assert(fs0 == off + p);
        let fb = field_bytes(vals[0], o);
        let rest = enc_fields(fields.drop_first(), vals.drop_first(), o, end0);
        lemma_field_bytes_len(fields[0], vals[0], o);
        lemma_record_matches_drop_first(fields, vals);
        lemma_enc_fields_len(fields.drop_first(), vals.drop_first(), o, end0);
        if i < fs0 {
            assert((zero_bytes(p) + fb + rest)[i - off] == zero_bytes(p)[i - off]);
        } else if i < fs0 + sz {
            assert(in_field_range(fields, off, i));
        } else {
            assert(!in_field_range(fields.drop_first(), end0, i)) by {
                if in_field_range(fields.drop_first(), end0, i) {
                    let j = choose|j: int|
                        0 <= j < fields.drop_first().len() && #[trigger] field_start(
                            fields.drop_first(),
                            end0,
                            j,
                        ) <= i < field_start(fields.drop_first(), end0, j) + kind_size(
                            fields.drop_first()[j],
                        );
                    assert(field_start(fields, off, j + 1) == field_start(
                        fields.drop_first(),
                        end0,
                        j,
                    ));
                    assert(fields[j + 1] == fields.drop_first()[j]);
                    assert(in_field_range(fields, off, i));
                }
            };
            lemma_enc_fields_padding(fields.drop_first(), vals.drop_first(), o, end0, i);
            assert((zero_bytes(p) + fb + rest)[i - off] == rest[i - end0]);
        }
    }
}

/// In a freshly built wire image every byte outside the tag and outside
/// every field — inter-field padding and trailing padding alike — is zero.
pub proof fn lemma_wire_image_padding_zero(
    has_tag: bool,
    fields: Seq<FieldKind>,
    vals: Seq<FieldValue>,
    o: Endianness,
    i: int,
)
    requires
        record_matches(fields, vals),
        0 <= i < spec_record_size(has_tag, fields),
        !(has_tag && i == 0),
        !in_field_range(fields, if has_tag { 1nat } else { 0nat }, i),
    ensures
        wire_image(has_tag, fields, vals, o)[i] == 0,
{
    let start: nat = if has_tag {
        1
    } else {
        0
    };
    let head: Seq<u8> = if has_tag {
        seq![spec_tag_byte(o)]
    } else {
        Seq::empty()
    };
    let end = off_after(fields, start);
    let enc = enc_fields(fields, vals, o, start);
    let tail = zero_bytes(pad_len(end, max_align(fields)));
    lemma_enc_fields_len(fields, vals, o, start);
    if i < end {
        lemma_enc_fields_padding(fields, vals, o, start, i);
        assert((head + enc + tail)[i] == enc[i - start]);
    } else {
        assert((head + enc + tail)[i] == tail[i - end]);
    }
}

} // verus!
