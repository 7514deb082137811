//! The record encoder and the one-shot response parcel.  Encoding is pure
//! and total for any record that matches its descriptor: the exact byte
//! length is known before a byte is produced, and a parcel emits its
//! bytes exactly once.

use vstd::prelude::*;
use crate::endianness::Endianness;
use crate::layout::{FieldKind, MessageDescriptor, kind_size, kind_align, pad_len, off_after, max_align};
use crate::record::{FieldValue, field_bytes, enc_fields, wire_image, zero_bytes, record_matches};
use crate::wire::write_u64;

verus! {

/// Appends `n` zero-valued padding bytes to `out`.
fn push_zeros(out: &mut Vec<u8>, n: usize)
    requires
        old(out)@.len() + n <= usize::MAX,
    ensures
        final(out)@ == old(out)@ + zero_bytes(n as nat),
{
    let mut i: usize = 0;
    while i < n
        invariant
            i <= n,
            out@ == old(out)@ + zero_bytes(i as nat),
        decreases n - i,
    {
        out.push(0);
        proof {
            assert(old(out)@ + zero_bytes(i as nat) + seq![0u8] =~= old(out)@ + zero_bytes(
                i as nat + 1,
            ));
        }
        i = i + 1;
    }
}

/// Builds the full wire image of a record in byte order `o`: the tag byte
/// if the descriptor carries one, every field at its aligned offset, and
/// zero bytes for all padding.
pub fn encode_record(desc: &MessageDescriptor, vals: &Vec<FieldValue>, o: Endianness) -> (out: Vec<
    u8,
>)
    requires
        desc.wf(),
        record_matches(desc.fields@, vals@),
    ensures
        out@ == wire_image(desc.has_tag, desc.fields@, vals@, o),
        out@.len() == desc.spec_size(),
{
    let ghost start_g: nat = if desc.has_tag {
        1
    } else {
        0
    };
    let ghost head: Seq<u8> = if desc.has_tag {
        seq![crate::endianness::spec_tag_byte(o)]
    } else {
        Seq::<u8>::empty()
    };
    let ghost full: Seq<u8> = head + enc_fields(desc.fields@, vals@, o, start_g);
    let size = desc.computed_size();
    let mut out: Vec<u8> = Vec::new();
    if desc.has_tag {
        out.push(o.tag_byte());
    }
    let mut i: usize = 0;
    let n = desc.fields.len();
    proof {
        assert(desc.fields@.skip(0) =~= desc.fields@);
        assert(vals@.skip(0) =~= vals@);
        assert(out@ =~= head);
        crate::record::lemma_enc_fields_len(desc.fields@, vals@, o, start_g);
        crate::layout::lemma_off_after_ge(desc.fields@, start_g);
    }
    while i < n
        invariant
            i <= n,
            n == desc.fields@.len(),
            desc.wf(),
            record_matches(desc.fields@, vals@),
            size == desc.spec_size(),
            start_g == if desc.has_tag {
                1nat
            } else {
                0nat
            },
            full == head + enc_fields(desc.fields@, vals@, o, start_g),
            out@.len() >= start_g,
            out@ + enc_fields(desc.fields@.skip(i as int), vals@.skip(i as int), o, out@.len())
                == full,
            off_after(desc.fields@, start_g) == off_after(
                desc.fields@.skip(i as int),
                out@.len() as nat,
            ),
        decreases n - i,
    {
        let ghost rest_f = desc.fields@.skip(i as int);
        let ghost rest_v = vals@.skip(i as int);
        let k = desc.fields[i];
        proof {
            assert(rest_f[0] == desc.fields@[i as int]);
            assert(rest_v[0] == vals@[i as int]);
            assert(rest_f.drop_first() =~= desc.fields@.skip(i as int + 1));
            assert(rest_v.drop_first() =~= vals@.skip(i as int + 1));
            assert(crate::record::value_fits(desc.fields@[i as int], vals@[i as int]));
            crate::record::lemma_field_bytes_len(desc.fields@[i as int], vals@[i as int], o);
            crate::layout::lemma_off_after_ge(
                rest_f.drop_first(),
                out@.len() as nat + pad_len(out@.len() as nat, kind_align(k)) + kind_size(k),
            );
            assert(desc.spec_size() >= off_after(desc.fields@, start_g));
        }
        let (sz, al): (usize, usize) = match k {
            FieldKind::Byte => (1, 1),
            FieldKind::Double => (8, 8),
        };
        let cur = out.len();
        let ghost out0 = out@;
        let pad = (al - cur % al) % al;
        proof {
            assert(pad == pad_len(cur as nat, kind_align(k)));
            assert(cur + pad + sz <= off_after(desc.fields@, start_g));
        }
        push_zeros(&mut out, pad);
        match vals[i] {
            FieldValue::Byte(b) => {
                out.push(b);
                proof {
                    assert(out@ =~= out0 + zero_bytes(pad as nat) + field_bytes(
                        vals@[i as int],
                        o,
                    ));
                }
            },
            FieldValue::Double(x) => {
                write_u64(&mut out, x, o);
                proof {
                    assert(out@ =~= out0 + zero_bytes(pad as nat) + field_bytes(
                        vals@[i as int],
                        o,
                    ));
                }
            },
        }
        proof {
            let fb = field_bytes(vals@[i as int], o);
            assert(enc_fields(rest_f, rest_v, o, cur as nat) == zero_bytes(pad as nat) + fb
                + enc_fields(
                desc.fields@.skip(i as int + 1),
                vals@.skip(i as int + 1),
                o,
                (cur + pad + sz) as nat,
            ));
            assert(out@.len() == cur + pad + sz);
            assert(out@ + enc_fields(
                desc.fields@.skip(i as int + 1),
                vals@.skip(i as int + 1),
                o,
                out@.len() as nat,
            ) =~= out0 + enc_fields(rest_f, rest_v, o, cur as nat));
        }
        i = i + 1;
    }
    proof {
        assert(desc.fields@.skip(n as int) =~= Seq::<FieldKind>::empty());
        assert(vals@.skip(n as int) =~= Seq::<FieldValue>::empty());
        assert(out@ + Seq::<u8>::empty() =~= out@);
        assert(out@ == full);
    }
    let end = out.len();
    proof {
        assert(end == off_after(desc.fields@, start_g));
    }
    let pad = size - end;
    proof {
        assert(size == end + pad_len(end as nat, max_align(desc.fields@)));
        assert(pad == pad_len(end as nat, max_align(desc.fields@)));
    }
    push_zeros(&mut out, pad);
    proof {
        assert(out@ == wire_image(desc.has_tag, desc.fields@, vals@, o));
    }
    out
}

/// A single-use response-body producer.
///
/// Wraps one response record and the byte order the requesting client
/// asked for.  `already_sent` is a one-shot latch: the parcel yields the
/// record's wire image exactly once, then yields nothing forever.
pub struct ResponseParcel {
    pub endianness: Endianness,
    pub already_sent: bool,
    pub desc: MessageDescriptor,
    pub message: Vec<FieldValue>,
}

impl ResponseParcel {
    /// The wrapped record always matches its descriptor.
    pub open spec fn wf(&self) -> bool {
        &&& self.desc.wf()
        &&& record_matches(self.desc.fields@, self.message@)
    }

    /// Wraps a record for sending; nothing is emitted yet.
    pub fn new(endianness: Endianness, desc: MessageDescriptor, message: Vec<FieldValue>) -> (p:
        ResponseParcel)
        requires
            desc.wf(),
            record_matches(desc.fields@, message@),
        ensures
            p.wf(),
            p.endianness == endianness,
            p.already_sent == false,
            p.desc == desc,
            p.message@ == message@,
    {
        ResponseParcel { endianness, already_sent: false, desc, message }
    }

    /// The exact number of body bytes the parcel will produce, available
    /// before any byte is emitted so the transport can frame the response.
    pub fn declared_size(&self) -> (n: usize)
        requires
            self.wf(),
        ensures
            n == self.desc.spec_size(),
    {
        self.desc.computed_size()
    }

    /// Yields the record's wire image in the requested byte order on the
    /// first call, and `None` on every later call, however often it is
    /// polled.  The emitted image is exactly `declared_size` bytes long.
    pub fn next_chunk(&mut self) -> (r: Option<Vec<u8>>)
        requires
            old(self).wf(),
        ensures
            final(self).wf(),
            final(self).endianness == old(self).endianness,
            final(self).desc == old(self).desc,
            final(self).message@ == old(self).message@,
            final(self).already_sent,
            old(self).already_sent ==> r is None,
            !old(self).already_sent ==> match r {
                Some(bytes) => {
                    &&& bytes@ == wire_image(
                        old(self).desc.has_tag,
                        old(self).desc.fields@,
                        old(self).message@,
                        old(self).endianness,
                    )
                    &&& bytes@.len() == old(self).desc.spec_size()
                    &&& old(self).desc.fields@.len() > 0 ==> bytes@.len() > 0
                },
                None => false,
            },
    {
        if self.already_sent {
            return None;
        }
        let bytes = encode_record(&self.desc, &self.message, self.endianness);
        proof {
            if self.desc.fields@.len() > 0 {
                let start: nat = if self.desc.has_tag {
                    1
                } else {
                    0
                };
                crate::layout::lemma_off_after_ge(
                    self.desc.fields@.drop_first(),
                    start + crate::layout::pad_len(
                        start,
                        crate::layout::kind_align(self.desc.fields@[0]),
                    ) + crate::layout::kind_size(self.desc.fields@[0]),
                );
            }
        }
        self.already_sent = true;
        Some(bytes)
    }
}

} // verus!
