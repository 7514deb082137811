//! The request decoder: accumulates streamed chunks into a buffer bounded
//! by the descriptor's size, validates the total length and the leading
//! endianness tag, and reads the buffer field by field into a typed
//! record in native interpretation.

use vstd::prelude::*;
use crate::ProtocolError;
use crate::endianness::{Endianness, spec_tag_of_byte};
use crate::layout::{FieldKind, MessageDescriptor, kind_size, kind_align, pad_len, off_after};
use crate::record::{FieldValue, dec_field, dec_fields, record_matches};
use crate::wire::read_u64_at;

verus! {

/// Accumulates the chunks of one request body and decodes them once the
/// stream ends.  Owned by a single request; never reused.
///
/// The native byte order is injected at construction; it is only consulted
/// for descriptors that carry no endianness tag of their own.
pub struct Decoder {
    pub desc: MessageDescriptor,
    pub native: Endianness,
    pub size: usize,
    pub buf: Vec<u8>,
}

impl Decoder {
    /// The buffer never outgrows the descriptor's computed size, which
    /// `size` caches.
    pub open spec fn wf(&self) -> bool {
        &&& self.desc.wf()
        &&& self.size == self.desc.spec_size()
        &&& self.buf@.len() <= self.size
    }

    /// The byte order the buffered record is to be read in: its leading
    /// tag for tagged descriptors, the injected native order otherwise.
    pub open spec fn spec_order(&self) -> Option<Endianness> {
        if self.desc.has_tag {
            if self.buf@.len() > 0 {
                spec_tag_of_byte(self.buf@[0])
            } else {
                None
            }
        } else {
            Some(self.native)
        }
    }

    /// A fresh decoder with an empty buffer.
    pub fn new(desc: MessageDescriptor, native: Endianness) -> (d: Decoder)
        requires
            desc.wf(),
        ensures
            d.wf(),
            d.desc == desc,
            d.native == native,
            d.buf@ == Seq::<u8>::empty(),
    {
        let size = desc.computed_size();
        Decoder { desc, native, size, buf: Vec::new() }
    }

    /// Appends one arrived chunk to the internal buffer.  Fails, leaving
    /// the buffer untouched, exactly when the chunk would push the buffer
    /// past the descriptor's size.
    pub fn accumulate(&mut self, chunk: &[u8]) -> (r: Result<(), ProtocolError>)
        requires
            old(self).wf(),
        ensures
            final(self).wf(),
            final(self).desc == old(self).desc,
            final(self).native == old(self).native,
            final(self).size == old(self).size,
            match r {
                Ok(()) => {
                    &&& old(self).buf@.len() + chunk@.len() <= old(self).desc.spec_size()
                    &&& final(self).buf@ == old(self).buf@ + chunk@
                },
                Err(e) => {
                    &&& e == ProtocolError::Overflow
                    &&& old(self).buf@.len() + chunk@.len() > old(self).desc.spec_size()
                    &&& final(self).buf@ == old(self).buf@
                },
            },
    {
        if chunk.len() > self.size - self.buf.len() {
            proof {
                assert(old(self).buf@.len() + chunk@.len() > old(self).desc.spec_size());
            }
            Err(ProtocolError::Overflow)
        } else {
            let n = chunk.len();
            let mut i: usize = 0;
            while i < n
                invariant
                    i <= n,
                    n == chunk@.len(),
                    self.desc == old(self).desc,
                    self.native == old(self).native,
                    self.size == old(self).size,
                    self.buf@ == old(self).buf@ + chunk@.subrange(0, i as int),
                decreases n - i,
            {
                self.buf.push(chunk[i]);
                proof {
                    assert(old(self).buf@ + chunk@.subrange(0, i as int) + seq![chunk@[i as int]]
                        =~= old(self).buf@ + chunk@.subrange(0, i as int + 1));
                }
                i = i + 1;
            }
            proof {
                assert(chunk@.subrange(0, n as int) =~= chunk@);
            }
            Ok(())
        }
    }

    /// Interprets the accumulated buffer as one record.
    ///
    /// The buffer must hold exactly the descriptor's size in bytes, else
    /// the decoder reports a length mismatch — for too few bytes here, for
    /// too many already in `accumulate`.  For a tagged descriptor the
    /// leading byte must be a valid endianness tag, else the decoder
    /// reports it invalid; the returned record's fields are then read in
    /// the tag's byte order, and the consumed tag is returned beside them.
    pub fn finish(&self) -> (r: Result<(Endianness, Vec<FieldValue>), ProtocolError>)
        requires
            self.wf(),
        ensures
            match r {
                Ok((tag, vals)) => {
                    &&& self.buf@.len() == self.desc.spec_size()
                    &&& Some(tag) == self.spec_order()
                    &&& vals@ == dec_fields(
                        self.desc.fields@,
                        tag,
                        self.buf@,
                        if self.desc.has_tag {
                            1nat
                        } else {
                            0nat
                        },
                    )
                    &&& record_matches(self.desc.fields@, vals@)
                },
                Err(ProtocolError::LengthMismatch) => self.buf@.len() != self.desc.spec_size(),
                Err(ProtocolError::InvalidEndianness) => {
                    &&& self.buf@.len() == self.desc.spec_size()
                    &&& self.desc.has_tag
                    &&& self.spec_order() is None
                },
                Err(ProtocolError::Overflow) => false,
            },
    {
        if self.buf.len() != self.size {
            return Err(ProtocolError::LengthMismatch);
        }
        let order: Endianness = if self.desc.has_tag {
            proof {
                crate::layout::lemma_off_after_ge(self.desc.fields@, 1);
                assert(self.buf@.len() >= 1);
            }
            match Endianness::try_from_u8(self.buf[0]) {
                Some(t) => t,
                None => {
                    return Err(ProtocolError::InvalidEndianness);
                },
            }
        } else {
            self.native
        };
        let ghost start_g: nat = if self.desc.has_tag {
            1
        } else {
            0
        };
        let mut cur: usize = if self.desc.has_tag {
            1
        } else {
            0
        };
        let mut vals: Vec<FieldValue> = Vec::new();
        let n = self.desc.fields.len();
        proof {
            assert(self.desc.fields@.skip(0) =~= self.desc.fields@);
            crate::layout::lemma_off_after_ge(self.desc.fields@, start_g);
        }
        while vals.len() < n
            invariant
                vals@.len() <= n,
                n == self.desc.fields@.len(),
                self.wf(),
                self.buf@.len() == self.desc.spec_size(),
                start_g == if self.desc.has_tag {
                    1nat
                } else {
                    0nat
                },
                cur as nat >= start_g,
                off_after(self.desc.fields@, start_g) == off_after(
                    self.desc.fields@.skip(vals@.len() as int),
                    cur as nat,
                ),
                dec_fields(self.desc.fields@, order, self.buf@, start_g) == vals@ + dec_fields(
                    self.desc.fields@.skip(vals@.len() as int),
                    order,
                    self.buf@,
                    cur as nat,
                ),
                record_matches(self.desc.fields@.take(vals@.len() as int), vals@),
            decreases n - vals@.len(),
        {
            let ghost i = vals@.len() as int;
            let ghost rest = self.desc.fields@.skip(i);
            let k = self.desc.fields[vals.len()];
            proof {
                assert(rest[0] == self.desc.fields@[i]);
                assert(rest.drop_first() =~= self.desc.fields@.skip(i + 1));
                crate::layout::lemma_off_after_ge(
                    rest.drop_first(),
                    cur as nat + pad_len(cur as nat, kind_align(k)) + kind_size(k),
                );
                assert(self.desc.spec_size() >= off_after(self.desc.fields@, start_g)) by {
                    crate::layout::lemma_off_after_ge(self.desc.fields@, start_g);
                };
            }
            let (sz, al): (usize, usize) = match k {
                FieldKind::Byte => (1, 1),
                FieldKind::Double => (8, 8),
            };
            let pad = (al - cur % al) % al;
            proof {
                assert(pad == pad_len(cur as nat, kind_align(k)));
                assert(cur as nat + pad + sz <= off_after(self.desc.fields@, start_g));
            }
            let fo = cur + pad;
            let v: FieldValue = match k {
                FieldKind::Byte => FieldValue::Byte(self.buf[fo]),
                FieldKind::Double => FieldValue::Double(
                    read_u64_at(self.buf.as_slice(), fo, order),
                ),
            };
            proof {
                assert(v == dec_field(
                    k,
                    order,
                    self.buf@.subrange(fo as int, fo as int + kind_size(k)),
                )) by {
                    match k {
                        FieldKind::Byte => {
                            assert(self.buf@.subrange(fo as int, fo as int + 1)[0]
                                == self.buf@[fo as int]);
                        },
                        FieldKind::Double => {
                        },
                    }
                };
                assert(dec_fields(rest, order, self.buf@, cur as nat) == seq![v] + dec_fields(
                    rest.drop_first(),
                    order,
                    self.buf@,
                    (cur + pad + sz) as nat,
                ));
            }
            vals.push(v);
            proof {
                assert(vals@ == vals@.subrange(0, i) + seq![v]);
                assert(vals@.subrange(0, i) + seq![v] + dec_fields(
                    self.desc.fields@.skip(i + 1),
                    order,
                    self.buf@,
                    (cur + pad + sz) as nat,
                ) =~= vals@.subrange(0, i) + (seq![v] + dec_fields(
                    self.desc.fields@.skip(i + 1),
                    order,
                    self.buf@,
                    (cur + pad + sz) as nat,
                )));
                assert(record_matches(self.desc.fields@.take(i + 1), vals@)) by {
                    assert(crate::record::value_fits(self.desc.fields@[i], v));
                    assert forall|j: int| 0 <= j < i + 1 implies crate::record::value_fits(
                        self.desc.fields@.take(i + 1)[j],
                        #[trigger] vals@[j],
                    ) by {
                        assert(self.desc.fields@.take(i + 1)[j] == self.desc.fields@[j]);
                        if j < i {
                            assert(crate::record::value_fits(
                                self.desc.fields@.take(i)[j],
                                vals@.subrange(0, i)[j],
                            ));
                            assert(self.desc.fields@.take(i)[j] == self.desc.fields@[j]);
                        }
                    };
                };
            }
            cur = fo + sz;
        }
        proof {
            assert(self.desc.fields@.skip(n as int) =~= Seq::<FieldKind>::empty());
            assert(vals@ + Seq::<FieldValue>::empty() =~= vals@);
            assert(self.desc.fields@.take(n as int) =~= self.desc.fields@);
        }
        Ok((order, vals))
    }
}

} // verus!
