//! Message descriptors and the C layout rules that fix a record's size,
//! per-field offsets and padding.

use vstd::prelude::*;

verus! {

/// A fixed-width primitive field of a record.
#[derive(Clone, Copy, Debug, PartialEq, Eq, Structural)]
pub enum FieldKind {
    /// A one-byte unsigned integer.
    Byte,
    /// An eight-byte IEEE-754 double, carried as its 64-bit pattern.
    Double,
}

/// Width in bytes of a field of the given kind.
pub open spec fn kind_size(k: FieldKind) -> nat {
    match k {
        FieldKind::Byte => 1,
        FieldKind::Double => 8,
    }
}

/// Required alignment of a field of the given kind (its natural alignment).
pub open spec fn kind_align(k: FieldKind) -> nat {
    match k {
        FieldKind::Byte => 1,
        FieldKind::Double => 8,
    }
}

/// Bytes of padding needed to advance `off` to a multiple of `align`.
pub open spec fn pad_len(off: nat, align: nat) -> nat
    recommends
        align > 0,
{
    if align == 0 {
        0
    } else {
        (((align - off % align) as int) % (align as int)) as nat
    }
}

/// The offset just past the last field, when the fields are laid out in
/// order starting at `off`, each aligned to its own size.
pub open spec fn off_after(fields: Seq<FieldKind>, off: nat) -> nat
    decreases fields.len(),
{
    if fields.len() == 0 {
        off
    } else {
        off_after(
            fields.drop_first(),
            off + pad_len(off, kind_align(fields[0])) + kind_size(fields[0]),
        )
    }
}

/// The offset at which field `j` starts (after its preceding padding).
pub open spec fn field_start(fields: Seq<FieldKind>, off: nat, j: int) -> nat
    recommends
        0 <= j < fields.len(),
    decreases j,
{
    if j <= 0 {
        off + pad_len(off, kind_align(fields[0]))
    } else {
        field_start(
            fields.drop_first(),
            off + pad_len(off, kind_align(fields[0])) + kind_size(fields[0]),
            j - 1,
        )
    }
}

/// The largest alignment among the fields: 8 if any double is present,
/// otherwise 1.
pub open spec fn max_align(fields: Seq<FieldKind>) -> nat {
    if exists|i: int| 0 <= i < fields.len() && fields[i] is Double {
        8
    } else {
        1
    }
}

/// Total record size: the end offset of the last field, rounded up so the
/// whole record's size is a multiple of the largest field alignment.
/// Request records start with a one-byte endianness tag at offset 0.
pub open spec fn spec_record_size(has_tag: bool, fields: Seq<FieldKind>) -> nat {
    let start: nat = if has_tag {
        1
    } else {
        0
    };
    let end = off_after(fields, start);
    end + pad_len(end, max_align(fields))
}

/// Laying fields out never moves the cursor backwards.
pub proof fn lemma_off_after_ge(fields: Seq<FieldKind>, off: nat)
    ensures
        off_after(fields, off) >= off,
    decreases fields.len(),
{
    if fields.len() > 0 {
        lemma_off_after_ge(
            fields.drop_first(),
            off + pad_len(off, kind_align(fields[0])) + kind_size(fields[0]),
        );
    }
}

/// Each field contributes at most 7 bytes of padding and 8 bytes of data.
pub proof fn lemma_off_after_le(fields: Seq<FieldKind>, off: nat)
    ensures
        off_after(fields, off) <= off + 15 * fields.len(),
    decreases fields.len(),
{
    if fields.len() > 0 {
        lemma_off_after_le(
            fields.drop_first(),
            off + pad_len(off, kind_align(fields[0])) + kind_size(fields[0]),
        );
    }
}

/// The compile-time-style specification of a record's shape: an ordered
/// field list, and whether the record opens with an endianness tag byte.
pub struct MessageDescriptor {
    pub has_tag: bool,
    pub fields: Vec<FieldKind>,
}

impl MessageDescriptor {
    /// A machine bound: enough fields for any realistic message while
    /// keeping every offset comfortably inside `usize`.
    pub open spec fn wf(&self) -> bool {
        self.fields@.len() <= 0x10000
    }

    /// The record's total size in bytes.
    pub open spec fn spec_size(&self) -> nat {
        spec_record_size(self.has_tag, self.fields@)
    }

    /// Computes the record's total size from the layout rules.
    pub fn computed_size(&self) -> (n: usize)
        requires
            self.wf(),
        ensures
            n == self.spec_size(),
    {
        let ghost start_g: nat = if self.has_tag {
            1
        } else {
            0
        };
        let mut cur: usize = if self.has_tag {
            1
        } else {
            0
        };
        let mut i: usize = 0;
        let mut saw_double: bool = false;
        let n = self.fields.len();
        proof {
            assert(self.fields@.skip(0) =~= self.fields@);
        }
        while i < n
            invariant
                i <= n,
                n == self.fields@.len(),
                n <= 0x10000,
                cur <= 1 + 15 * i,
                off_after(self.fields@, start_g) == off_after(self.fields@.skip(i as int), cur as nat),
                saw_double == exists|j: int| 0 <= j < i && self.fields@[j] is Double,
            decreases n - i,
        {
            let k = self.fields[i];
            let (sz, al): (usize, usize) = match k {
                FieldKind::Byte => (1, 1),
                FieldKind::Double => (8, 8),
            };
            if let FieldKind::Double = k {
                saw_double = true;
            }
            let pad = (al - cur % al) % al;
            proof {
                assert(self.fields@.skip(i as int)[0] == self.fields@[i as int]);
                assert(self.fields@.skip(i as int).drop_first() =~= self.fields@.skip(i as int + 1));
                assert(pad == pad_len(cur as nat, kind_align(self.fields@[i as int])));
            }
            cur = cur + pad + sz;
            i = i + 1;
        }
        proof {
            assert(self.fields@.skip(n as int) =~= Seq::<FieldKind>::empty());
            assert(off_after(self.fields@, start_g) == cur as nat);
        }
        let ma: usize = if saw_double {
            8
        } else {
            1
        };
        proof {
            assert(ma == max_align(self.fields@));
        }
        let pad = (ma - cur % ma) % ma;
        cur + pad
    }
}

/// Whenever a descriptor contains at least one double field, its computed
/// size is a multiple of 8.
pub proof fn lemma_size_multiple_of_eight(has_tag: bool, fields: Seq<FieldKind>)
    requires
        exists|i: int| 0 <= i < fields.len() && fields[i] is Double,
    ensures
        spec_record_size(has_tag, fields) % 8 == 0,
{
    let start: nat = if has_tag {
        1
    } else {
        0
    };
    let end = off_after(fields, start);
    assert(max_align(fields) == 8);
    let r = end % 8;
    vstd::arithmetic::div_mod::lemma_fundamental_div_mod(end as int, 8);
    if r == 0 {
        assert((end + (8 - r) % 8) % 8 == 0) by {
            assert((end + 0) % 8 == 0);
        };
    } else {
        let total = end + (8 - end % 8);
        assert(total == 8 * (end / 8) + 8);
        assert(total % 8 == 0) by {
            vstd::arithmetic::div_mod::lemma_mod_multiples_vanish((end / 8) as int + 1, 0, 8);
        };
    }
}

} // verus!
