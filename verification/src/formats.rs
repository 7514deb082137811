//! Documentation utilities derived from a message descriptor: the
//! portable struct-format string (one character per byte: a type code per
//! field, a no-op code per padding byte) and browser-side snippets that
//! build a request buffer and read a response.  These describe the wire
//! layout; the codec itself never consumes them.

use vstd::prelude::*;
use vstd::string::StringExecFns;
use crate::layout::{
    FieldKind, MessageDescriptor, kind_size, kind_align, pad_len, off_after, spec_record_size,
};

verus! {

/// The character of a decimal digit.
pub open spec fn dec_digit(d: nat) -> char {
    if d == 0 {
        '0'
    } else if d == 1 {
        '1'
    } else if d == 2 {
        '2'
    } else if d == 3 {
        '3'
    } else if d == 4 {
        '4'
    } else if d == 5 {
        '5'
    } else if d == 6 {
        '6'
    } else if d == 7 {
        '7'
    } else if d == 8 {
        '8'
    } else {
        '9'
    }
}

/// The decimal rendering of a number, most significant digit first.
pub open spec fn dec_str(n: nat) -> Seq<char>
    decreases n,
{
    if n < 10 {
        seq![dec_digit(n)]
    } else {
        dec_str(n / 10) + seq![dec_digit(n % 10)]
    }
}

/// The one-character string of a decimal digit.
fn digit_str(d: usize) -> (s: &'static str)
    requires
        d < 10,
    ensures
        s@ == seq![dec_digit(d as nat)],
{
    if d == 0 {
        proof {
            reveal_strlit("0");
            assert("0"@ =~= seq!['0']);
        }
        "0"
    } else if d == 1 {
        proof {
            reveal_strlit("1");
            assert("1"@ =~= seq!['1']);
        }
        "1"
    } else if d == 2 {
        proof {
            reveal_strlit("2");
            assert("2"@ =~= seq!['2']);
        }
        "2"
    } else if d == 3 {
        proof {
            reveal_strlit("3");
            assert("3"@ =~= seq!['3']);
        }
        "3"
    } else if d == 4 {
        proof {
            reveal_strlit("4");
            assert("4"@ =~= seq!['4']);
        }
        "4"
    } else if d == 5 {
        proof {
            reveal_strlit("5");
            assert("5"@ =~= seq!['5']);
        }
        "5"
    } else if d == 6 {
        proof {
            reveal_strlit("6");
            assert("6"@ =~= seq!['6']);
        }
        "6"
    } else if d == 7 {
        proof {
            reveal_strlit("7");
            assert("7"@ =~= seq!['7']);
        }
        "7"
    } else if d == 8 {
        proof {
            reveal_strlit("8");
            assert("8"@ =~= seq!['8']);
        }
        "8"
    } else {
        proof {
            reveal_strlit("9");
            assert("9"@ =~= seq!['9']);
        }
        "9"
    }
}

/// Renders a number in decimal.
pub fn usize_to_string(n: usize) -> (s: String)
    ensures
        s@ == dec_str(n as nat),
    decreases n,
{
    if n < 10 {
        String::from_str(digit_str(n))
    } else {
        proof {
            assert(n / 10 < n) by (nonlinear_arith)
                requires
                    n >= 10,
            ;
        }
        let mut s = usize_to_string(n / 10);
        s.append(digit_str(n % 10));
        s
    }
}

/// The format-string code of a field kind: `B` for a one-byte unsigned
/// integer, `d` for an eight-byte double.
pub open spec fn kind_code(k: FieldKind) -> char {
    match k {
        FieldKind::Byte => 'B',
        FieldKind::Double => 'd',
    }
}

/// `n` no-op codes, one per padding byte.
pub open spec fn x_chars(n: nat) -> Seq<char> {
    Seq::new(n, |i: int| 'x')
}

/// Format-string characters of the fields laid out from `off`: for each
/// field, its padding's no-op codes, then its own code.  Trailing record
/// padding has no code.
pub open spec fn fmt_fields(fields: Seq<FieldKind>, off: nat) -> Seq<char>
    decreases fields.len(),
{
    if fields.len() == 0 {
        Seq::empty()
    } else {
        x_chars(pad_len(off, kind_align(fields[0]))) + seq![kind_code(fields[0])] + fmt_fields(
            fields.drop_first(),
            off + pad_len(off, kind_align(fields[0])) + kind_size(fields[0]),
        )
    }
}

/// The full format string of a record: a leading `B` for the endianness
/// tag of request records, then each field's codes.
pub open spec fn spec_format_string(has_tag: bool, fields: Seq<FieldKind>) -> Seq<char> {
    (if has_tag {
        seq!['B']
    } else {
        Seq::<char>::empty()
    }) + fmt_fields(
        fields,
        if has_tag {
            1nat
        } else {
            0nat
        },
    )
}

/// Builds the format string of a descriptor.
pub fn format_string(desc: &MessageDescriptor) -> (s: String)
    requires
        desc.wf(),
    ensures
        s@ == spec_format_string(desc.has_tag, desc.fields@),
{
    let ghost start_g: nat = if desc.has_tag {
        1
    } else {
        0
    };
    let ghost head: Seq<char> = if desc.has_tag {
        seq!['B']
    } else {
        Seq::<char>::empty()
    };
    let ghost full: Seq<char> = head + fmt_fields(desc.fields@, start_g);
    let mut s = String::new();
    let mut cur: usize = if desc.has_tag {
        proof {
            reveal_strlit("B");
            assert("B"@ =~= seq!['B']);
        }
        s.append("B");
        1
    } else {
        0
    };
    let mut i: usize = 0;
    let n = desc.fields.len();
    proof {
        assert(desc.fields@.skip(0) =~= desc.fields@);
        assert(s@ =~= head);
        crate::layout::lemma_off_after_ge(desc.fields@, start_g);
        crate::layout::lemma_off_after_le(desc.fields@, start_g);
    }
    while i < n
        invariant
            i <= n,
            n == desc.fields@.len(),
            desc.wf(),
            start_g == if desc.has_tag {
                1nat
            } else {
                0nat
            },
            full == head + fmt_fields(desc.fields@, start_g),
            cur as nat >= start_g,
            off_after(desc.fields@, start_g) <= 0xF0001,
            s@ + fmt_fields(desc.fields@.skip(i as int), cur as nat) == full,
            off_after(desc.fields@, start_g) == off_after(
                desc.fields@.skip(i as int),
                cur as nat,
            ),
        decreases n - i,
    {
        let ghost rest = desc.fields@.skip(i as int);
        let k = desc.fields[i];
        proof {
            assert(rest[0] == desc.fields@[i as int]);
            assert(rest.drop_first() =~= desc.fields@.skip(i as int + 1));
            crate::layout::lemma_off_after_ge(
                rest.drop_first(),
                cur as nat + pad_len(cur as nat, kind_align(k)) + kind_size(k),
            );
        }
        let (sz, al): (usize, usize) = match k {
            FieldKind::Byte => (1, 1),
            FieldKind::Double => (8, 8),
        };
        let pad = (al - cur % al) % al;
        proof {
            assert(pad == pad_len(cur as nat, kind_align(k)));
            assert(cur + pad + sz <= off_after(desc.fields@, start_g));
        }
        let ghost s0 = s@;
        let mut j: usize = 0;
        while j < pad
            invariant
                j <= pad,
                s@ == s0 + x_chars(j as nat),
            decreases pad - j,
        {
            proof {
                reveal_strlit("x");
                assert("x"@ =~= seq!['x']);
            }
            s.append("x");
            proof {
                assert(s0 + x_chars(j as nat) + "x"@ =~= s0 + x_chars(j as nat + 1));
            }
            j = j + 1;
        }
        match k {
            FieldKind::Byte => {
                proof {
                    reveal_strlit("B");
                    assert("B"@ =~= seq!['B']);
                }
                s.append("B");
            },
            FieldKind::Double => {
                proof {
                    reveal_strlit("d");
                    assert("d"@ =~= seq!['d']);
                }
                s.append("d");
            },
        }
        proof {
            assert(s@ =~= s0 + x_chars(pad as nat) + seq![kind_code(k)]);
            assert(fmt_fields(rest, cur as nat) == x_chars(pad as nat) + seq![kind_code(k)]
                + fmt_fields(desc.fields@.skip(i as int + 1), (cur + pad + sz) as nat));
            assert(s@ + fmt_fields(desc.fields@.skip(i as int + 1), (cur + pad + sz) as nat)
                =~= s0 + fmt_fields(rest, cur as nat));
        }
        cur = cur + pad + sz;
        i = i + 1;
    }
    proof {
        assert(desc.fields@.skip(n as int) =~= Seq::<FieldKind>::empty());
        assert(s@ + Seq::<char>::empty() =~= s@);
    }
    s
}


/// One line of the request-building snippet that stores a one-byte or an
/// eight-byte field of the argument buffer.
pub open spec fn js_set_line(off: nat, name: Seq<char>, k: FieldKind) -> Seq<char> {
    match k {
        FieldKind::Byte => "args.setUint8("@ + dec_str(off) + ", "@ + name + ");\n"@,
        FieldKind::Double => "args.setFloat64("@ + dec_str(off) + ", "@ + name
            + ", native_endianness);\n"@,
    }
}

/// One line of the request-building snippet that zeroes a padding byte.
pub open spec fn js_pad_line(off: nat) -> Seq<char> {
    "args.setUint8("@ + dec_str(off) + ", 0); // padding\n"@
}

/// The `n` padding lines for offsets `off` to `off + n - 1`.
pub open spec fn js_pad_lines(off: nat, n: nat) -> Seq<char>
    decreases n,
{
    if n == 0 {
        Seq::empty()
    } else {
        js_pad_lines(off, (n - 1) as nat) + js_pad_line((off + n - 1) as nat)
    }
}

/// The store lines of the fields laid out from `off`, each preceded by
/// the padding lines that align it.
pub open spec fn js_field_lines(
    fields: Seq<FieldKind>,
    names: Seq<Seq<char>>,
    off: nat,
) -> Seq<char>
    recommends
        names.len() == fields.len(),
    decreases fields.len(),
{
    if fields.len() == 0 {
        Seq::empty()
    } else {
        let p = pad_len(off, kind_align(fields[0]));
        js_pad_lines(off, p) + js_set_line(off + p, names[0], fields[0]) + js_field_lines(
            fields.drop_first(),
            names.drop_first(),
            off + p + kind_size(fields[0]),
        )
    }
}

/// The browser-side snippet that allocates an argument buffer of the
/// record's exact size and stores every slot: the endianness tag, each
/// field at its offset, and zero for each padding byte.
pub open spec fn spec_js_build_args_buffer(
    has_tag: bool,
    fields: Seq<FieldKind>,
    names: Seq<Seq<char>>,
) -> Seq<char>
    recommends
        names.len() == fields.len() + if has_tag {
            1int
        } else {
            0int
        },
{
    "const args_buffer = new ArrayBuffer("@ + dec_str(spec_record_size(has_tag, fields)) + ");\n"@
        + "const args = new DataView(args_buffer);\n"@ + (if has_tag {
        js_set_line(0, names[0], FieldKind::Byte)
    } else {
        Seq::<char>::empty()
    }) + js_field_lines(
        fields,
        if has_tag {
            names.drop_first()
        } else {
            names
        },
        if has_tag {
            1nat
        } else {
            0nat
        },
    )
}

/// Appends the store line of one field slot.
fn emit_set_line(s: &mut String, off: usize, name: &'static str, byte_slot: bool)
    ensures
        final(s)@ == old(s)@ + js_set_line(
            off as nat,
            name@,
            if byte_slot {
                FieldKind::Byte
            } else {
                FieldKind::Double
            },
        ),
{
    let num = usize_to_string(off);
    if byte_slot {
        s.append("args.setUint8(");
        s.append(num.as_str());
        s.append(", ");
        s.append(name);
        s.append(");\n");
        proof {
            assert(s@ =~= old(s)@ + js_set_line(off as nat, name@, FieldKind::Byte));
        }
    } else {
        s.append("args.setFloat64(");
        s.append(num.as_str());
        s.append(", ");
        s.append(name);
        s.append(", native_endianness);\n");
        proof {
            assert(s@ =~= old(s)@ + js_set_line(off as nat, name@, FieldKind::Double));
        }
    }
}

/// Appends the zeroing line of one padding byte.
fn emit_pad_line(s: &mut String, off: usize)
    ensures
        final(s)@ == old(s)@ + js_pad_line(off as nat),
{
    let num = usize_to_string(off);
    s.append("args.setUint8(");
    s.append(num.as_str());
    s.append(", 0); // padding\n");
    proof {
        assert(s@ =~= old(s)@ + js_pad_line(off as nat));
    }
}

/// Builds the request-building snippet of a descriptor.  `names` lists
/// one identifier per slot, the endianness tag's first when the
/// descriptor carries one.
pub fn js_build_args_buffer(desc: &MessageDescriptor, names: &Vec<&'static str>) -> (s: String)
    requires
        desc.wf(),
        names@.len() == desc.fields@.len() + if desc.has_tag {
            1int
        } else {
            0int
        },
    ensures
        s@ == spec_js_build_args_buffer(
            desc.has_tag,
            desc.fields@,
            names@.map_values(|nm: &'static str| nm@),
        ),
{
    let ghost vnames: Seq<Seq<char>> = names@.map_values(|nm: &'static str| nm@);
    let ghost fnames: Seq<Seq<char>> = if desc.has_tag {
        vnames.drop_first()
    } else {
        vnames
    };
    let ghost start_g: nat = if desc.has_tag {
        1
    } else {
        0
    };
    let size = desc.computed_size();
    let mut s = String::from_str("const args_buffer = new ArrayBuffer(");
    let num = usize_to_string(size);
    s.append(num.as_str());
    s.append(");\n");
    s.append("const args = new DataView(args_buffer);\n");
    let mut cur: usize = 0;
    let mut slot: usize = 0;
    if desc.has_tag {
        emit_set_line(&mut s, 0, names[0], true);
        cur = 1;
        slot = 1;
    }
    let ghost head: Seq<char> = s@;
    proof {
        assert(head =~= "const args_buffer = new ArrayBuffer("@ + dec_str(size as nat) + ");\n"@
            + "const args = new DataView(args_buffer);\n"@ + (if desc.has_tag {
            js_set_line(0, vnames[0], FieldKind::Byte)
        } else {
            Seq::<char>::empty()
        }));
        assert(desc.fields@.skip(0) =~= desc.fields@);
        assert(fnames.skip(0) =~= fnames);
        crate::layout::lemma_off_after_ge(desc.fields@, start_g);
        crate::layout::lemma_off_after_le(desc.fields@, start_g);
    }
    let mut i: usize = 0;
    let n = desc.fields.len();
    while i < n
        invariant
            i <= n,
            n == desc.fields@.len(),
            desc.wf(),
            start_g == if desc.has_tag {
                1nat
            } else {
                0nat
            },
            slot == i + start_g,
            names@.len() == n + start_g,
            vnames == names@.map_values(|nm: &'static str| nm@),
            fnames == if desc.has_tag {
                vnames.drop_first()
            } else {
                vnames
            },
            fnames.len() == n,
            cur as nat >= start_g,
            off_after(desc.fields@, start_g) <= 0xF0001,
            s@ + js_field_lines(desc.fields@.skip(i as int), fnames.skip(i as int), cur as nat)
                == head + js_field_lines(desc.fields@, fnames, start_g),
            off_after(desc.fields@, start_g) == off_after(
                desc.fields@.skip(i as int),
                cur as nat,
            ),
        decreases n - i,
    {
        let ghost rest = desc.fields@.skip(i as int);
        let ghost rnames = fnames.skip(i as int);
        let k = desc.fields[i];
        proof {
            assert(rest[0] == desc.fields@[i as int]);
            assert(rnames[0] == fnames[i as int]);
            assert(rest.drop_first() =~= desc.fields@.skip(i as int + 1));
            assert(rnames.drop_first() =~= fnames.skip(i as int + 1));
            crate::layout::lemma_off_after_ge(
                rest.drop_first(),
                cur as nat + pad_len(cur as nat, kind_align(k)) + kind_size(k),
            );
        }
        let (sz, al): (usize, usize) = match k {
            FieldKind::Byte => (1, 1),
            FieldKind::Double => (8, 8),
        };
        let pad = (al - cur % al) % al;
        proof {
            assert(pad == pad_len(cur as nat, kind_align(k)));
            assert(cur + pad + sz <= off_after(desc.fields@, start_g));
        }
        let ghost s0 = s@;
        let mut j: usize = 0;
        while j < pad
            invariant
                j <= pad,
                cur + pad <= usize::MAX,
                s@ == s0 + js_pad_lines(cur as nat, j as nat),
            decreases pad - j,
        {
            emit_pad_line(&mut s, cur + j);
            j = j + 1;
        }
        let name: &'static str = names[slot];
        proof {
            assert(name@ == rnames[0]) by {
                if desc.has_tag {
                    assert(vnames.drop_first()[i as int] == vnames[i as int + 1]);
                }
                assert(vnames[slot as int] == names@[slot as int]@);
            };
        }
        match k {
            FieldKind::Byte => {
                emit_set_line(&mut s, cur + pad, name, true);
            },
            FieldKind::Double => {
                emit_set_line(&mut s, cur + pad, name, false);
            },
        }
        proof {
            assert(js_field_lines(rest, rnames, cur as nat) == js_pad_lines(cur as nat, pad as nat)
                + js_set_line((cur + pad) as nat, rnames[0], k) + js_field_lines(
                rest.drop_first(),
                rnames.drop_first(),
                (cur + pad + sz) as nat,
            ));
            assert(s@ + js_field_lines(
                desc.fields@.skip(i as int + 1),
                fnames.skip(i as int + 1),
                (cur + pad + sz) as nat,
            ) =~= s0 + js_field_lines(rest, rnames, cur as nat));
        }
        cur = cur + pad + sz;
        slot = slot + 1;
        i = i + 1;
    }
    proof {
        assert(desc.fields@.skip(n as int) =~= Seq::<FieldKind>::empty());
        assert(fnames.skip(n as int) =~= Seq::<Seq<char>>::empty());
        assert(s@ + Seq::<char>::empty() =~= s@);
        assert(s@ =~= spec_js_build_args_buffer(desc.has_tag, desc.fields@, vnames));
    }
    s
}

/// One line of the response-reading snippet that names field `i` of the
/// response view.
pub open spec fn js_resp_line(name: Seq<char>, i: nat) -> Seq<char> {
    "\t\tconst "@ + name + " = resp_view["@ + dec_str(i) + "];\n"@
}

/// The reading lines of the first `n` response fields.
pub open spec fn js_resp_lines(names: Seq<Seq<char>>, n: nat) -> Seq<char>
    recommends
        n <= names.len(),
    decreases n,
{
    if n == 0 {
        Seq::empty()
    } else {
        js_resp_lines(names, (n - 1) as nat) + js_resp_line(names[n - 1], (n - 1) as nat)
    }
}

/// The browser-side snippet that posts a request and reads each response
/// field out of the returned buffer by its index.
pub open spec fn spec_js_send_req(names: Seq<Seq<char>>) -> Seq<char> {
    "const req = new XMLHttpRequest();\n"@ + "req.open('POST', url);\n"@
        + "req.responseType = 'arraybuffer';\n"@ + "req.onload = (_event) => {\n"@
        + "\t//const status_code = req.status;\n"@
        + "\t//const console.log(`status_code = ${status_code}`);\n"@
        + "\tconst array_buffer = req.response;\n"@ + "\tif (array_buffer) {\n"@
        + "\t\tconst resp_view = new Float64Array(array_buffer);\n"@ + js_resp_lines(
        names,
        names.len(),
    ) + "\t};\n"@ + "};\n"@
}

/// Builds the response-reading snippet for the given field names.
pub fn js_send_req(names: &Vec<&'static str>) -> (s: String)
    ensures
        s@ == spec_js_send_req(names@.map_values(|nm: &'static str| nm@)),
{
    let ghost vnames: Seq<Seq<char>> = names@.map_values(|nm: &'static str| nm@);
    let mut s = String::from_str("const req = new XMLHttpRequest();\n");
    s.append("req.open('POST', url);\n");
    s.append("req.responseType = 'arraybuffer';\n");
    s.append("req.onload = (_event) => {\n");
    s.append("\t//const status_code = req.status;\n");
    s.append("\t//const console.log(`status_code = ${status_code}`);\n");
    s.append("\tconst array_buffer = req.response;\n");
    s.append("\tif (array_buffer) {\n");
    s.append("\t\tconst resp_view = new Float64Array(array_buffer);\n");
    let ghost head: Seq<char> = s@;
    let mut i: usize = 0;
    let n = names.len();
    while i < n
        invariant
            i <= n,
            n == names@.len(),
            vnames == names@.map_values(|nm: &'static str| nm@),
            s@ == head + js_resp_lines(vnames, i as nat),
        decreases n - i,
    {
        let ghost s0 = s@;
        s.append("\t\tconst ");
        s.append(names[i]);
        s.append(" = resp_view[");
        let num = usize_to_string(i);
        s.append(num.as_str());
        s.append("];\n");
        proof {
            assert(vnames[i as int] == names@[i as int]@);
            assert(s@ =~= s0 + js_resp_line(vnames[i as int], i as nat));
        }
        i = i + 1;
    }
    s.append("\t};\n");
    s.append("};\n");
    proof {
        assert(s@ =~= spec_js_send_req(vnames));
    }
    s
}


} // verus!
