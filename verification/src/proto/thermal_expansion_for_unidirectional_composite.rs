//! Messages of the thermal-expansion computation for a unidirectional
//! composite: a tagged request of a model number and seven material
//! parameters, answered by three expansion coefficients.

use vstd::prelude::*;
use crate::endianness::Endianness;
use crate::layout::{FieldKind, MessageDescriptor, spec_record_size};
use crate::record::{FieldValue, record_matches, wire_image};
use crate::encoder::encode_record;
use crate::formats::{
    format_string, js_build_args_buffer, js_send_req, spec_format_string,
    spec_js_build_args_buffer, spec_js_send_req,
};

verus! {

/// Request record; double fields hold IEEE-754 bit patterns.
#[derive(Clone, Copy, Debug, PartialEq, Eq, Structural)]
pub struct ThermalExpansionForUnidirectionalCompositeArgsMessage {
    pub number_of_model: u8,
    pub fibre_content: u64,
    pub e_for_fiber: u64,
    pub nu_for_fiber: u64,
    pub alpha_for_fiber: u64,
    pub e_for_matrix: u64,
    pub nu_for_matrix: u64,
    pub alpha_for_matrix: u64,
}

impl ThermalExpansionForUnidirectionalCompositeArgsMessage {
    /// Field kinds in declaration order; the leading endianness tag is
    /// carried by the descriptor, not listed here.
    pub open spec fn spec_fields() -> Seq<FieldKind> {
        seq![
            FieldKind::Byte,
            FieldKind::Double,
            FieldKind::Double,
            FieldKind::Double,
            FieldKind::Double,
            FieldKind::Double,
            FieldKind::Double,
            FieldKind::Double,
        ]
    }

    /// The record of this message's field values, in declaration order.
    pub open spec fn spec_record(self) -> Seq<FieldValue> {
        seq![
            FieldValue::Byte(self.number_of_model),
            FieldValue::Double(self.fibre_content),
            FieldValue::Double(self.e_for_fiber),
            FieldValue::Double(self.nu_for_fiber),
            FieldValue::Double(self.alpha_for_fiber),
            FieldValue::Double(self.e_for_matrix),
            FieldValue::Double(self.nu_for_matrix),
            FieldValue::Double(self.alpha_for_matrix),
        ]
    }

    /// Names of the wire slots, the endianness tag's first.
    pub open spec fn spec_slot_names() -> Seq<Seq<char>> {
        seq![
            "endianness"@,
            "number_of_model"@,
            "fibre_content"@,
            "e_for_fiber"@,
            "nu_for_fiber"@,
            "alpha_for_fiber"@,
            "e_for_matrix"@,
            "nu_for_matrix"@,
            "alpha_for_matrix"@,
        ]
    }

    /// This message's layout: a leading endianness tag, then the fields.
    pub fn descriptor() -> (d: MessageDescriptor)
        ensures
            d.has_tag,
            d.fields@ == Self::spec_fields(),
            d.wf(),
    {
        let mut fields: Vec<FieldKind> = Vec::new();
        fields.push(FieldKind::Byte);
        fields.push(FieldKind::Double);
        fields.push(FieldKind::Double);
        fields.push(FieldKind::Double);
        fields.push(FieldKind::Double);
        fields.push(FieldKind::Double);
        fields.push(FieldKind::Double);
        fields.push(FieldKind::Double);
        proof {
            assert(fields@ =~= Self::spec_fields());
        }
        MessageDescriptor { has_tag: true, fields }
    }

    /// This message's record, ready for the generic codec.
    pub fn to_record(&self) -> (v: Vec<FieldValue>)
        ensures
            v@ == self.spec_record(),
            record_matches(Self::spec_fields(), v@),
    {
        let mut v: Vec<FieldValue> = Vec::new();
        v.push(FieldValue::Byte(self.number_of_model));
        v.push(FieldValue::Double(self.fibre_content));
        v.push(FieldValue::Double(self.e_for_fiber));
        v.push(FieldValue::Double(self.nu_for_fiber));
        v.push(FieldValue::Double(self.alpha_for_fiber));
        v.push(FieldValue::Double(self.e_for_matrix));
        v.push(FieldValue::Double(self.nu_for_matrix));
        v.push(FieldValue::Double(self.alpha_for_matrix));
        proof {
            assert(v@ =~= self.spec_record());
        }
        v
    }

    /// Rebuilds the message from a decoded record; `None` exactly when
    /// the record does not match this message's field list.
    pub fn from_record(v: &Vec<FieldValue>) -> (r: Option<Self>)
        ensures
            match r {
                Some(m) => record_matches(Self::spec_fields(), v@) && m.spec_record() == v@,
                None => !record_matches(Self::spec_fields(), v@),
            },
    {
        if v.len() != 8 {
            return None;
        }
        let number_of_model = match v[0] {
            FieldValue::Byte(x) => x,
            _ => {
                return None;
            },
        };
        let fibre_content = match v[1] {
            FieldValue::Double(x) => x,
            _ => {
                return None;
            },
        };
        let e_for_fiber = match v[2] {
            FieldValue::Double(x) => x,
            _ => {
                return None;
            },
        };
        let nu_for_fiber = match v[3] {
            FieldValue::Double(x) => x,
            _ => {
                return None;
            },
        };
        let alpha_for_fiber = match v[4] {
            FieldValue::Double(x) => x,
            _ => {
                return None;
            },
        };
        let e_for_matrix = match v[5] {
            FieldValue::Double(x) => x,
            _ => {
                return None;
            },
        };
        let nu_for_matrix = match v[6] {
            FieldValue::Double(x) => x,
            _ => {
                return None;
            },
        };
        let alpha_for_matrix = match v[7] {
            FieldValue::Double(x) => x,
            _ => {
                return None;
            },
        };
        let m = ThermalExpansionForUnidirectionalCompositeArgsMessage {
            number_of_model,
            fibre_content,
            e_for_fiber,
            nu_for_fiber,
            alpha_for_fiber,
            e_for_matrix,
            nu_for_matrix,
            alpha_for_matrix,
        };
        proof {
            assert(m.spec_record() =~= v@);
        }
        Some(m)
    }

    /// The wire image of this message in byte order `o`, tag included.
    pub fn into_bytes(self, o: Endianness) -> (out: Vec<u8>)
        ensures
            out@ == wire_image(true, Self::spec_fields(), self.spec_record(), o),
            out@.len() == spec_record_size(true, Self::spec_fields()),
    {
        let desc = Self::descriptor();
        let rec = self.to_record();
        encode_record(&desc, &rec, o)
    }

    /// The record's total wire size in bytes.
    pub fn size() -> (n: usize)
        ensures
            n == spec_record_size(true, Self::spec_fields()),
    {
        Self::descriptor().computed_size()
    }

    /// A documented example request.
    pub fn example() -> (m: Self)
        ensures
            m == Self::example_spec(),
    {
        ThermalExpansionForUnidirectionalCompositeArgsMessage {
            number_of_model: 1,
            fibre_content: 0x3FC999999999999A,
            e_for_fiber: 0x4059000000000000,
            nu_for_fiber: 0x3FD3333333333333,
            alpha_for_fiber: 0x3EB0C6F7A0B5ED8D,
            e_for_matrix: 0x4014000000000000,
            nu_for_matrix: 0x3FC999999999999A,
            alpha_for_matrix: 0x3F2A36E2EB1C432D,
        }
    }

    /// The example value, for contracts that speak of it.
    pub open spec fn example_spec() -> Self {
        ThermalExpansionForUnidirectionalCompositeArgsMessage {
            number_of_model: 1,
            fibre_content: 0x3FC999999999999A,
            e_for_fiber: 0x4059000000000000,
            nu_for_fiber: 0x3FD3333333333333,
            alpha_for_fiber: 0x3EB0C6F7A0B5ED8D,
            e_for_matrix: 0x4014000000000000,
            nu_for_matrix: 0x3FC999999999999A,
            alpha_for_matrix: 0x3F2A36E2EB1C432D,
        }
    }

    /// The content-type string that identifies this message.
    pub fn content_type() -> (s: &'static str)
        ensures
            s@ == "application/x.thermal-expansion-for-unidirectional-composite-args-message"@,
    {
        "application/x.thermal-expansion-for-unidirectional-composite-args-message"
    }

    /// The portable struct-format string of this message's layout.
    pub fn py_struct_format_string() -> (s: String)
        ensures
            s@ == spec_format_string(true, Self::spec_fields()),
    {
        format_string(&Self::descriptor())
    }

    /// The wire slot names, the endianness tag's first.
    pub fn slot_names() -> (names: Vec<&'static str>)
        ensures
            names@.map_values(|nm: &'static str| nm@) == Self::spec_slot_names(),
    {
        let mut names: Vec<&'static str> = Vec::new();
        names.push("endianness");
        names.push("number_of_model");
        names.push("fibre_content");
        names.push("e_for_fiber");
        names.push("nu_for_fiber");
        names.push("alpha_for_fiber");
        names.push("e_for_matrix");
        names.push("nu_for_matrix");
        names.push("alpha_for_matrix");
        proof {
            assert(names@.map_values(|nm: &'static str| nm@) =~= Self::spec_slot_names());
        }
        names
    }

    /// The browser-side snippet that fills this message's buffer.
    pub fn js_build_args_buffer() -> (s: String)
        ensures
            s@ == spec_js_build_args_buffer(true, Self::spec_fields(), Self::spec_slot_names()),
    {
        let names = Self::slot_names();
        js_build_args_buffer(&Self::descriptor(), &names)
    }
}

/// Response record: the three expansion coefficients, as IEEE-754 bit
/// patterns.
#[derive(Clone, Copy, Debug, PartialEq, Eq, Structural)]
pub struct ThermalExpansionForUnidirectionalCompositeResponseMessage {
    pub alpha1: u64,
    pub alpha2: u64,
    pub alpha3: u64,
}

impl ThermalExpansionForUnidirectionalCompositeResponseMessage {
    /// Field kinds in declaration order; responses carry no tag.
    pub open spec fn spec_fields() -> Seq<FieldKind> {
        seq![
            FieldKind::Double,
            FieldKind::Double,
            FieldKind::Double,
        ]
    }

    /// The record of this message's field values, in declaration order.
    pub open spec fn spec_record(self) -> Seq<FieldValue> {
        seq![
            FieldValue::Double(self.alpha1),
            FieldValue::Double(self.alpha2),
            FieldValue::Double(self.alpha3),
        ]
    }

    /// Names of the wire slots.
    pub open spec fn spec_slot_names() -> Seq<Seq<char>> {
        seq!["alpha1"@, "alpha2"@, "alpha3"@]
    }

    /// This message's layout: a flat sequence of doubles, no tag.
    pub fn descriptor() -> (d: MessageDescriptor)
        ensures
            !d.has_tag,
            d.fields@ == Self::spec_fields(),
            d.wf(),
    {
        let mut fields: Vec<FieldKind> = Vec::new();
        fields.push(FieldKind::Double);
        fields.push(FieldKind::Double);
        fields.push(FieldKind::Double);
        proof {
            assert(fields@ =~= Self::spec_fields());
        }
        MessageDescriptor { has_tag: false, fields }
    }

    /// This message's record, ready for the generic codec.
    pub fn to_record(&self) -> (v: Vec<FieldValue>)
        ensures
            v@ == self.spec_record(),
            record_matches(Self::spec_fields(), v@),
    {
        let mut v: Vec<FieldValue> = Vec::new();
        v.push(FieldValue::Double(self.alpha1));
        v.push(FieldValue::Double(self.alpha2));
        v.push(FieldValue::Double(self.alpha3));
        proof {
            assert(v@ =~= self.spec_record());
        }
        v
    }

    /// The wire image of this message in byte order `o`.
    pub fn into_bytes(self, o: Endianness) -> (out: Vec<u8>)
        ensures
            out@ == wire_image(false, Self::spec_fields(), self.spec_record(), o),
            out@.len() == spec_record_size(false, Self::spec_fields()),
    {
        let desc = Self::descriptor();
        let rec = self.to_record();
        encode_record(&desc, &rec, o)
    }

    /// The record's total wire size in bytes.
    pub fn size() -> (n: usize)
        ensures
            n == spec_record_size(false, Self::spec_fields()),
    {
        Self::descriptor().computed_size()
    }

    /// The documented response to the example request.
    pub fn example() -> (m: Self)
        ensures
            m == Self::example_spec(),
    {
        ThermalExpansionForUnidirectionalCompositeResponseMessage {
            alpha1: 0x3F01515615D39BF0,
            alpha2: 0x3F25AAAD3AFA9F16,
            alpha3: 0x3F25AAAD3AFA9F16,
        }
    }

    /// The example value, for contracts that speak of it.
    pub open spec fn example_spec() -> Self {
        ThermalExpansionForUnidirectionalCompositeResponseMessage {
            alpha1: 0x3F01515615D39BF0,
            alpha2: 0x3F25AAAD3AFA9F16,
            alpha3: 0x3F25AAAD3AFA9F16,
        }
    }

    /// The content-type string that identifies this message.
    pub fn content_type() -> (s: &'static str)
        ensures
            s@ == "application/x.thermal-expansion-for-unidirectional-composite-response-message"@,
    {
        "application/x.thermal-expansion-for-unidirectional-composite-response-message"
    }

    /// The portable struct-format string of this message's layout.
    pub fn py_struct_format_string() -> (s: String)
        ensures
            s@ == spec_format_string(false, Self::spec_fields()),
    {
        format_string(&Self::descriptor())
    }

    /// The wire slot names.
    pub fn slot_names() -> (names: Vec<&'static str>)
        ensures
            names@.map_values(|nm: &'static str| nm@) == Self::spec_slot_names(),
    {
        let mut names: Vec<&'static str> = Vec::new();
        names.push("alpha1");
        names.push("alpha2");
        names.push("alpha3");
        proof {
            assert(names@.map_values(|nm: &'static str| nm@) =~= Self::spec_slot_names());
        }
        names
    }

    /// The browser-side snippet that reads this message's fields.
    pub fn js_send_req() -> (s: String)
        ensures
            s@ == spec_js_send_req(Self::spec_slot_names()),
    {
        let names = Self::slot_names();
        js_send_req(&names)
    }
}

} // verus!
