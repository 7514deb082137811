//! Messages of the thermal-conductivity computation for a unidirectional
//! composite: a tagged request of a model number and three material
//! parameters, answered by three conductivities.

use vstd::prelude::*;
use crate::endianness::Endianness;
use crate::layout::{FieldKind, MessageDescriptor, spec_record_size};
use crate::record::{FieldValue, record_matches, wire_image};
use crate::encoder::encode_record;
use crate::formats::{
    format_string, js_build_args_buffer, js_send_req, spec_format_string,
    spec_js_build_args_buffer, spec_js_send_req,
};

verus! {

/// Request record; double fields hold IEEE-754 bit patterns.
#[derive(Clone, Copy, Debug, PartialEq, Eq, Structural)]
pub struct ThermalConductivityForUnidirectionalCompositeArgsMessage {
    pub number_of_model: u8,
    pub fibre_content: u64,
    pub k_for_fiber: u64,
    pub k_for_matrix: u64,
}

impl ThermalConductivityForUnidirectionalCompositeArgsMessage {
    /// Field kinds in declaration order; the leading endianness tag is
    /// carried by the descriptor, not listed here.
    pub open spec fn spec_fields() -> Seq<FieldKind> {
        seq![
            FieldKind::Byte,
            FieldKind::Double,
            FieldKind::Double,
            FieldKind::Double,
        ]
    }

    /// The record of this message's field values, in declaration order.
    pub open spec fn spec_record(self) -> Seq<FieldValue> {
        seq![
            FieldValue::Byte(self.number_of_model),
            FieldValue::Double(self.fibre_content),
            FieldValue::Double(self.k_for_fiber),
            FieldValue::Double(self.k_for_matrix),
        ]
    }

    /// Names of the wire slots, the endianness tag's first.
    pub open spec fn spec_slot_names() -> Seq<Seq<char>> {
        seq![
            "endianness"@,
            "number_of_model"@,
            "fibre_content"@,
            "k_for_fiber"@,
            "k_for_matrix"@,
        ]
    }

    /// This message's layout: a leading endianness tag, then the fields.
    pub fn descriptor() -> (d: MessageDescriptor)
        ensures
            d.has_tag,
            d.fields@ == Self::spec_fields(),
            d.wf(),
    {
        let mut fields: Vec<FieldKind> = Vec::new();
        fields.push(FieldKind::Byte);
        fields.push(FieldKind::Double);
        fields.push(FieldKind::Double);
        fields.push(FieldKind::Double);
        proof {
            assert(fields@ =~= Self::spec_fields());
        }
        MessageDescriptor { has_tag: true, fields }
    }

    /// This message's record, ready for the generic codec.
    pub fn to_record(&self) -> (v: Vec<FieldValue>)
        ensures
            v@ == self.spec_record(),
            record_matches(Self::spec_fields(), v@),
    {
        let mut v: Vec<FieldValue> = Vec::new();
        v.push(FieldValue::Byte(self.number_of_model));
        v.push(FieldValue::Double(self.fibre_content));
        v.push(FieldValue::Double(self.k_for_fiber));
        v.push(FieldValue::Double(self.k_for_matrix));
        proof {
            assert(v@ =~= self.spec_record());
        }
        v
    }

    /// Rebuilds the message from a decoded record; `None` exactly when
    /// the record does not match this message's field list.
    pub fn from_record(v: &Vec<FieldValue>) -> (r: Option<Self>)
        ensures
            match r {
                Some(m) => record_matches(Self::spec_fields(), v@) && m.spec_record() == v@,
                None => !record_matches(Self::spec_fields(), v@),
            },
    {
        if v.len() != 4 {
            return None;
        }
        let number_of_model = match v[0] {
            FieldValue::Byte(x) => x,
            _ => {
                return None;
            },
        };
        let fibre_content = match v[1] {
            FieldValue::Double(x) => x,
            _ => {
                return None;
            },
        };
        let k_for_fiber = match v[2] {
            FieldValue::Double(x) => x,
            _ => {
                return None;
            },
        };
        let k_for_matrix = match v[3] {
            FieldValue::Double(x) => x,
            _ => {
                return None;
            },
        };
        let m = ThermalConductivityForUnidirectionalCompositeArgsMessage {
            number_of_model,
            fibre_content,
            k_for_fiber,
            k_for_matrix,
        };
        proof {
            assert(m.spec_record() =~= v@);
        }
        Some(m)
    }

    /// The wire image of this message in byte order `o`, tag included.
    pub fn into_bytes(self, o: Endianness) -> (out: Vec<u8>)
        ensures
            out@ == wire_image(true, Self::spec_fields(), self.spec_record(), o),
            out@.len() == spec_record_size(true, Self::spec_fields()),
    {
        let desc = Self::descriptor();
        let rec = self.to_record();
        encode_record(&desc, &rec, o)
    }

    /// The record's total wire size in bytes.
    pub fn size() -> (n: usize)
        ensures
            n == spec_record_size(true, Self::spec_fields()),
    {
        Self::descriptor().computed_size()
    }

    /// A documented example request.
    pub fn example() -> (m: Self)
        ensures
            m == Self::example_spec(),
    {
        ThermalConductivityForUnidirectionalCompositeArgsMessage {
            number_of_model: 2,
            fibre_content: 0x3FC999999999999A,
            k_for_fiber: 0x4059000000000000,
            k_for_matrix: 0x3FF0000000000000,
        }
    }

    /// The example value, for contracts that speak of it.
    pub open spec fn example_spec() -> Self {
        ThermalConductivityForUnidirectionalCompositeArgsMessage {
            number_of_model: 2,
            fibre_content: 0x3FC999999999999A,
            k_for_fiber: 0x4059000000000000,
            k_for_matrix: 0x3FF0000000000000,
        }
    }

    /// The content-type string that identifies this message.
    pub fn content_type() -> (s: &'static str)
        ensures
            s@ == "application/x.thermal-conductivity-for-unidirectional-composite-args-message"@,
    {
        "application/x.thermal-conductivity-for-unidirectional-composite-args-message"
    }

    /// The portable struct-format string of this message's layout.
    pub fn py_struct_format_string() -> (s: String)
        ensures
            s@ == spec_format_string(true, Self::spec_fields()),
    {
        format_string(&Self::descriptor())
    }

    /// The wire slot names, the endianness tag's first.
    pub fn slot_names() -> (names: Vec<&'static str>)
        ensures
            names@.map_values(|nm: &'static str| nm@) == Self::spec_slot_names(),
    {
        let mut names: Vec<&'static str> = Vec::new();
        names.push("endianness");
        names.push("number_of_model");
        names.push("fibre_content");
        names.push("k_for_fiber");
        names.push("k_for_matrix");
        proof {
            assert(names@.map_values(|nm: &'static str| nm@) =~= Self::spec_slot_names());
        }
        names
    }

    /// The browser-side snippet that fills this message's buffer.
    pub fn js_build_args_buffer() -> (s: String)
        ensures
            s@ == spec_js_build_args_buffer(true, Self::spec_fields(), Self::spec_slot_names()),
    {
        let names = Self::slot_names();
        js_build_args_buffer(&Self::descriptor(), &names)
    }
}

/// Response record: the three conductivities, as IEEE-754 bit patterns.
#[derive(Clone, Copy, Debug, PartialEq, Eq, Structural)]
pub struct ThermalConductivityForUnidirectionalCompositeResponseMessage {
    pub k1: u64,
    pub k2: u64,
    pub k3: u64,
}

impl ThermalConductivityForUnidirectionalCompositeResponseMessage {
    /// Field kinds in declaration order; responses carry no tag.
    pub open spec fn spec_fields() -> Seq<FieldKind> {
        seq![
            FieldKind::Double,
            FieldKind::Double,
            FieldKind::Double,
        ]
    }

    /// The record of this message's field values, in declaration order.
    pub open spec fn spec_record(self) -> Seq<FieldValue> {
        seq![
            FieldValue::Double(self.k1),
            FieldValue::Double(self.k2),
            FieldValue::Double(self.k3),
        ]
    }

    /// Names of the wire slots.
    pub open spec fn spec_slot_names() -> Seq<Seq<char>> {
        seq!["k1"@, "k2"@, "k3"@]
    }

    /// This message's layout: a flat sequence of doubles, no tag.
    pub fn descriptor() -> (d: MessageDescriptor)
        ensures
            !d.has_tag,
            d.fields@ == Self::spec_fields(),
            d.wf(),
    {
        let mut fields: Vec<FieldKind> = Vec::new();
        fields.push(FieldKind::Double);
        fields.push(FieldKind::Double);
        fields.push(FieldKind::Double);
        proof {
            assert(fields@ =~= Self::spec_fields());
        }
        MessageDescriptor { has_tag: false, fields }
    }

    /// This message's record, ready for the generic codec.
    pub fn to_record(&self) -> (v: Vec<FieldValue>)
        ensures
            v@ == self.spec_record(),
            record_matches(Self::spec_fields(), v@),
    {
        let mut v: Vec<FieldValue> = Vec::new();
        v.push(FieldValue::Double(self.k1));
        v.push(FieldValue::Double(self.k2));
        v.push(FieldValue::Double(self.k3));
        proof {
            assert(v@ =~= self.spec_record());
        }
        v
    }

    /// The wire image of this message in byte order `o`.
    pub fn into_bytes(self, o: Endianness) -> (out: Vec<u8>)
        ensures
            out@ == wire_image(false, Self::spec_fields(), self.spec_record(), o),
            out@.len() == spec_record_size(false, Self::spec_fields()),
    {
        let desc = Self::descriptor();
        let rec = self.to_record();
        encode_record(&desc, &rec, o)
    }

    /// The record's total wire size in bytes.
    pub fn size() -> (n: usize)
        ensures
            n == spec_record_size(false, Self::spec_fields()),
    {
        Self::descriptor().computed_size()
    }

    /// The documented response to the example request.
    pub fn example() -> (m: Self)
        ensures
            m == Self::example_spec(),
    {
        ThermalConductivityForUnidirectionalCompositeResponseMessage {
            k1: 0x4034CCCCCCCCCCCD,
            k2: 0x3FF547F45BFD22F9,
            k3: 0x3FF547F45BFD22F9,
        }
    }

    /// The example value, for contracts that speak of it.
    pub open spec fn example_spec() -> Self {
        ThermalConductivityForUnidirectionalCompositeResponseMessage {
            k1: 0x4034CCCCCCCCCCCD,
            k2: 0x3FF547F45BFD22F9,
            k3: 0x3FF547F45BFD22F9,
        }
    }

    /// The content-type string that identifies this message.
    pub fn content_type() -> (s: &'static str)
        ensures
            s@ == "application/x.thermal-conductivity-for-unidirectional-composite-response-message"@,
    {
        "application/x.thermal-conductivity-for-unidirectional-composite-response-message"
    }

    /// The portable struct-format string of this message's layout.
    pub fn py_struct_format_string() -> (s: String)
        ensures
            s@ == spec_format_string(false, Self::spec_fields()),
    {
        format_string(&Self::descriptor())
    }

    /// The wire slot names.
    pub fn slot_names() -> (names: Vec<&'static str>)
        ensures
            names@.map_values(|nm: &'static str| nm@) == Self::spec_slot_names(),
    {
        let mut names: Vec<&'static str> = Vec::new();
        names.push("k1");
        names.push("k2");
        names.push("k3");
        proof {
            assert(names@.map_values(|nm: &'static str| nm@) =~= Self::spec_slot_names());
        }
        names
    }

    /// The browser-side snippet that reads this message's fields.
    pub fn js_send_req() -> (s: String)
        ensures
            s@ == spec_js_send_req(Self::spec_slot_names()),
    {
        let names = Self::slot_names();
        js_send_req(&names)
    }
}

} // verus!
