//! Messages of the elastic-modules computation for a unidirectional
//! composite: a tagged request of a model number and five material
//! parameters, answered by nine elastic modules.

use vstd::prelude::*;
use crate::endianness::Endianness;
use crate::layout::{FieldKind, MessageDescriptor, spec_record_size};
use crate::record::{FieldValue, record_matches, wire_image};
use crate::encoder::encode_record;
use crate::formats::{
    format_string, js_build_args_buffer, js_send_req, spec_format_string,
    spec_js_build_args_buffer, spec_js_send_req,
};

verus! {

/// Request record: model number and the fibre and matrix parameters.
/// Double fields hold IEEE-754 bit patterns.
#[derive(Clone, Copy, Debug, PartialEq, Eq, Structural)]
pub struct ElasticModulesForUnidirectionalCompositeArgsMessage {
    pub number_of_model: u8,
    pub fibre_content: u64,
    pub e_for_fiber: u64,
    pub nu_for_fiber: u64,
    pub e_for_matrix: u64,
    pub nu_for_matrix: u64,
}

impl ElasticModulesForUnidirectionalCompositeArgsMessage {
    /// Field kinds in declaration order; the leading endianness tag is
    /// carried by the descriptor, not listed here.
    pub open spec fn spec_fields() -> Seq<FieldKind> {
        seq![
            FieldKind::Byte,
            FieldKind::Double,
            FieldKind::Double,
            FieldKind::Double,
            FieldKind::Double,
            FieldKind::Double,
        ]
    }

    /// The record of this message's field values, in declaration order.
    pub open spec fn spec_record(self) -> Seq<FieldValue> {
        seq![
            FieldValue::Byte(self.number_of_model),
            FieldValue::Double(self.fibre_content),
            FieldValue::Double(self.e_for_fiber),
            FieldValue::Double(self.nu_for_fiber),
            FieldValue::Double(self.e_for_matrix),
            FieldValue::Double(self.nu_for_matrix),
        ]
    }

    /// Names of the wire slots, the endianness tag's first.
    pub open spec fn spec_slot_names() -> Seq<Seq<char>> {
        seq![
            "endianness"@,
            "number_of_model"@,
            "fibre_content"@,
            "e_for_fiber"@,
            "nu_for_fiber"@,
            "e_for_matrix"@,
            "nu_for_matrix"@,
        ]
    }

    /// This message's layout: a leading endianness tag, then the fields.
    pub fn descriptor() -> (d: MessageDescriptor)
        ensures
            d.has_tag,
            d.fields@ == Self::spec_fields(),
            d.wf(),
    {
        let mut fields: Vec<FieldKind> = Vec::new();
        fields.push(FieldKind::Byte);
        fields.push(FieldKind::Double);
        fields.push(FieldKind::Double);
        fields.push(FieldKind::Double);
        fields.push(FieldKind::Double);
        fields.push(FieldKind::Double);
        proof {
            assert(fields@ =~= Self::spec_fields());
        }
        MessageDescriptor { has_tag: true, fields }
    }

    /// This message's record, ready for the generic codec.
    pub fn to_record(&self) -> (v: Vec<FieldValue>)
        ensures
            v@ == self.spec_record(),
            record_matches(Self::spec_fields(), v@),
    {
        let mut v: Vec<FieldValue> = Vec::new();
        v.push(FieldValue::Byte(self.number_of_model));
        v.push(FieldValue::Double(self.fibre_content));
        v.push(FieldValue::Double(self.e_for_fiber));
        v.push(FieldValue::Double(self.nu_for_fiber));
        v.push(FieldValue::Double(self.e_for_matrix));
        v.push(FieldValue::Double(self.nu_for_matrix));
        proof {
            assert(v@ =~= self.spec_record());
        }
        v
    }

    /// Rebuilds the message from a decoded record; `None` exactly when
    /// the record does not match this message's field list.
    pub fn from_record(v: &Vec<FieldValue>) -> (r: Option<Self>)
        ensures
            match r {
                Some(m) => record_matches(Self::spec_fields(), v@) && m.spec_record() == v@,
                None => !record_matches(Self::spec_fields(), v@),
            },
    {
        if v.len() != 6 {
            return None;
        }
        let number_of_model = match v[0] {
            FieldValue::Byte(b) => b,
            _ => {
                return None;
            },
        };
        let fibre_content = match v[1] {
            FieldValue::Double(x) => x,
            _ => {
                return None;
            },
        };
        let e_for_fiber = match v[2] {
            FieldValue::Double(x) => x,
            _ => {
                return None;
            },
        };
        let nu_for_fiber = match v[3] {
            FieldValue::Double(x) => x,
            _ => {
                return None;
            },
        };
        let e_for_matrix = match v[4] {
            FieldValue::Double(x) => x,
            _ => {
                return None;
            },
        };
        let nu_for_matrix = match v[5] {
            FieldValue::Double(x) => x,
            _ => {
                return None;
            },
        };
        let m = ElasticModulesForUnidirectionalCompositeArgsMessage {
            number_of_model,
            fibre_content,
            e_for_fiber,
            nu_for_fiber,
            e_for_matrix,
            nu_for_matrix,
        };
        proof {
            assert(m.spec_record() =~= v@);
        }
        Some(m)
    }

    /// The wire image of this message in byte order `o`, tag included.
    pub fn into_bytes(self, o: Endianness) -> (out: Vec<u8>)
        ensures
            out@ == wire_image(true, Self::spec_fields(), self.spec_record(), o),
            out@.len() == spec_record_size(true, Self::spec_fields()),
    {
        let desc = Self::descriptor();
        let rec = self.to_record();
        encode_record(&desc, &rec, o)
    }

    /// The record's total wire size in bytes.
    pub fn size() -> (n: usize)
        ensures
            n == spec_record_size(true, Self::spec_fields()),
    {
        Self::descriptor().computed_size()
    }

    /// A documented example request: Vanin's model with a glass-epoxy-like
    /// material.
    pub fn example() -> (m: Self)
        ensures
            m == (ElasticModulesForUnidirectionalCompositeArgsMessage {
                number_of_model: 2,
                fibre_content: 0x3FC999999999999A,
                e_for_fiber: 0x4059000000000000,
                nu_for_fiber: 0x3FD3333333333333,
                e_for_matrix: 0x4014000000000000,
                nu_for_matrix: 0x3FC999999999999A,
            }),
    {
        ElasticModulesForUnidirectionalCompositeArgsMessage {
            number_of_model: 2,
            fibre_content: 0x3FC999999999999A,
            e_for_fiber: 0x4059000000000000,
            nu_for_fiber: 0x3FD3333333333333,
            e_for_matrix: 0x4014000000000000,
            nu_for_matrix: 0x3FC999999999999A,
        }
    }

    /// The example request as wire bytes, in byte order `o`.
    pub fn example_as_bytes(o: Endianness) -> (out: Vec<u8>)
        ensures
            out@ == wire_image(true, Self::spec_fields(), Self::example_spec().spec_record(), o),
    {
        Self::example().into_bytes(o)
    }

    /// The example value, for contracts that speak of it.
    pub open spec fn example_spec() -> Self {
        ElasticModulesForUnidirectionalCompositeArgsMessage {
            number_of_model: 2,
            fibre_content: 0x3FC999999999999A,
            e_for_fiber: 0x4059000000000000,
            nu_for_fiber: 0x3FD3333333333333,
            e_for_matrix: 0x4014000000000000,
            nu_for_matrix: 0x3FC999999999999A,
        }
    }

    /// The content-type string that identifies this message.
    pub fn content_type() -> (s: &'static str)
        ensures
            s@ == "application/x.elastic-modules-for-unidirectional-composite-args-message"@,
    {
        "application/x.elastic-modules-for-unidirectional-composite-args-message"
    }

    /// The portable struct-format string of this message's layout.
    pub fn py_struct_format_string() -> (s: String)
        ensures
            s@ == spec_format_string(true, Self::spec_fields()),
    {
        format_string(&Self::descriptor())
    }

    /// The wire slot names, the endianness tag's first.
    pub fn slot_names() -> (names: Vec<&'static str>)
        ensures
            names@.map_values(|nm: &'static str| nm@) == Self::spec_slot_names(),
    {
        let mut names: Vec<&'static str> = Vec::new();
        names.push("endianness");
        names.push("number_of_model");
        names.push("fibre_content");
        names.push("e_for_fiber");
        names.push("nu_for_fiber");
        names.push("e_for_matrix");
        names.push("nu_for_matrix");
        proof {
            assert(names@.map_values(|nm: &'static str| nm@) =~= Self::spec_slot_names());
        }
        names
    }

    /// The browser-side snippet that fills this message's buffer.
    pub fn js_build_args_buffer() -> (s: String)
        ensures
            s@ == spec_js_build_args_buffer(true, Self::spec_fields(), Self::spec_slot_names()),
    {
        let names = Self::slot_names();
        js_build_args_buffer(&Self::descriptor(), &names)
    }
}

/// Response record: the nine elastic modules, as IEEE-754 bit patterns.
#[derive(Clone, Copy, Debug, PartialEq, Eq, Structural)]
pub struct ElasticModulesForUnidirectionalCompositeResponseMessage {
    pub e1: u64,
    pub e2: u64,
    pub e3: u64,
    pub nu12: u64,
    pub nu13: u64,
    pub nu23: u64,
    pub g12: u64,
    pub g13: u64,
    pub g23: u64,
}

impl ElasticModulesForUnidirectionalCompositeResponseMessage {
    /// Field kinds in declaration order; responses carry no tag.
    pub open spec fn spec_fields() -> Seq<FieldKind> {
        seq![
            FieldKind::Double,
            FieldKind::Double,
            FieldKind::Double,
            FieldKind::Double,
            FieldKind::Double,
            FieldKind::Double,
            FieldKind::Double,
            FieldKind::Double,
            FieldKind::Double,
        ]
    }

    /// The record of this message's field values, in declaration order.
    pub open spec fn spec_record(self) -> Seq<FieldValue> {
        seq![
            FieldValue::Double(self.e1),
            FieldValue::Double(self.e2),
            FieldValue::Double(self.e3),
            FieldValue::Double(self.nu12),
            FieldValue::Double(self.nu13),
            FieldValue::Double(self.nu23),
            FieldValue::Double(self.g12),
            FieldValue::Double(self.g13),
            FieldValue::Double(self.g23),
        ]
    }

    /// Names of the wire slots.
    pub open spec fn spec_slot_names() -> Seq<Seq<char>> {
        seq!["e1"@, "e2"@, "e3"@, "nu12"@, "nu13"@, "nu23"@, "g12"@, "g13"@, "g23"@]
    }

    /// This message's layout: a flat sequence of doubles, no tag.
    pub fn descriptor() -> (d: MessageDescriptor)
        ensures
            !d.has_tag,
            d.fields@ == Self::spec_fields(),
            d.wf(),
    {
        let mut fields: Vec<FieldKind> = Vec::new();
        fields.push(FieldKind::Double);
        fields.push(FieldKind::Double);
        fields.push(FieldKind::Double);
        fields.push(FieldKind::Double);
        fields.push(FieldKind::Double);
        fields.push(FieldKind::Double);
        fields.push(FieldKind::Double);
        fields.push(FieldKind::Double);
        fields.push(FieldKind::Double);
        proof {
            assert(fields@ =~= Self::spec_fields());
        }
        MessageDescriptor { has_tag: false, fields }
    }

    /// This message's record, ready for the generic codec.
    pub fn to_record(&self) -> (v: Vec<FieldValue>)
        ensures
            v@ == self.spec_record(),
            record_matches(Self::spec_fields(), v@),
    {
        let mut v: Vec<FieldValue> = Vec::new();
        v.push(FieldValue::Double(self.e1));
        v.push(FieldValue::Double(self.e2));
        v.push(FieldValue::Double(self.e3));
        v.push(FieldValue::Double(self.nu12));
        v.push(FieldValue::Double(self.nu13));
        v.push(FieldValue::Double(self.nu23));
        v.push(FieldValue::Double(self.g12));
        v.push(FieldValue::Double(self.g13));
        v.push(FieldValue::Double(self.g23));
        proof {
            assert(v@ =~= self.spec_record());
        }
        v
    }

    /// The wire image of this message in byte order `o`.
    pub fn into_bytes(self, o: Endianness) -> (out: Vec<u8>)
        ensures
            out@ == wire_image(false, Self::spec_fields(), self.spec_record(), o),
            out@.len() == spec_record_size(false, Self::spec_fields()),
    {
        let desc = Self::descriptor();
        let rec = self.to_record();
        encode_record(&desc, &rec, o)
    }

    /// The record's total wire size in bytes.
    pub fn size() -> (n: usize)
        ensures
            n == spec_record_size(false, Self::spec_fields()),
    {
        Self::descriptor().computed_size()
    }

    /// The documented response to the example request.
    pub fn example() -> (m: Self)
        ensures
            m == Self::example_spec(),
    {
        ElasticModulesForUnidirectionalCompositeResponseMessage {
            e1: 0x40440180266A3DD3,
            e2: 0x401AF227DF49F29F,
            e3: 0x401AF227DF49F29F,
            nu12: 0x3FA3AA6BB9AB90AC,
            nu13: 0x3FA3AA6BB9AB90AC,
            nu23: 0x3FCBACA1A78D4B2A,
            g12: 0x4007F4D1CC5F5CE7,
            g13: 0x4007F4D1CC5F5CE7,
            g23: 0x400627DD94F83B2E,
        }
    }

    /// The example value, for contracts that speak of it.
    pub open spec fn example_spec() -> Self {
        ElasticModulesForUnidirectionalCompositeResponseMessage {
            e1: 0x40440180266A3DD3,
            e2: 0x401AF227DF49F29F,
            e3: 0x401AF227DF49F29F,
            nu12: 0x3FA3AA6BB9AB90AC,
            nu13: 0x3FA3AA6BB9AB90AC,
            nu23: 0x3FCBACA1A78D4B2A,
            g12: 0x4007F4D1CC5F5CE7,
            g13: 0x4007F4D1CC5F5CE7,
            g23: 0x400627DD94F83B2E,
        }
    }

    /// The content-type string that identifies this message.
    pub fn content_type() -> (s: &'static str)
        ensures
            s@ == "application/x.elastic-modules-for-unidirectional-composite-response-message"@,
    {
        "application/x.elastic-modules-for-unidirectional-composite-response-message"
    }

    /// The portable struct-format string of this message's layout.
    pub fn py_struct_format_string() -> (s: String)
        ensures
            s@ == spec_format_string(false, Self::spec_fields()),
    {
        format_string(&Self::descriptor())
    }

    /// The wire slot names.
    pub fn slot_names() -> (names: Vec<&'static str>)
        ensures
            names@.map_values(|nm: &'static str| nm@) == Self::spec_slot_names(),
    {
        let mut names: Vec<&'static str> = Vec::new();
        names.push("e1");
        names.push("e2");
        names.push("e3");
        names.push("nu12");
        names.push("nu13");
        names.push("nu23");
        names.push("g12");
        names.push("g13");
        names.push("g23");
        proof {
            assert(names@.map_values(|nm: &'static str| nm@) =~= Self::spec_slot_names());
        }
        names
    }

    /// The browser-side snippet that reads this message's fields.
    pub fn js_send_req() -> (s: String)
        ensures
            s@ == spec_js_send_req(Self::spec_slot_names()),
    {
        let names = Self::slot_names();
        js_send_req(&names)
    }
}

} // verus!
