//! Messages of the elastic-modules computation for a honeycomb core: a
//! tagged request of a model number and six cell parameters, answered by
//! nine elastic modules.

use vstd::prelude::*;
use crate::endianness::Endianness;
use crate::layout::{FieldKind, MessageDescriptor, spec_record_size};
use crate::record::{FieldValue, record_matches, wire_image};
use crate::encoder::encode_record;
use crate::formats::{
    format_string, js_build_args_buffer, js_send_req, spec_format_string,
    spec_js_build_args_buffer, spec_js_send_req,
};

verus! {

/// Request record; double fields hold IEEE-754 bit patterns.
#[derive(Clone, Copy, Debug, PartialEq, Eq, Structural)]
pub struct ElasticModulesForHoneycombArgsMessage {
    pub number_of_model: u8,
    pub l_cell_side_size: u64,
    pub h_cell_side_size: u64,
    pub wall_thickness: u64,
    pub angle: u64,
    pub e_for_honeycomb: u64,
    pub nu_for_honeycomb: u64,
}

impl ElasticModulesForHoneycombArgsMessage {
    /// Field kinds in declaration order; the leading endianness tag is
    /// carried by the descriptor, not listed here.
    pub open spec fn spec_fields() -> Seq<FieldKind> {
        seq![
            FieldKind::Byte,
            FieldKind::Double,
            FieldKind::Double,
            FieldKind::Double,
            FieldKind::Double,
            FieldKind::Double,
            FieldKind::Double,
        ]
    }

    /// The record of this message's field values, in declaration order.
    pub open spec fn spec_record(self) -> Seq<FieldValue> {
        seq![
            FieldValue::Byte(self.number_of_model),
            FieldValue::Double(self.l_cell_side_size),
            FieldValue::Double(self.h_cell_side_size),
            FieldValue::Double(self.wall_thickness),
            FieldValue::Double(self.angle),
            FieldValue::Double(self.e_for_honeycomb),
            FieldValue::Double(self.nu_for_honeycomb),
        ]
    }

    /// Names of the wire slots, the endianness tag's first.
    pub open spec fn spec_slot_names() -> Seq<Seq<char>> {
        seq![
            "endianness"@,
            "number_of_model"@,
            "l_cell_side_size"@,
            "h_cell_side_size"@,
            "wall_thickness"@,
            "angle"@,
            "e_for_honeycomb"@,
            "nu_for_honeycomb"@,
        ]
    }

    /// This message's layout: a leading endianness tag, then the fields.
    pub fn descriptor() -> (d: MessageDescriptor)
        ensures
            d.has_tag,
            d.fields@ == Self::spec_fields(),
            d.wf(),
    {
        let mut fields: Vec<FieldKind> = Vec::new();
        fields.push(FieldKind::Byte);
        fields.push(FieldKind::Double);
        fields.push(FieldKind::Double);
        fields.push(FieldKind::Double);
        fields.push(FieldKind::Double);
        fields.push(FieldKind::Double);
        fields.push(FieldKind::Double);
        proof {
            assert(fields@ =~= Self::spec_fields());
        }
        MessageDescriptor { has_tag: true, fields }
    }

    /// This message's record, ready for the generic codec.
    pub fn to_record(&self) -> (v: Vec<FieldValue>)
        ensures
            v@ == self.spec_record(),
            record_matches(Self::spec_fields(), v@),
    {
        let mut v: Vec<FieldValue> = Vec::new();
        v.push(FieldValue::Byte(self.number_of_model));
        v.push(FieldValue::Double(self.l_cell_side_size));
        v.push(FieldValue::Double(self.h_cell_side_size));
        v.push(FieldValue::Double(self.wall_thickness));
        v.push(FieldValue::Double(self.angle));
        v.push(FieldValue::Double(self.e_for_honeycomb));
        v.push(FieldValue::Double(self.nu_for_honeycomb));
        proof {
            assert(v@ =~= self.spec_record());
        }
        v
    }

    /// Rebuilds the message from a decoded record; `None` exactly when
    /// the record does not match this message's field list.
    pub fn from_record(v: &Vec<FieldValue>) -> (r: Option<Self>)
        ensures
            match r {
                Some(m) => record_matches(Self::spec_fields(), v@) && m.spec_record() == v@,
                None => !record_matches(Self::spec_fields(), v@),
            },
    {
        if v.len() != 7 {
            return None;
        }
        let number_of_model = match v[0] {
            FieldValue::Byte(x) => x,
            _ => {
                return None;
            },
        };
        let l_cell_side_size = match v[1] {
            FieldValue::Double(x) => x,
            _ => {
                return None;
            },
        };
        let h_cell_side_size = match v[2] {
            FieldValue::Double(x) => x,
            _ => {
                return None;
            },
        };
        let wall_thickness = match v[3] {
            FieldValue::Double(x) => x,
            _ => {
                return None;
            },
        };
        let angle = match v[4] {
            FieldValue::Double(x) => x,
            _ => {
                return None;
            },
        };
        let e_for_honeycomb = match v[5] {
            FieldValue::Double(x) => x,
            _ => {
                return None;
            },
        };
        let nu_for_honeycomb = match v[6] {
            FieldValue::Double(x) => x,
            _ => {
                return None;
            },
        };
        let m = ElasticModulesForHoneycombArgsMessage {
            number_of_model,
            l_cell_side_size,
            h_cell_side_size,
            wall_thickness,
            angle,
            e_for_honeycomb,
            nu_for_honeycomb,
        };
        proof {
            assert(m.spec_record() =~= v@);
        }
        Some(m)
    }

    /// The wire image of this message in byte order `o`, tag included.
    pub fn into_bytes(self, o: Endianness) -> (out: Vec<u8>)
        ensures
            out@ == wire_image(true, Self::spec_fields(), self.spec_record(), o),
            out@.len() == spec_record_size(true, Self::spec_fields()),
    {
        let desc = Self::descriptor();
        let rec = self.to_record();
        encode_record(&desc, &rec, o)
    }

    /// The record's total wire size in bytes.
    pub fn size() -> (n: usize)
        ensures
            n == spec_record_size(true, Self::spec_fields()),
    {
        Self::descriptor().computed_size()
    }

    /// A documented example request.
    pub fn example() -> (m: Self)
        ensures
            m == Self::example_spec(),
    {
        ElasticModulesForHoneycombArgsMessage {
            number_of_model: 1,
            l_cell_side_size: 0x40227AE147AE147B,
            h_cell_side_size: 0x4020EC7E28240B78,
            wall_thickness: 0x3FD999999999999A,
            angle: 0x3FE0C152382D7365,
            e_for_honeycomb: 0x401C47AE147AE148,
            nu_for_honeycomb: 0x3FC999999999999A,
        }
    }

    /// The example value, for contracts that speak of it.
    pub open spec fn example_spec() -> Self {
        ElasticModulesForHoneycombArgsMessage {
            number_of_model: 1,
            l_cell_side_size: 0x40227AE147AE147B,
            h_cell_side_size: 0x4020EC7E28240B78,
            wall_thickness: 0x3FD999999999999A,
            angle: 0x3FE0C152382D7365,
            e_for_honeycomb: 0x401C47AE147AE148,
            nu_for_honeycomb: 0x3FC999999999999A,
        }
    }

    /// The content-type string that identifies this message.
    pub fn content_type() -> (s: &'static str)
        ensures
            s@ == "application/x.elastic-modules-for-honeycomb-args-message"@,
    {
        "application/x.elastic-modules-for-honeycomb-args-message"
    }

    /// The portable struct-format string of this message's layout.
    pub fn py_struct_format_string() -> (s: String)
        ensures
            s@ == spec_format_string(true, Self::spec_fields()),
    {
        format_string(&Self::descriptor())
    }

    /// The wire slot names, the endianness tag's first.
    pub fn slot_names() -> (names: Vec<&'static str>)
        ensures
            names@.map_values(|nm: &'static str| nm@) == Self::spec_slot_names(),
    {
        let mut names: Vec<&'static str> = Vec::new();
        names.push("endianness");
        names.push("number_of_model");
        names.push("l_cell_side_size");
        names.push("h_cell_side_size");
        names.push("wall_thickness");
        names.push("angle");
        names.push("e_for_honeycomb");
        names.push("nu_for_honeycomb");
        proof {
            assert(names@.map_values(|nm: &'static str| nm@) =~= Self::spec_slot_names());
        }
        names
    }

    /// The browser-side snippet that fills this message's buffer.
    pub fn js_build_args_buffer() -> (s: String)
        ensures
            s@ == spec_js_build_args_buffer(true, Self::spec_fields(), Self::spec_slot_names()),
    {
        let names = Self::slot_names();
        js_build_args_buffer(&Self::descriptor(), &names)
    }
}

/// Response record: the nine elastic modules, as IEEE-754 bit patterns.
#[derive(Clone, Copy, Debug, PartialEq, Eq, Structural)]
pub struct ElasticModulesForHoneycombResponseMessage {
    pub e1: u64,
    pub e2: u64,
    pub e3: u64,
    pub nu12: u64,
    pub nu13: u64,
    pub nu23: u64,
    pub g12: u64,
    pub g13: u64,
    pub g23: u64,
}

impl ElasticModulesForHoneycombResponseMessage {
    /// Field kinds in declaration order; responses carry no tag.
    pub open spec fn spec_fields() -> Seq<FieldKind> {
        seq![
            FieldKind::Double,
            FieldKind::Double,
            FieldKind::Double,
            FieldKind::Double,
            FieldKind::Double,
            FieldKind::Double,
            FieldKind::Double,
            FieldKind::Double,
            FieldKind::Double,
        ]
    }

    /// The record of this message's field values, in declaration order.
    pub open spec fn spec_record(self) -> Seq<FieldValue> {
        seq![
            FieldValue::Double(self.e1),
            FieldValue::Double(self.e2),
            FieldValue::Double(self.e3),
            FieldValue::Double(self.nu12),
            FieldValue::Double(self.nu13),
            FieldValue::Double(self.nu23),
            FieldValue::Double(self.g12),
            FieldValue::Double(self.g13),
            FieldValue::Double(self.g23),
        ]
    }

    /// Names of the wire slots.
    pub open spec fn spec_slot_names() -> Seq<Seq<char>> {
        seq!["e1"@, "e2"@, "e3"@, "nu12"@, "nu13"@, "nu23"@, "g12"@, "g13"@, "g23"@]
    }

    /// This message's layout: a flat sequence of doubles, no tag.
    pub fn descriptor() -> (d: MessageDescriptor)
        ensures
            !d.has_tag,
            d.fields@ == Self::spec_fields(),
            d.wf(),
    {
        let mut fields: Vec<FieldKind> = Vec::new();
        fields.push(FieldKind::Double);
        fields.push(FieldKind::Double);
        fields.push(FieldKind::Double);
        fields.push(FieldKind::Double);
        fields.push(FieldKind::Double);
        fields.push(FieldKind::Double);
        fields.push(FieldKind::Double);
        fields.push(FieldKind::Double);
        fields.push(FieldKind::Double);
        proof {
            assert(fields@ =~= Self::spec_fields());
        }
        MessageDescriptor { has_tag: false, fields }
    }

    /// This message's record, ready for the generic codec.
    pub fn to_record(&self) -> (v: Vec<FieldValue>)
        ensures
            v@ == self.spec_record(),
            record_matches(Self::spec_fields(), v@),
    {
        let mut v: Vec<FieldValue> = Vec::new();
        v.push(FieldValue::Double(self.e1));
        v.push(FieldValue::Double(self.e2));
        v.push(FieldValue::Double(self.e3));
        v.push(FieldValue::Double(self.nu12));
        v.push(FieldValue::Double(self.nu13));
        v.push(FieldValue::Double(self.nu23));
        v.push(FieldValue::Double(self.g12));
        v.push(FieldValue::Double(self.g13));
        v.push(FieldValue::Double(self.g23));
        proof {
            assert(v@ =~= self.spec_record());
        }
        v
    }

    /// The wire image of this message in byte order `o`.
    pub fn into_bytes(self, o: Endianness) -> (out: Vec<u8>)
        ensures
            out@ == wire_image(false, Self::spec_fields(), self.spec_record(), o),
            out@.len() == spec_record_size(false, Self::spec_fields()),
    {
        let desc = Self::descriptor();
        let rec = self.to_record();
        encode_record(&desc, &rec, o)
    }

    /// The record's total wire size in bytes.
    pub fn size() -> (n: usize)
        ensures
            n == spec_record_size(false, Self::spec_fields()),
    {
        Self::descriptor().computed_size()
    }

    /// The documented response to the example request.
    pub fn example() -> (m: Self)
        ensures
            m == Self::example_spec(),
    {
        ElasticModulesForHoneycombResponseMessage {
            e1: 0x3F588800C242479A,
            e2: 0x3F55DD30B89EB737,
            e3: 0x3FD6FDC74BF9C7A4,
            nu12: 0x3FF0D1C98A61EF4E,
            nu13: 0x3F4B508DF8ED7177,
            nu23: 0x3F4858447F2B724E,
            g12: 0x3F32E37A047CF495,
            g13: 0x3FB477F8FF3C9D71,
            g23: 0x3FB358F94DAAD3B0,
        }
    }

    /// The example value, for contracts that speak of it.
    pub open spec fn example_spec() -> Self {
        ElasticModulesForHoneycombResponseMessage {
            e1: 0x3F588800C242479A,
            e2: 0x3F55DD30B89EB737,
            e3: 0x3FD6FDC74BF9C7A4,
            nu12: 0x3FF0D1C98A61EF4E,
            nu13: 0x3F4B508DF8ED7177,
            nu23: 0x3F4858447F2B724E,
            g12: 0x3F32E37A047CF495,
            g13: 0x3FB477F8FF3C9D71,
            g23: 0x3FB358F94DAAD3B0,
        }
    }

    /// The content-type string that identifies this message.
    pub fn content_type() -> (s: &'static str)
        ensures
            s@ == "application/x.elastic-modules-for-honeycomb-response-message"@,
    {
        "application/x.elastic-modules-for-honeycomb-response-message"
    }

    /// The portable struct-format string of this message's layout.
    pub fn py_struct_format_string() -> (s: String)
        ensures
            s@ == spec_format_string(false, Self::spec_fields()),
    {
        format_string(&Self::descriptor())
    }

    /// The wire slot names.
    pub fn slot_names() -> (names: Vec<&'static str>)
        ensures
            names@.map_values(|nm: &'static str| nm@) == Self::spec_slot_names(),
    {
        let mut names: Vec<&'static str> = Vec::new();
        names.push("e1");
        names.push("e2");
        names.push("e3");
        names.push("nu12");
        names.push("nu13");
        names.push("nu23");
        names.push("g12");
        names.push("g13");
        names.push("g23");
        proof {
            assert(names@.map_values(|nm: &'static str| nm@) =~= Self::spec_slot_names());
        }
        names
    }

    /// The browser-side snippet that reads this message's fields.
    pub fn js_send_req() -> (s: String)
        ensures
            s@ == spec_js_send_req(Self::spec_slot_names()),
    {
        let names = Self::slot_names();
        js_send_req(&names)
    }
}

} // verus!
