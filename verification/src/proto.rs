//! The concrete message types of the protocol, one request/response pair
//! per computation.  Every pair is an instance of the same generic
//! machinery: a descriptor fixes the layout, `encode_record` and the
//! decoder move records across the wire, and the format utilities derive
//! documentation snippets.

pub mod elastic_modules_for_honeycomb;
pub mod elastic_modules_for_unidirectional_composite;
pub mod thermal_conductivity_for_unidirectional_composite;
pub mod thermal_expansion_for_honeycomb;
pub mod thermal_expansion_for_unidirectional_composite;

pub use elastic_modules_for_honeycomb::{
    ElasticModulesForHoneycombArgsMessage, ElasticModulesForHoneycombResponseMessage,
};
pub use elastic_modules_for_unidirectional_composite::{
    ElasticModulesForUnidirectionalCompositeArgsMessage,
    ElasticModulesForUnidirectionalCompositeResponseMessage,
};
pub use thermal_conductivity_for_unidirectional_composite::{
    ThermalConductivityForUnidirectionalCompositeArgsMessage,
    ThermalConductivityForUnidirectionalCompositeResponseMessage,
};
pub use thermal_expansion_for_honeycomb::{
    ThermalExpansionForHoneycombArgsMessage, ThermalExpansionForHoneycombResponseMessage,
};
pub use thermal_expansion_for_unidirectional_composite::{
    ThermalExpansionForUnidirectionalCompositeArgsMessage,
    ThermalExpansionForUnidirectionalCompositeResponseMessage,
};
