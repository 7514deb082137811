use wireproto::Error;
use wireproto::endianness::Endianness;
use wireproto::proto::{
    ElasticModulesForHoneycombArgsMessage, ElasticModulesForHoneycombResponseMessage,
    ElasticModulesForUnidirectionalCompositeArgsMessage,
    ElasticModulesForUnidirectionalCompositeResponseMessage,
    ThermalConductivityForUnidirectionalCompositeArgsMessage,
    ThermalConductivityForUnidirectionalCompositeResponseMessage,
    ThermalExpansionForHoneycombArgsMessage, ThermalExpansionForHoneycombResponseMessage,
    ThermalExpansionForUnidirectionalCompositeArgsMessage,
    ThermalExpansionForUnidirectionalCompositeResponseMessage,
};

#[test]
fn format_strings_are_exact() {
    assert_eq!(
        ElasticModulesForUnidirectionalCompositeArgsMessage::py_struct_format_string(),
        "BBxxxxxxddddd"
    );
    assert_eq!(
        ElasticModulesForUnidirectionalCompositeResponseMessage::py_struct_format_string(),
        "ddddddddd"
    );
    assert_eq!(
        ElasticModulesForHoneycombArgsMessage::py_struct_format_string(),
        "BBxxxxxxdddddd"
    );
    assert_eq!(
        ThermalConductivityForUnidirectionalCompositeArgsMessage::py_struct_format_string(),
        "BBxxxxxxddd"
    );
    assert_eq!(
        ThermalConductivityForUnidirectionalCompositeResponseMessage::py_struct_format_string(),
        "ddd"
    );
    assert_eq!(
        ThermalExpansionForUnidirectionalCompositeArgsMessage::py_struct_format_string(),
        "BBxxxxxxddddddd"
    );
    assert_eq!(
        ThermalExpansionForHoneycombArgsMessage::py_struct_format_string(),
        "BBxxxxxxddddd"
    );
}

#[test]
fn sizes_are_exact() {
    assert_eq!(ElasticModulesForUnidirectionalCompositeArgsMessage::size(), 48);
    assert_eq!(ElasticModulesForUnidirectionalCompositeResponseMessage::size(), 72);
    assert_eq!(ElasticModulesForHoneycombArgsMessage::size(), 56);
    assert_eq!(ElasticModulesForHoneycombResponseMessage::size(), 72);
    assert_eq!(ThermalConductivityForUnidirectionalCompositeArgsMessage::size(), 32);
    assert_eq!(ThermalConductivityForUnidirectionalCompositeResponseMessage::size(), 24);
    assert_eq!(ThermalExpansionForUnidirectionalCompositeArgsMessage::size(), 64);
    assert_eq!(ThermalExpansionForUnidirectionalCompositeResponseMessage::size(), 24);
    assert_eq!(ThermalExpansionForHoneycombArgsMessage::size(), 48);
    assert_eq!(ThermalExpansionForHoneycombResponseMessage::size(), 24);
}

#[test]
fn content_types_are_exact() {
    assert_eq!(
        ElasticModulesForUnidirectionalCompositeArgsMessage::content_type(),
        "application/x.elastic-modules-for-unidirectional-composite-args-message"
    );
    assert_eq!(
        ElasticModulesForUnidirectionalCompositeResponseMessage::content_type(),
        "application/x.elastic-modules-for-unidirectional-composite-response-message"
    );
    assert_eq!(
        ElasticModulesForHoneycombArgsMessage::content_type(),
        "application/x.elastic-modules-for-honeycomb-args-message"
    );
    assert_eq!(
        ThermalConductivityForUnidirectionalCompositeArgsMessage::content_type(),
        "application/x.thermal-conductivity-for-unidirectional-composite-args-message"
    );
    assert_eq!(
        ThermalExpansionForHoneycombResponseMessage::content_type(),
        "application/x.thermal-expansion-for-honeycomb-response-message"
    );
}

#[test]
fn examples_hold_the_documented_values() {
    let args = ElasticModulesForUnidirectionalCompositeArgsMessage::example();
    assert_eq!(args.number_of_model, 2);
    assert_eq!(args.fibre_content, f64::to_bits(0.2));
    assert_eq!(args.e_for_fiber, f64::to_bits(100.0));
    assert_eq!(args.nu_for_fiber, f64::to_bits(0.3));
    assert_eq!(args.e_for_matrix, f64::to_bits(5.0));
    assert_eq!(args.nu_for_matrix, f64::to_bits(0.2));

    let resp = ElasticModulesForUnidirectionalCompositeResponseMessage::example();
    assert_eq!(resp.e1, f64::to_bits(40.01172332942556));
    assert_eq!(resp.e2, f64::to_bits(6.7364802254566305));
    assert_eq!(resp.e3, f64::to_bits(6.7364802254566305));
    assert_eq!(resp.nu12, f64::to_bits(0.03840958253366131));
    assert_eq!(resp.nu13, f64::to_bits(0.03840958253366131));
    assert_eq!(resp.nu23, f64::to_bits(0.21620579415556423));
    assert_eq!(resp.g12, f64::to_bits(2.9945407835581253));
    assert_eq!(resp.g13, f64::to_bits(2.9945407835581253));
    assert_eq!(resp.g23, f64::to_bits(2.769465602708258));

    let h_args = ElasticModulesForHoneycombArgsMessage::example();
    assert_eq!(h_args.number_of_model, 1);
    assert_eq!(h_args.l_cell_side_size, f64::to_bits(9.24));
    assert_eq!(h_args.h_cell_side_size, f64::to_bits(8.4619));
    assert_eq!(h_args.wall_thickness, f64::to_bits(0.4));
    assert_eq!(h_args.angle, f64::to_bits(core::f64::consts::PI / 6.0));
    assert_eq!(h_args.e_for_honeycomb, f64::to_bits(7.07));
    assert_eq!(h_args.nu_for_honeycomb, f64::to_bits(0.2));

    let h_resp = ElasticModulesForHoneycombResponseMessage::example();
    assert_eq!(h_resp.e1, f64::to_bits(0.0014972693834675922));
    assert_eq!(h_resp.e2, f64::to_bits(0.0013344741623586129));
    assert_eq!(h_resp.e3, f64::to_bits(0.3592394105863781));
    assert_eq!(h_resp.nu12, f64::to_bits(1.0512175946777975));
    assert_eq!(h_resp.nu13, f64::to_bits(0.0008335774635770805));
    assert_eq!(h_resp.nu23, f64::to_bits(0.0007429441887683659));
    assert_eq!(h_resp.g12, f64::to_bits(0.000288216866909449));
    assert_eq!(h_resp.g13, f64::to_bits(0.07995563727728495));
    assert_eq!(h_resp.g23, f64::to_bits(0.0755763830773748));

    let c_args = ThermalConductivityForUnidirectionalCompositeArgsMessage::example();
    assert_eq!(c_args.number_of_model, 2);
    assert_eq!(c_args.fibre_content, f64::to_bits(0.2));
    assert_eq!(c_args.k_for_fiber, f64::to_bits(100.0));
    assert_eq!(c_args.k_for_matrix, f64::to_bits(1.0));

    let c_resp = ThermalConductivityForUnidirectionalCompositeResponseMessage::example();
    assert_eq!(c_resp.k1, f64::to_bits(20.8));
    assert_eq!(c_resp.k2, f64::to_bits(1.3300670235932428));
    assert_eq!(c_resp.k3, f64::to_bits(1.3300670235932428));

    let e_args = ThermalExpansionForUnidirectionalCompositeArgsMessage::example();
    assert_eq!(e_args.number_of_model, 1);
    assert_eq!(e_args.alpha_for_fiber, f64::to_bits(1e-6));
    assert_eq!(e_args.alpha_for_matrix, f64::to_bits(20e-5));

    let e_resp = ThermalExpansionForUnidirectionalCompositeResponseMessage::example();
    assert_eq!(e_resp.alpha1, f64::to_bits(0.00003303092919697953));
    assert_eq!(e_resp.alpha2, f64::to_bits(0.0001653038466333737));
    assert_eq!(e_resp.alpha3, f64::to_bits(0.0001653038466333737));

    let eh_args = ThermalExpansionForHoneycombArgsMessage::example();
    assert_eq!(eh_args.number_of_model, 1);
    assert_eq!(eh_args._wall_thickness, f64::to_bits(0.4));
    assert_eq!(eh_args.alpha_for_honeycomb, f64::to_bits(20e-5));

    let eh_resp = ThermalExpansionForHoneycombResponseMessage::example();
    assert_eq!(eh_resp.alpha1, f64::to_bits(0.0002));
    assert_eq!(eh_resp.alpha2, f64::to_bits(0.00019999999999999966));
    assert_eq!(eh_resp.alpha3, f64::to_bits(0.0002));
}

#[test]
fn kernel_error_variants_describe_themselves() {
    let numerical = Error::NumericalError;
    let missing = Error::ExpectedArgumentMissing("nu_for_fiber");
    let unknown = Error::UnknownModel;
    assert!(matches!(numerical, Error::NumericalError));
    assert!(matches!(missing, Error::ExpectedArgumentMissing("nu_for_fiber")));
    assert!(matches!(unknown, Error::UnknownModel));
    let shown = format!("{:?}", missing);
    assert!(shown.contains("nu_for_fiber"));
}

#[test]
fn endianness_example_round_trip() {
    for order in [Endianness::Little, Endianness::Big] {
        let tagged = ElasticModulesForHoneycombArgsMessage::example().into_bytes(order);
        assert_eq!(Endianness::try_from_u8(tagged[0]), Some(order));
    }
}
