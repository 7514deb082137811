use wireproto::endianness::Endianness;
use wireproto::proto::{
    ElasticModulesForUnidirectionalCompositeArgsMessage, ThermalExpansionForHoneycombResponseMessage,
    ThermalExpansionForUnidirectionalCompositeArgsMessage,
};

#[test]
fn see_args_as_bytes() {
    let args = ElasticModulesForUnidirectionalCompositeArgsMessage {
        number_of_model: 2,
        fibre_content: f64::to_bits(0.2),
        e_for_fiber: f64::to_bits(100.0),
        nu_for_fiber: f64::to_bits(0.3),
        e_for_matrix: f64::to_bits(5.0),
        nu_for_matrix: f64::to_bits(0.2),
    };
    let bytes = args.into_bytes(Endianness::Little);

    println!("Args as bytes: {:?}", bytes);

    assert_eq!(bytes[0..=0], [0], "Endianness");
    assert_eq!(bytes[1..=1], [2], "Number of model");
    // bytes[2..=7] is the padding
    assert_eq!(bytes[8..=15], [154, 153, 153, 153, 153, 153, 201, 63], "Fibre content");
    assert_eq!(bytes[16..=23], [0, 0, 0, 0, 0, 0, 89, 64], "E for fiber");
    assert_eq!(bytes[24..=31], [51, 51, 51, 51, 51, 51, 211, 63], "Nu for fiber");
    assert_eq!(bytes[32..=39], [0, 0, 0, 0, 0, 0, 20, 64], "E for matrix");
    assert_eq!(bytes[40..=47], [154, 153, 153, 153, 153, 153, 201, 63], "Nu for matrix");
}

#[test]
fn check_response() {
    assert_eq!(
        [211, 61, 106, 38, 128, 1, 68, 64],
        u64::to_le_bytes(f64::to_bits(40.01172332942556)),
    );
    assert_eq!(
        [159, 242, 73, 223, 39, 242, 26, 64],
        u64::to_le_bytes(f64::to_bits(6.7364802254566305)),
    );
    assert_eq!(
        [159, 242, 73, 223, 39, 242, 26, 64],
        u64::to_le_bytes(f64::to_bits(6.7364802254566305)),
    );
    assert_eq!(
        [172, 144, 171, 185, 107, 170, 163, 63],
        u64::to_le_bytes(f64::to_bits(0.03840958253366131)),
    );
    assert_eq!(
        [172, 144, 171, 185, 107, 170, 163, 63],
        u64::to_le_bytes(f64::to_bits(0.03840958253366131)),
    );
    assert_eq!(
        [42, 75, 141, 167, 161, 172, 203, 63],
        u64::to_le_bytes(f64::to_bits(0.21620579415556423)),
    );
    assert_eq!(
        [231, 92, 95, 204, 209, 244, 7, 64],
        u64::to_le_bytes(f64::to_bits(2.9945407835581253)),
    );
    assert_eq!(
        [231, 92, 95, 204, 209, 244, 7, 64],
        u64::to_le_bytes(f64::to_bits(2.9945407835581253)),
    );
    assert_eq!(
        [46, 59, 248, 148, 221, 39, 6, 64],
        u64::to_le_bytes(f64::to_bits(2.769465602708258)),
    );
}

#[test]
fn check_args_message_size() {
    assert_eq!(ElasticModulesForUnidirectionalCompositeArgsMessage::size(), 48);
}

#[test]
fn see_elastic_modules_for_unidirectional_composite_args_message_example_as_bytes() {
    println!(
        "{:?}",
        ElasticModulesForUnidirectionalCompositeArgsMessage::example_as_bytes(Endianness::Little)
    );
}

#[test]
fn check_resp_size() {
    println!(
        "core::mem::size_of::<ThermalExpansionForHoneycombResponseMessage>() = {}",
        core::mem::size_of::<ThermalExpansionForHoneycombResponseMessage>()
    );
}

#[test]
fn see_py_struct_format_string() {
    let s = ThermalExpansionForUnidirectionalCompositeArgsMessage::py_struct_format_string();
    println!("{}", s);
}
