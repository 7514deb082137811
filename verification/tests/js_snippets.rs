use wireproto::proto::{
    ElasticModulesForHoneycombArgsMessage, ElasticModulesForHoneycombResponseMessage,
    ElasticModulesForUnidirectionalCompositeArgsMessage,
    ElasticModulesForUnidirectionalCompositeResponseMessage,
    ThermalConductivityForUnidirectionalCompositeArgsMessage,
    ThermalConductivityForUnidirectionalCompositeResponseMessage,
    ThermalExpansionForHoneycombArgsMessage, ThermalExpansionForHoneycombResponseMessage,
    ThermalExpansionForUnidirectionalCompositeArgsMessage,
    ThermalExpansionForUnidirectionalCompositeResponseMessage,
};

#[test]
fn see_js_build_args_buffer_for_elastic_modules_for_unidirectional_composite_args_message() {
    println!(
        "{}",
        ElasticModulesForUnidirectionalCompositeArgsMessage::js_build_args_buffer()
    );
}

#[test]
fn see_js_send_req_for_elastic_modules_for_unidirectional_composite_response_message() {
    println!(
        "{}",
        ElasticModulesForUnidirectionalCompositeResponseMessage::js_send_req()
    );
}

#[test]
fn see_js_build_args_buffer_for_elastic_modules_for_honeycomb_args_message() {
    println!("{}", ElasticModulesForHoneycombArgsMessage::js_build_args_buffer());
}

#[test]
fn see_js_send_req_for_elastic_modules_for_honeycomb_response_message() {
    println!("{}", ElasticModulesForHoneycombResponseMessage::js_send_req());
}

#[test]
fn see_js_build_args_buffer_for_thermal_expansion_for_unidirectional_composite_args_message() {
    println!(
        "{}",
        ThermalExpansionForUnidirectionalCompositeArgsMessage::js_build_args_buffer()
    );
}

#[test]
fn see_js_send_req_for_thermal_expansion_for_unidirectional_composite_response_message() {
    println!(
        "{}",
        ThermalExpansionForUnidirectionalCompositeResponseMessage::js_send_req()
    );
}

#[test]
fn see_js_build_args_buffer_for_thermal_expansion_for_honeycomb_args_message() {
    println!("{}", ThermalExpansionForHoneycombArgsMessage::js_build_args_buffer());
}

#[test]
fn see_js_send_req_for_thermal_expansion_for_honeycomb_args_message() {
    println!("{}", ThermalExpansionForHoneycombResponseMessage::js_send_req());
}

#[test]
fn see_js_build_args_buffer_for_thermal_conductivity_for_unidirectional_composite_args_message() {
    println!(
        "{}",
        ThermalConductivityForUnidirectionalCompositeArgsMessage::js_build_args_buffer()
    );
}

#[test]
fn see_js_send_req_for_thermal_conductivity_for_unidirectional_composite_response_message() {
    println!(
        "{}",
        ThermalConductivityForUnidirectionalCompositeResponseMessage::js_send_req()
    );
}

#[test]
fn js_build_args_buffer_exact_text() {
    let expected = "const args_buffer = new ArrayBuffer(32);\n\
                    const args = new DataView(args_buffer);\n\
                    args.setUint8(0, endianness);\n\
                    args.setUint8(1, number_of_model);\n\
                    args.setUint8(2, 0); // padding\n\
                    args.setUint8(3, 0); // padding\n\
                    args.setUint8(4, 0); // padding\n\
                    args.setUint8(5, 0); // padding\n\
                    args.setUint8(6, 0); // padding\n\
                    args.setUint8(7, 0); // padding\n\
                    args.setFloat64(8, fibre_content, native_endianness);\n\
                    args.setFloat64(16, k_for_fiber, native_endianness);\n\
                    args.setFloat64(24, k_for_matrix, native_endianness);\n";
    assert_eq!(
        ThermalConductivityForUnidirectionalCompositeArgsMessage::js_build_args_buffer(),
        expected
    );
}

#[test]
fn js_send_req_exact_text() {
    let expected = "const req = new XMLHttpRequest();\n\
                    req.open('POST', url);\n\
                    req.responseType = 'arraybuffer';\n\
                    req.onload = (_event) => {\n\
                    \t//const status_code = req.status;\n\
                    \t//const console.log(`status_code = ${status_code}`);\n\
                    \tconst array_buffer = req.response;\n\
                    \tif (array_buffer) {\n\
                    \t\tconst resp_view = new Float64Array(array_buffer);\n\
                    \t\tconst k1 = resp_view[0];\n\
                    \t\tconst k2 = resp_view[1];\n\
                    \t\tconst k3 = resp_view[2];\n\
                    \t};\n\
                    };\n";
    assert_eq!(
        ThermalConductivityForUnidirectionalCompositeResponseMessage::js_send_req(),
        expected
    );
}
