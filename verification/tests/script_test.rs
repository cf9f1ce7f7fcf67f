use rjs::script::{
    exception_report, file_contents_result, format_exception, instance_conversion, require_object_data, to_result,
    ConversionResult,
};
use rjs::text::to_decimal;
use rjs::webgl::{
    describe, program_parameter, shader_parameter, ParamValue, WebGLKind, COMPILE_STATUS,
    DELETE_STATUS, LINK_STATUS, VALIDATE_STATUS,
};

#[test]
fn conversion_to_result() {
    assert_eq!(to_result(Ok(ConversionResult::Success(4u8))), Ok(4u8));
    assert_eq!(
        to_result::<u8>(Ok(ConversionResult::Failure("nope".to_string()))),
        Err(Some("nope".to_string()))
    );
    assert_eq!(to_result::<u8>(Err(())), Err(None));
}

#[test]
fn instance_checks_in_order() {
    assert_eq!(
        instance_conversion(false, false, false),
        ConversionResult::Failure("value is not an object".to_string())
    );
    assert_eq!(
        instance_conversion(false, true, true),
        ConversionResult::Failure("value is not an object".to_string())
    );
    assert_eq!(
        instance_conversion(true, false, true),
        ConversionResult::Failure("value is not instanceof the class".to_string())
    );
    assert_eq!(
        instance_conversion(true, true, false),
        ConversionResult::Failure("value has no private".to_string())
    );
    assert_eq!(instance_conversion(true, true, true), ConversionResult::Success(()));
}

#[test]
fn buffer_data_must_be_object() {
    assert_eq!(require_object_data(true), Ok(()));
    assert_eq!(
        require_object_data(false),
        Err(Some("data is not an object. size?".to_string()))
    );
}

#[test]
fn exception_report_format() {
    assert_eq!(
        exception_report(Some(b"main.js"), 12, 4, b"x is not defined"),
        "Exception at main.js:12:4: x is not defined"
    );
    assert_eq!(
        exception_report(None, 0, 0, b"oops"),
        "Exception at <no filename>:0:0: oops"
    );
    // invalid UTF-8 is replaced, not passed through
    assert_eq!(
        exception_report(Some(b"a\xffb.js"), 1, 2, b"\xfe"),
        "Exception at a\u{FFFD}b.js:1:2: \u{FFFD}"
    );
}

#[test]
fn file_read_results() {
    assert_eq!(file_contents_result(None), Ok(None));
    assert_eq!(
        file_contents_result(Some(Ok("abc".to_string()))),
        Ok(Some("abc".to_string()))
    );
    assert_eq!(
        file_contents_result(Some(Err("denied".to_string()))),
        Err(Some("Error reading contents: denied".to_string()))
    );
}

#[test]
fn decimal_rendering() {
    assert_eq!(to_decimal(0), "0");
    assert_eq!(to_decimal(7), "7");
    assert_eq!(to_decimal(10), "10");
    assert_eq!(to_decimal(1234567890), "1234567890");
    assert_eq!(to_decimal(u64::MAX), "18446744073709551615");
}

#[test]
fn gl_query_values() {
    assert_eq!(shader_parameter(COMPILE_STATUS, 1), ParamValue::Boolean(true));
    assert_eq!(shader_parameter(COMPILE_STATUS, 0), ParamValue::Boolean(false));
    assert_eq!(shader_parameter(DELETE_STATUS, 2), ParamValue::Boolean(true));
    assert_eq!(shader_parameter(0x8B84, 57), ParamValue::Int32(57));
    assert_eq!(shader_parameter(LINK_STATUS, 1), ParamValue::Int32(1));
    assert_eq!(program_parameter(LINK_STATUS, 1), ParamValue::Boolean(true));
    assert_eq!(program_parameter(VALIDATE_STATUS, -1), ParamValue::Boolean(false));
    assert_eq!(program_parameter(DELETE_STATUS, 0), ParamValue::Boolean(false));
    assert_eq!(program_parameter(COMPILE_STATUS, 1), ParamValue::Int32(1));
}

#[test]
fn gl_constants_agree_with_gl() {
    assert_eq!(COMPILE_STATUS, gl::COMPILE_STATUS);
    assert_eq!(DELETE_STATUS, gl::DELETE_STATUS);
    assert_eq!(LINK_STATUS, gl::LINK_STATUS);
    assert_eq!(VALIDATE_STATUS, gl::VALIDATE_STATUS);
}

#[test]
fn gl_object_descriptions() {
    assert_eq!(describe(WebGLKind::Shader, 3), "{WebGLShader 3}");
    assert_eq!(describe(WebGLKind::Program, 0), "{WebGLProgram 0}");
    assert_eq!(describe(WebGLKind::Buffer, 12), "{WebGLBuffer 12}");
    assert_eq!(describe(WebGLKind::UniformLocation, 4294967295), "{WebGLUniformLocation 4294967295}");
}

#[test]
fn exception_format_from_decoded_text() {
    assert_eq!(
        format_exception(Some("lib/util.js"), 305, 17, "bad argument"),
        "Exception at lib/util.js:305:17: bad argument"
    );
    assert_eq!(
        format_exception(None, 7, 0, ""),
        "Exception at <no filename>:7:0: "
    );
}
