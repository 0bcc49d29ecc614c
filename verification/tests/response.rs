use hibouair::response::{
    classify, classify_fields, parse_line, trim_line_end, LineFields, ParseError,
    ProtocolResponse,
};

#[test]
fn acknowledgement_carries_error_code() {
    assert_eq!(
        classify("{\"A\":1,\"err\":0,\"errMsg\":\"ok\"}"),
        Ok(ProtocolResponse::Acknowledgement { error_code: 0 })
    );
    assert_eq!(
        classify("{\"A\":3,\"err\":1280,\"errMsg\":\"invalid\"}"),
        Ok(ProtocolResponse::Acknowledgement { error_code: 1280 })
    );
    assert_eq!(
        classify("{\"err\":-7}"),
        Ok(ProtocolResponse::Acknowledgement { error_code: -7 })
    );
}

#[test]
fn acknowledgement_without_integer_code_defaults() {
    assert_eq!(
        classify("{\"err\":\"bad\"}"),
        Ok(ProtocolResponse::Acknowledgement { error_code: -1 })
    );
    assert_eq!(
        classify("{\"err\":1.5}"),
        Ok(ProtocolResponse::Acknowledgement { error_code: -1 })
    );
    assert_eq!(
        classify("{\"err\":null}"),
        Ok(ProtocolResponse::Acknowledgement { error_code: -1 })
    );
    assert_eq!(
        classify("{\"err\":18446744073709551615}"),
        Ok(ProtocolResponse::Acknowledgement { error_code: -1 })
    );
}

#[test]
fn err_takes_precedence_over_other_members() {
    assert_eq!(
        classify("{\"E\":1,\"err\":4,\"addr\":\"a\",\"data\":\"b\"}"),
        Ok(ProtocolResponse::Acknowledgement { error_code: 4 })
    );
}

#[test]
fn end_marker_ends_response() {
    assert_eq!(
        classify("{\"E\":1,\"nol\":4}"),
        Ok(ProtocolResponse::EndOfResponse)
    );
    assert_eq!(
        classify("{\"E\":1,\"addr\":\"a\",\"data\":\"b\"}"),
        Ok(ProtocolResponse::EndOfResponse)
    );
}

#[test]
fn scan_result_carries_address_and_data() {
    assert_eq!(
        classify("{\"SF\":2,\"addr\":\"[1]D1:53:C9:A9:8C:D2\",\"type\":3,\"data\":\"0201061BFF5B07\"}"),
        Ok(ProtocolResponse::ScanResult {
            address: "[1]D1:53:C9:A9:8C:D2".to_string(),
            data: "0201061BFF5B07".to_string(),
        })
    );
}

#[test]
fn other_objects_are_unrecognized() {
    let line = "{\"C\":1,\"cmd\":\"ATV1\"}";
    assert_eq!(
        classify(line),
        Ok(ProtocolResponse::Unrecognized { raw_line: line.to_string() })
    );
    let only_addr = "{\"addr\":\"x\"}";
    assert_eq!(
        classify(only_addr),
        Ok(ProtocolResponse::Unrecognized { raw_line: only_addr.to_string() })
    );
    let data_not_text = "{\"addr\":\"x\",\"data\":5}";
    assert_eq!(
        classify(data_not_text),
        Ok(ProtocolResponse::Unrecognized { raw_line: data_not_text.to_string() })
    );
}

#[test]
fn json_that_is_no_object_is_unrecognized() {
    for line in ["123", "\"OK\"", "[1,2]", "null", "true"] {
        assert_eq!(
            classify(line),
            Ok(ProtocolResponse::Unrecognized { raw_line: line.to_string() })
        );
    }
}

#[test]
fn plain_text_is_a_parse_error_with_the_line() {
    for line in ["OK", "ERROR", "ECHO OFF", "VERBOSE ON", "", "{\"err\":0", "{err:0}"] {
        assert_eq!(
            classify(line),
            Err(ParseError { raw_line: line.to_string() })
        );
    }
}

#[test]
fn parse_line_reads_the_members() {
    assert_eq!(parse_line("OK"), None);
    assert_eq!(
        parse_line("{\"err\":3,\"E\":0,\"addr\":\"a\",\"data\":\"d\"}"),
        Some(LineFields {
            has_err: true,
            err: Some(3),
            is_end: true,
            address: Some("a".to_string()),
            data: Some("d".to_string()),
        })
    );
    assert_eq!(
        parse_line("{\"err\":\"x\",\"addr\":1}"),
        Some(LineFields {
            has_err: true,
            err: None,
            is_end: false,
            address: None,
            data: None,
        })
    );
    assert_eq!(
        parse_line("7"),
        Some(LineFields {
            has_err: false,
            err: None,
            is_end: false,
            address: None,
            data: None,
        })
    );
}

#[test]
fn classify_fields_follows_the_rules() {
    let none = LineFields {
        has_err: false,
        err: None,
        is_end: false,
        address: None,
        data: None,
    };
    assert_eq!(
        classify_fields("x", None),
        Err(ParseError { raw_line: "x".to_string() })
    );
    assert_eq!(
        classify_fields("x", Some(none.clone())),
        Ok(ProtocolResponse::Unrecognized { raw_line: "x".to_string() })
    );
    assert_eq!(
        classify_fields("x", Some(LineFields { has_err: true, ..none.clone() })),
        Ok(ProtocolResponse::Acknowledgement { error_code: -1 })
    );
    assert_eq!(
        classify_fields(
            "x",
            Some(LineFields { has_err: true, err: Some(9), is_end: true, ..none.clone() })
        ),
        Ok(ProtocolResponse::Acknowledgement { error_code: 9 })
    );
    assert_eq!(
        classify_fields("x", Some(LineFields { is_end: true, ..none.clone() })),
        Ok(ProtocolResponse::EndOfResponse)
    );
    assert_eq!(
        classify_fields(
            "x",
            Some(LineFields {
                address: Some("a".to_string()),
                data: Some("d".to_string()),
                ..none.clone()
            })
        ),
        Ok(ProtocolResponse::ScanResult { address: "a".to_string(), data: "d".to_string() })
    );
    assert_eq!(
        classify_fields(
            "x",
            Some(LineFields { data: Some("d".to_string()), ..none.clone() })
        ),
        Ok(ProtocolResponse::Unrecognized { raw_line: "x".to_string() })
    );
}

#[test]
fn trim_line_end_takes_off_trailing_line_ends() {
    assert_eq!(trim_line_end("OK\r\n"), "OK");
    assert_eq!(trim_line_end("OK\n"), "OK");
    assert_eq!(trim_line_end("OK\r\n\r\n"), "OK");
    assert_eq!(trim_line_end("OK"), "OK");
    assert_eq!(trim_line_end("\r\nOK"), "\r\nOK");
    assert_eq!(trim_line_end("O\rK\n"), "O\rK");
    assert_eq!(trim_line_end("\n"), "");
    assert_eq!(trim_line_end(""), "");
    assert_eq!(trim_line_end("gr\u{00e4}ns\u{00f6}\r\n"), "gr\u{00e4}ns\u{00f6}");
}
