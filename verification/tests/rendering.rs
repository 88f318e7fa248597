use http_client::hexdump::hexdump;
use http_client::{ErrorKind, HttpClient, HttpMethod, Request, RequestError, Response};

fn not_found() -> Response {
    Response {
        status_code: 404,
        body: Vec::from("Not Found!!!".as_bytes()),
        headers: vec!["X-Custom: None".to_string()],
    }
}

#[test]
fn request_test_debug() {
    let client = HttpClient::new("https://example.com").unwrap();
    let mut req = client.new_request_with_url("https://example.com").unwrap();
    req.set_method(HttpMethod::Post);

    assert_eq!(
        req.to_debug_string(false),
        r#"Request { method: Post, url: "https://example.com/" }"#
    );
}

#[test]
fn response_test_debug() {
    let res = not_found();

    assert_eq!(
        res.to_debug_string(),
        r#"Response { status_code: 404, headers: ["X-Custom: None"] }
00000000  4e 6f 74 20 46 6f 75 6e  64 21 21 21              |Not.Found!!!|"#
    );
}

#[test]
fn test_display() {
    let res = not_found();

    assert_eq!(
        res.to_string(),
        r#"Status: 404
00000000  4e 6f 74 20 46 6f 75 6e  64 21 21 21              |Not.Found!!!|"#
    );
}

#[test]
fn hexdump_of_nothing_is_empty() {
    assert_eq!(hexdump(&[]), "");
}

#[test]
fn hexdump_of_the_sample_text() {
    assert_eq!(
        hexdump(b"Not Found!!!"),
        "00000000  4e 6f 74 20 46 6f 75 6e  64 21 21 21              |Not.Found!!!|"
    );
}

#[test]
fn hexdump_of_one_byte() {
    assert_eq!(
        hexdump(&[0x00]),
        "00000000  00                                                |.|"
    );
}

#[test]
fn hexdump_of_eight_bytes_closes_the_first_group() {
    assert_eq!(
        hexdump(b"abcdefgh"),
        "00000000  61 62 63 64 65 66 67 68                           |abcdefgh|"
    );
}

#[test]
fn hexdump_of_a_full_line() {
    assert_eq!(
        hexdump(b"0123456789abcdef"),
        "00000000  30 31 32 33 34 35 36 37  38 39 61 62 63 64 65 66  |0123456789abcdef|"
    );
}

#[test]
fn hexdump_starts_a_second_line_after_sixteen_bytes() {
    assert_eq!(
        hexdump(b"0123456789abcdef\n"),
        "00000000  30 31 32 33 34 35 36 37  38 39 61 62 63 64 65 66  |0123456789abcdef|\n\
         00000010  0a                                                |.|"
    );
}

#[test]
fn hexdump_counts_offsets_in_hexadecimal() {
    let data = vec![0xffu8; 16 * 17 + 1];
    let dump = hexdump(&data);
    let lines: Vec<&str> = dump.split('\n').collect();
    assert_eq!(lines.len(), 18);
    assert!(lines[10].starts_with("000000a0  ff ff"));
    assert!(lines[16].starts_with("00000100  ff ff"));
    assert_eq!(
        lines[17],
        "00000110  ff                                                |.|"
    );
    assert!(!dump.ends_with('\n'));
}

#[test]
fn hexdump_gutter_shows_letters_digits_and_punctuation_only() {
    for byte in 0..=255u8 {
        let dump = hexdump(&[byte]);
        let shown = dump.chars().rev().nth(1).unwrap();
        let expected = if byte.is_ascii_alphanumeric() || byte.is_ascii_punctuation() {
            byte as char
        } else {
            '.'
        };
        assert_eq!(shown, expected, "byte {byte:#04x}");
        assert_eq!(&dump[10..12], format!("{:02x}", byte));
    }
}

#[test]
fn hexdump_agrees_with_a_line_by_line_rendering() {
    let data: Vec<u8> = (0..1000u32).map(|i| (i * 7 % 251) as u8).collect();
    let mut expected = String::new();
    for (k, chunk) in data.chunks(16).enumerate() {
        if k != 0 {
            expected.push('\n');
        }
        expected.push_str(&format!("{:08x}  ", k * 16));
        for column in 0..16 {
            match chunk.get(column) {
                Some(byte) => expected.push_str(&format!("{:02x} ", byte)),
                None => expected.push_str("   "),
            }
            if column == 7 {
                expected.push(' ');
            }
        }
        expected.push_str(" |");
        for byte in chunk {
            if byte.is_ascii_alphanumeric() || byte.is_ascii_punctuation() {
                expected.push(*byte as char);
            } else {
                expected.push('.');
            }
        }
        expected.push('|');
    }
    assert_eq!(hexdump(&data), expected);
}

#[test]
fn request_debug_notes_the_length_of_the_body() {
    let mut req = Request::new("https://example.com/".to_string());
    req.body = Some(b"Not Found!!!".to_vec());
    assert_eq!(
        req.to_debug_string(false),
        r#"Request { method: Get, url: "https://example.com/", body: "12 bytes" }"#
    );
}

#[test]
fn request_debug_in_long_form_dumps_the_body() {
    let mut req = Request::new("https://example.com/".to_string());
    req.set_method(HttpMethod::Delete);
    assert_eq!(
        req.to_debug_string(true),
        "Request {\n    method: Delete,\n    url: \"https://example.com/\",\n}"
    );
    req.body = Some(b"Not Found!!!".to_vec());
    assert_eq!(
        req.to_debug_string(true),
        "Request {\n    method: Delete,\n    url: \"https://example.com/\",\n}\n\
         00000000  4e 6f 74 20 46 6f 75 6e  64 21 21 21              |Not.Found!!!|"
    );
}

#[test]
fn request_debug_escapes_the_url_as_debug_does() {
    let text = "a\"b\\c\n";
    let req = Request::new(text.to_string());
    assert_eq!(
        req.to_debug_string(false),
        format!("Request {{ method: Get, url: {:?} }}", text)
    );
}

#[test]
fn response_debug_lists_all_header_lines() {
    let res = Response {
        status_code: 200,
        body: vec![],
        headers: vec!["A: 1".to_string(), "B: \"2\"".to_string(), "A: 3".to_string()],
    };
    assert_eq!(
        res.to_debug_string(),
        r#"Response { status_code: 200, headers: ["A: 1", "B: \"2\"", "A: 3"] }"#
    );
    let bare = Response { status_code: 0, body: vec![], headers: vec![] };
    assert_eq!(bare.to_debug_string(), "Response { status_code: 0, headers: [] }");
    assert_eq!(bare.to_string(), "Status: 0\n");
}

#[test]
fn status_codes_are_written_in_decimal() {
    for status_code in [1u32, 9, 10, 99, 100, 204, 1000, 65535, 4294967295] {
        let res = Response { status_code, body: vec![], headers: vec![] };
        assert_eq!(res.to_string(), format!("Status: {}\n", status_code));
    }
}

#[test]
fn http_error_message_has_status_and_body() {
    let error = RequestError {
        request: Request::new("https://example.com/".to_string()),
        kind: ErrorKind::HttpError(not_found()),
    };
    assert_eq!(error.to_string(), "HTTP Error: Status: 404\nNot Found!!!");
    assert_eq!(
        error.to_debug_string(),
        "HttpError { request: Request { method: Get, url: \"https://example.com/\" }, \
         response: Response { status_code: 404, headers: [\"X-Custom: None\"] }\n\
         00000000  4e 6f 74 20 46 6f 75 6e  64 21 21 21              |Not.Found!!!| }"
    );
}

#[test]
fn http_error_message_dumps_a_body_that_is_no_text() {
    let error = RequestError {
        request: Request::new("https://example.com/".to_string()),
        kind: ErrorKind::HttpError(Response {
            status_code: 500,
            body: vec![0x4e, 0x6f, 0xff, 0x00],
            headers: vec![],
        }),
    };
    assert_eq!(
        error.to_string(),
        "HTTP Error: Status: 500\n\
         00000000  4e 6f ff 00                                       |No..|"
    );
    let error = RequestError {
        request: Request::new("https://example.com/".to_string()),
        kind: ErrorKind::HttpError(Response { status_code: 502, body: vec![], headers: vec![] }),
    };
    assert_eq!(error.to_string(), "HTTP Error: Status: 502\n");
    let error = RequestError {
        request: Request::new("https://example.com/".to_string()),
        kind: ErrorKind::HttpError(Response {
            status_code: 404,
            body: "pas trouv\u{e9}\n".as_bytes().to_vec(),
            headers: vec![],
        }),
    };
    assert_eq!(error.to_string(), "HTTP Error: Status: 404\npas trouv\u{e9}\n");
}

#[test]
fn transport_error_message_is_that_of_its_cause() {
    let cause = curl::Error::new(7);
    let expected = cause.to_string();
    let detail = format!("{:?}", cause);
    let error = RequestError::from((Request::new("https://example.com/".to_string()), cause));
    assert!(matches!(error.kind, ErrorKind::CurlError(_)));
    assert_eq!(error.to_string(), expected);
    assert_eq!(
        error.to_debug_string(),
        format!(
            "CurlError {{ request: Request {{ method: Get, url: \"https://example.com/\" }}, error: {} }}",
            detail
        )
    );
}

#[test]
fn decode_error_message_is_that_of_its_cause() {
    let cause = serde_json::from_slice::<u32>(b"{").unwrap_err();
    let expected = cause.to_string();
    let detail = format!("{:?}", cause);
    let error = RequestError::from((Request::new("https://example.com/".to_string()), cause));
    assert!(matches!(error.kind, ErrorKind::JsonParseError(_)));
    assert_eq!(error.to_string(), expected);
    assert_eq!(
        error.to_debug_string(),
        format!(
            "JsonParseError {{ request: Request {{ method: Get, url: \"https://example.com/\" }}, error: {} }}",
            detail
        )
    );
}

#[test]
fn frames_take_the_shown_parts_as_they_are() {
    let mut req = Request::new("https://example.com/".to_string());
    assert_eq!(req.debug_frame(false, "<url>", "<note>"), "Request { method: Get, url: <url> }");
    assert_eq!(
        req.debug_frame(true, "<url>", "<note>"),
        "Request {\n    method: Get,\n    url: <url>,\n}"
    );
    req.set_body(vec![]);
    assert_eq!(
        req.debug_frame(false, "<url>", "<note>"),
        "Request { method: Get, url: <url>, body: <note> }"
    );
    assert_eq!(
        req.debug_frame(true, "<url>", "<note>"),
        "Request {\n    method: Get,\n    url: <url>,\n}\n"
    );
    assert_eq!(
        req.to_debug_string(false),
        r#"Request { method: Get, url: "https://example.com/", body: "0 bytes" }"#
    );

    let res = not_found();
    assert_eq!(
        res.debug_frame(&vec!["<a>".to_string(), "<b>".to_string()]),
        "Response { status_code: 404, headers: [<a>, <b>] }\n\
         00000000  4e 6f 74 20 46 6f 75 6e  64 21 21 21              |Not.Found!!!|"
    );

    let error = RequestError { request: req, kind: ErrorKind::HttpError(res) };
    assert_eq!(
        error.debug_frame("<request>", "<cause>"),
        "HttpError { request: <request>, response: <cause> }"
    );
    let error = RequestError::from((error.request, curl::Error::new(7)));
    assert_eq!(
        error.debug_frame("<request>", "<cause>"),
        "CurlError { request: <request>, error: <cause> }"
    );
    let cause = serde_json::from_slice::<u32>(b"").unwrap_err();
    let error = RequestError::from((error.request, cause));
    assert_eq!(
        error.debug_frame("<request>", "<cause>"),
        "JsonParseError { request: <request>, error: <cause> }"
    );
}
