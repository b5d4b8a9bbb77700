use pdf_reviewer::request::{frame_request, request_body, MODEL};

#[test]
fn summary_request_body_is_exact() {
    let body: String = request_body("Summarize the following: ", "Hello world");
    assert_eq!(
        body,
        "{\"model\":\"gpt-3.5-turbo\",\"messages\":[{\"role\":\"system\",\"content\":\"Summarize the following: \"},{\"role\":\"user\",\"content\":\"Hello world\"}]}"
    );
}

#[test]
fn request_body_escapes_quotes_and_newlines() {
    let body = request_body("a", "He said \"hi\"\n");
    assert_eq!(
        body,
        "{\"model\":\"gpt-3.5-turbo\",\"messages\":[{\"role\":\"system\",\"content\":\"a\"},{\"role\":\"user\",\"content\":\"He said \\\"hi\\\"\\n\"}]}"
    );
}

#[test]
fn frame_request_inserts_literals_verbatim() {
    assert_eq!(
        frame_request("\"x\"", "\"y\""),
        "{\"model\":\"gpt-3.5-turbo\",\"messages\":[{\"role\":\"system\",\"content\":\"x\"},{\"role\":\"user\",\"content\":\"y\"}]}"
    );
    assert_eq!(MODEL, "gpt-3.5-turbo");
}

#[test]
fn request_body_escapes_control_characters() {
    let body = request_body("\u{8}\u{c}\r\t\\", "\u{1}\u{1f}\u{7f}\u{e9}");
    assert_eq!(
        body,
        "{\"model\":\"gpt-3.5-turbo\",\"messages\":[{\"role\":\"system\",\"content\":\"\\b\\f\\r\\t\\\\\"},{\"role\":\"user\",\"content\":\"\\u0001\\u001f\u{7f}\u{e9}\"}]}"
    );
}
