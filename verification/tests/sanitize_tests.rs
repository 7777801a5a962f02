use flight_sql_client::sanitize::filter_message;

#[test]
fn strips_server_source_annotation() {
    let raw = "status: Internal, message: \"Table not found at src/dbserver/src/catalog.rs:42\", details: []";
    assert_eq!(filter_message(raw), "Table not found");
}

#[test]
fn keeps_plain_message_text() {
    let raw = "Error { message: \"syntax error near SELECT\" }";
    assert_eq!(filter_message(raw), "syntax error near SELECT");
}

#[test]
fn restores_escaped_quotes_as_literal_quotes() {
    let raw = "message: \"bad \\\"name\\\" given\"";
    assert_eq!(filter_message(raw), "bad \"name\" given");
}

#[test]
fn collapses_newlines_to_spaces_without_field() {
    let raw = "plain failure\nsecond line\rthird";
    assert_eq!(filter_message(raw), "plain failure second line third");
}

#[test]
fn text_without_message_field_passes_through() {
    let raw = "connection refused";
    assert_eq!(filter_message(raw), "connection refused");
}

#[test]
fn unterminated_field_passes_through() {
    let raw = "message: \"no closing quote";
    assert_eq!(filter_message(raw), "message: \"no closing quote");
}

#[test]
fn idempotent_on_annotated_message() {
    let raw = "status: Internal, message: \"boom at src/dbserver/src/exec.rs:7\"";
    let once = filter_message(raw);
    let twice = filter_message(&once);
    assert_eq!(twice, once);
}

#[test]
fn idempotent_on_escaped_quotes() {
    let raw = "message: \"bad \\\"name\\\" given\"";
    let once = filter_message(raw);
    let twice = filter_message(&once);
    assert_eq!(twice, once);
}

#[test]
fn idempotent_on_plain_text() {
    let raw = "no field here\nat all";
    let once = filter_message(raw);
    let twice = filter_message(&once);
    assert_eq!(twice, once);
}

#[test]
fn a_message_embedding_a_quoted_field_is_extracted_again() {
    // the one family of inputs on which a second application differs: the
    // extracted text itself holds a quoted message field, which the next
    // application extracts in turn
    let raw = "message: \"outer message: \\\"inner\\\" tail\"";
    let once = filter_message(raw);
    assert_eq!(once, "outer message: \"inner\" tail");
    let twice = filter_message(&once);
    assert_eq!(twice, "inner");
}

#[test]
fn annotation_must_follow_server_path_shape() {
    // an " at " that does not open the server source annotation stays
    let raw = "message: \"lock held at table t\"";
    assert_eq!(filter_message(raw), "lock held at table t");
}
