use cloudflare_ddns::errors::Error;
use cloudflare_ddns::lookup::get_id_and_content_of_dns;
use cloudflare_ddns::record::CloudflareDnsEntry;

fn ok_entry(r: Result<CloudflareDnsEntry, Error>) -> CloudflareDnsEntry {
    match r {
        Ok(entry) => entry,
        Err(e) => panic!("expected an entry, got error: {}", e.message),
    }
}

fn err_message(r: Result<CloudflareDnsEntry, Error>) -> String {
    match r {
        Ok(_) => panic!("expected an error"),
        Err(e) => e.message,
    }
}

#[test]
fn finds_matching_record() {
    let body = r#"{"result":[{"id":"abc","name":"example.com","content":"1.2.3.4"}]}"#;
    let entry = ok_entry(get_id_and_content_of_dns(body, "example.com"));
    assert_eq!(entry.id, "abc");
    assert_eq!(entry.ip_address, "1.2.3.4");
}

#[test]
fn skips_records_with_other_names() {
    let body = r#"{"result":[{"id":"x","name":"other.example.com","content":"9.9.9.9"},{"id":"abc","name":"example.com","content":"1.2.3.4"}]}"#;
    let entry = ok_entry(get_id_and_content_of_dns(body, "example.com"));
    assert_eq!(entry.id, "abc");
    assert_eq!(entry.ip_address, "1.2.3.4");
}

#[test]
fn first_matching_record_wins() {
    let body = r#"{"result":[{"id":"first","name":"example.com","content":"1.1.1.1"},{"id":"second","name":"example.com","content":"2.2.2.2"}]}"#;
    let entry = ok_entry(get_id_and_content_of_dns(body, "example.com"));
    assert_eq!(entry.id, "first");
    assert_eq!(entry.ip_address, "1.1.1.1");
}

#[test]
fn no_matching_record_is_not_found() {
    let body = r#"{"result":[{"id":"x","name":"other.example.com","content":"9.9.9.9"}]}"#;
    let message = err_message(get_id_and_content_of_dns(body, "example.com"));
    assert_eq!(message, "No Element in Array");
}

#[test]
fn empty_array_is_not_found() {
    let body = r#"{"result":[]}"#;
    let message = err_message(get_id_and_content_of_dns(body, "example.com"));
    assert_eq!(message, "No Element in Array");
}

#[test]
fn result_not_an_array_is_a_parse_error() {
    let body = r#"{"result":"nope"}"#;
    let message = err_message(get_id_and_content_of_dns(body, "example.com"));
    assert_eq!(message, "Could not parse array");
}

#[test]
fn missing_result_field_is_a_parse_error() {
    let body = r#"{"outcome":[]}"#;
    let message = err_message(get_id_and_content_of_dns(body, "example.com"));
    assert_eq!(message, "Could not parse array");
}

#[test]
fn invalid_json_is_an_error() {
    let message = err_message(get_id_and_content_of_dns("not json at all", "example.com"));
    assert!(!message.is_empty());
}

#[test]
fn matching_record_without_id_is_an_error() {
    let body = r#"{"result":[{"name":"example.com","content":"1.2.3.4"}]}"#;
    let message = err_message(get_id_and_content_of_dns(body, "example.com"));
    assert_eq!(message, "Could not parse id");
}

#[test]
fn matching_record_without_content_is_an_error() {
    let body = r#"{"result":[{"id":"abc","name":"example.com"}]}"#;
    let message = err_message(get_id_and_content_of_dns(body, "example.com"));
    assert_eq!(message, "Could not parse content");
}

#[test]
fn non_string_name_does_not_match() {
    let body = r#"{"result":[{"id":"x","name":7,"content":"9.9.9.9"},{"id":"abc","name":"example.com","content":"1.2.3.4"}]}"#;
    let entry = ok_entry(get_id_and_content_of_dns(body, "example.com"));
    assert_eq!(entry.id, "abc");
}

#[test]
fn error_new_keeps_the_message() {
    let e = Error::new("something went wrong");
    assert_eq!(e.message, "something went wrong");
}
