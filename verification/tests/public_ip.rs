use cloudflare_ddns::errors::Error;
use cloudflare_ddns::public_ip::{extract_ipv4, get_public_ip_address};

fn ok_ip(r: Result<String, Error>) -> String {
    match r {
        Ok(ip) => ip,
        Err(e) => panic!("expected an address, got error: {}", e.message),
    }
}

fn err_message(r: Result<String, Error>) -> String {
    match r {
        Ok(ip) => panic!("expected an error, got address {}", ip),
        Err(e) => e.message,
    }
}

#[test]
fn finds_address_in_soap_body() {
    let body = "<s:Envelope><s:Body><u:GetExternalIPAddressResponse><NewExternalIPAddress>84.160.10.2</NewExternalIPAddress></u:GetExternalIPAddressResponse></s:Body></s:Envelope>";
    assert_eq!(ok_ip(get_public_ip_address(200, body)), "84.160.10.2");
}

#[test]
fn returns_the_first_of_several_addresses() {
    let body = "first 10.0.0.1 then 192.168.0.2";
    assert_eq!(ok_ip(get_public_ip_address(200, body)), "10.0.0.1");
}

#[test]
fn extraction_skips_overlong_first_group() {
    // A group of four digits cannot open a match; the scan moves on and the
    // match starts inside the run.
    assert_eq!(extract_ipv4("1234.5.6.7").unwrap(), "234.5.6.7");
}

#[test]
fn extraction_caps_the_last_group_at_three_digits() {
    assert_eq!(extract_ipv4("1.2.3.45678").unwrap(), "1.2.3.456");
}

#[test]
fn extraction_needs_four_groups() {
    assert!(extract_ipv4("only 1.2.3 here").is_none());
    assert!(extract_ipv4("dots . . . everywhere").is_none());
    assert!(extract_ipv4("").is_none());
}

#[test]
fn body_without_address_is_an_error() {
    let message = err_message(get_public_ip_address(200, "<empty/>"));
    assert_eq!(message, "No address in response");
}

#[test]
fn bad_status_is_an_error_carrying_the_status() {
    let message = err_message(get_public_ip_address(404, "ignored 1.2.3.4"));
    assert_eq!(message, "Status: 404");
    let message = err_message(get_public_ip_address(500, ""));
    assert_eq!(message, "Status: 500");
}
