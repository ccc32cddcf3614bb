use vstd::prelude::*;

verus! {

/// The URL that lists the zone's DNS records.
pub open spec fn lookup_url_text(zone_id: Seq<char>) -> Seq<char> {
    "https://api.cloudflare.com/client/v4/zones/"@ + zone_id + "/dns_records"@
}

/// The URL that addresses one DNS record of the zone.
pub open spec fn update_url_text(zone_id: Seq<char>, dns_id: Seq<char>) -> Seq<char> {
    "https://api.cloudflare.com/client/v4/zones/"@ + zone_id + "/dns_records/"@ + dns_id
}

/// The authorization header value for the given credential.
pub open spec fn auth_header_text(token: Seq<char>) -> Seq<char> {
    "Bearer "@ + token
}

/// The JSON body of an update request: the new address under `content`, the
/// domain under `name`, and the fixed record type `A`.
pub open spec fn update_body_text(ip: Seq<char>, domain: Seq<char>) -> Seq<char> {
    "{\"content\": \""@ + ip + "\", \"name\": \""@ + domain + "\", \"type\": \"A\"}"@
}

/// Builds the lookup URL for a zone.
pub fn lookup_url(zone_id: &str) -> (r: String)
    ensures
        r@ == lookup_url_text(zone_id@),
{
    let mut s = String::from_str("https://api.cloudflare.com/client/v4/zones/");
    s.append(zone_id);
    s.append("/dns_records");
    s
}

/// Builds the update URL for one record of a zone.
pub fn update_url(zone_id: &str, dns_id: &str) -> (r: String)
    ensures
        r@ == update_url_text(zone_id@, dns_id@),
{
    let mut s = String::from_str("https://api.cloudflare.com/client/v4/zones/");
    s.append(zone_id);
    s.append("/dns_records/");
    s.append(dns_id);
    s
}

/// Builds the authorization header value for the credential.
pub fn auth_header(token: &str) -> (r: String)
    ensures
        r@ == auth_header_text(token@),
{
    let mut s = String::from_str("Bearer ");
    s.append(token);
    s
}

/// Builds the JSON body of an update request.
pub fn update_body(ip: &str, domain: &str) -> (r: String)
    ensures
        r@ == update_body_text(ip@, domain@),
{
    let mut s = String::from_str("{\"content\": \"");
    s.append(ip);
    s.append("\", \"name\": \"");
    s.append(domain);
    s.append("\", \"type\": \"A\"}");
    s
}

} // verus!
