use cloudflare_ddns::cycle::{finish_cycle, start_cycle, update_and_get_cache, CycleEvent, CycleStep};
use cloudflare_ddns::errors::Error;
use cloudflare_ddns::record::CloudflareDnsEntry;

fn entry(id: &str, ip: &str) -> CloudflareDnsEntry {
    CloudflareDnsEntry { id: String::from(id), ip_address: String::from(ip) }
}

#[test]
fn cycle_with_empty_cache_and_unchanged_address() {
    // Cache absent; the lookup answers {id:"abc", content:"1.2.3.4"} and
    // discovery answers the same address: no update is asked for, and the
    // looked-up record becomes the cache.
    let mut update_calls = 0;
    let step = start_cycle(None);
    assert!(matches!(step, CycleStep::Lookup));
    let step = update_and_get_cache(step, CycleEvent::LookupDone(Ok(entry("abc", "1.2.3.4"))));
    assert!(matches!(step, CycleStep::Discover(_)));
    let step = update_and_get_cache(step, CycleEvent::DiscoverDone(Ok(String::from("1.2.3.4"))));
    if matches!(step, CycleStep::Update(_, _)) {
        update_calls += 1;
    }
    let (cache, logged) = finish_cycle(step);
    assert_eq!(update_calls, 0);
    assert!(logged.is_none());
    let cached = cache.expect("cache should be present");
    assert_eq!(cached.id, "abc");
    assert_eq!(cached.ip_address, "1.2.3.4");
}

#[test]
fn cycle_with_cached_record_and_new_address() {
    // Cache {id:"abc", ip:"1.2.3.4"}; discovery answers "5.6.7.8": an update
    // is asked for with the record's id and the new address, and on success
    // the cache holds the same id with the new address.
    let step = start_cycle(Some(entry("abc", "1.2.3.4")));
    assert!(matches!(step, CycleStep::Discover(_)));
    let step = update_and_get_cache(step, CycleEvent::DiscoverDone(Ok(String::from("5.6.7.8"))));
    match &step {
        CycleStep::Update(record, new_ip) => {
            assert_eq!(record.id, "abc");
            assert_eq!(new_ip, "5.6.7.8");
        },
        _ => panic!("expected the cycle to ask for an update"),
    }
    let step = update_and_get_cache(step, CycleEvent::UpdateDone(Ok(())));
    let (cache, logged) = finish_cycle(step);
    assert!(logged.is_none());
    let cached = cache.expect("cache should be present");
    assert_eq!(cached.id, "abc");
    assert_eq!(cached.ip_address, "5.6.7.8");
}

#[test]
fn discovery_failure_clears_any_cache() {
    // Discovery fails: the cache is reset to absent whatever it held, no
    // update is asked for, and the next cycle starts with a lookup.
    let step = start_cycle(Some(entry("abc", "1.2.3.4")));
    let step = update_and_get_cache(
        step,
        CycleEvent::DiscoverDone(Err(Error::new("Error fetching result via Http"))),
    );
    assert!(matches!(step, CycleStep::Done(Err(_))));
    let (cache, logged) = finish_cycle(step);
    assert!(cache.is_none());
    assert_eq!(logged.expect("a failure must be reported").message, "Error fetching result via Http");
    assert!(matches!(start_cycle(cache), CycleStep::Lookup));
}

#[test]
fn lookup_failure_ends_the_cycle_without_update() {
    let step = start_cycle(None);
    let step = update_and_get_cache(step, CycleEvent::LookupDone(Err(Error::new("No Element in Array"))));
    assert!(matches!(step, CycleStep::Done(Err(_))));
    let (cache, logged) = finish_cycle(step);
    assert!(cache.is_none());
    assert_eq!(logged.expect("a failure must be reported").message, "No Element in Array");
}

#[test]
fn update_failure_clears_the_cache() {
    let step = start_cycle(Some(entry("abc", "1.2.3.4")));
    let step = update_and_get_cache(step, CycleEvent::DiscoverDone(Ok(String::from("5.6.7.8"))));
    let step = update_and_get_cache(step, CycleEvent::UpdateDone(Err(Error::new("connection reset"))));
    let (cache, logged) = finish_cycle(step);
    assert!(cache.is_none());
    assert_eq!(logged.expect("a failure must be reported").message, "connection reset");
    assert!(matches!(start_cycle(cache), CycleStep::Lookup));
}

#[test]
fn full_cycle_from_a_lookup_body() {
    // The whole library in one cycle: the lookup answer is read out of a
    // JSON body, the cycle compares it against the discovered address, and
    // the looked-up record ends up cached unchanged.
    let body = r#"{"result":[{"id":"abc","name":"example.com","content":"1.2.3.4"}]}"#;
    let looked_up = cloudflare_ddns::lookup::get_id_and_content_of_dns(body, "example.com");
    let step = start_cycle(None);
    let step = update_and_get_cache(step, CycleEvent::LookupDone(looked_up));
    let step = update_and_get_cache(step, CycleEvent::DiscoverDone(Ok(String::from("1.2.3.4"))));
    let (cache, logged) = finish_cycle(step);
    assert!(logged.is_none());
    let cached = cache.expect("cache should be present");
    assert_eq!(cached.id, "abc");
    assert_eq!(cached.ip_address, "1.2.3.4");
}

#[test]
fn mismatched_answer_leaves_the_step_alone() {
    let step = start_cycle(None);
    let step = update_and_get_cache(step, CycleEvent::UpdateDone(Ok(())));
    assert!(matches!(step, CycleStep::Lookup));
}
