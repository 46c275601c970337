use cdu::cdu::{collect_outcomes, plan_updates, Cdu, ResolvedName, UpdateOutcome};
use cdu::cache::MAX_TTL_SECS;
use cdu::error::CduError;
use cdu::opts::Opts;
use std::time::Duration;

fn opts(zone: &str, records: &str, cache_seconds: u64) -> Opts {
    Opts {
        token: "token".to_string(),
        zone: zone.to_string(),
        records: records.to_string(),
        debug: false,
        daemon: false,
        cron: "0 */5 * * * * *".to_string(),
        cache_seconds,
    }
}

fn ids(v: &[&str]) -> Vec<String> {
    v.iter().map(|s| s.to_string()).collect()
}

fn resolved(name: &str, id: &str) -> Result<ResolvedName, CduError> {
    Ok(ResolvedName { logical_name: name.to_string(), provider_id: id.to_string() })
}

#[test]
fn record_names_split_on_commas() {
    let o = opts("x.com", "a.x.com,b.x.com", 0);
    assert_eq!(o.record_name_list(), vec!["a.x.com".to_string(), "b.x.com".to_string()]);
}

#[test]
fn record_names_keep_empty_pieces_and_repeats() {
    assert_eq!(opts("x.com", "", 0).record_name_list(), vec!["".to_string()]);
    assert_eq!(
        opts("x.com", "a,,a", 0).record_name_list(),
        vec!["a".to_string(), "".to_string(), "a".to_string()]
    );
    assert_eq!(opts("x.com", "é.x,ü", 0).record_name_list(), vec!["é.x".to_string(), "ü".to_string()]);
    assert_eq!(opts("x.com", ",", 0).record_name_list(), vec!["".to_string(), "".to_string()]);
}

#[test]
fn getters_report_the_configuration() {
    let mut o = opts("x.com", "a.x.com", 300);
    o.debug = true;
    o.daemon = true;
    let c = Cdu::new(o);
    assert!(c.is_debug());
    assert!(c.is_daemon());
    assert_eq!(c.cron(), "0 */5 * * * * *");
    assert_eq!(c.cache_ttl(), Some(Duration::from_secs(300)));
    assert_eq!(Cdu::new(opts("x.com", "a.x.com", 0)).cache_ttl(), None);
}

#[test]
fn first_run_fetches_then_second_run_is_served_from_cache() {
    let mut c = Cdu::new(opts("example.com", "a.example.com,b.example.com", 300));
    let address = [203, 0, 113, 7];

    // First run: everything is fetched from the provider.
    assert_eq!(c.cached_zone(), None);
    let zone = c.accept_zone_listing(Ok(ids(&["Z1"])));
    assert_eq!(zone, resolved("example.com", "Z1"));
    let (zone, lookups) = c.plan_record_lookups(zone).unwrap();
    assert_eq!(zone, resolved("example.com", "Z1").unwrap());
    assert_eq!(lookups.len(), 2);
    assert!(lookups.iter().all(|l| l.cached_id.is_none() && l.zone_id == "Z1"));
    let listed = vec![ids(&["R1"]), ids(&["R2"])];
    let mut records = vec![];
    for (l, ls) in lookups.into_iter().zip(listed) {
        records.push(c.accept_record_listing(l.name, Ok(ls)));
    }
    let calls = plan_updates(&zone, records, address).unwrap();
    assert_eq!(calls.len(), 2);
    assert_eq!(calls[0].record_id, "R1");
    assert_eq!(calls[0].name, "a.example.com");
    assert_eq!(calls[1].record_id, "R2");
    assert_eq!(calls[1].name, "b.example.com");
    assert!(calls.iter().all(|u| u.address == address && u.zone_id == "Z1"));
    let outcomes: Vec<Result<UpdateOutcome, CduError>> = calls
        .iter()
        .map(|u| {
            Ok(UpdateOutcome {
                record_name: u.name.clone(),
                provider_id: u.record_id.clone(),
                resulting_address: "203.0.113.7".to_string(),
            })
        })
        .collect();
    let done = collect_outcomes(outcomes).unwrap();
    assert_eq!(
        done,
        vec![
            UpdateOutcome {
                record_name: "a.example.com".to_string(),
                provider_id: "R1".to_string(),
                resulting_address: "203.0.113.7".to_string(),
            },
            UpdateOutcome {
                record_name: "b.example.com".to_string(),
                provider_id: "R2".to_string(),
                resulting_address: "203.0.113.7".to_string(),
            },
        ]
    );

    // Second run: no listing is needed, the updates are still issued.
    assert_eq!(c.cached_zone(), Some(resolved("example.com", "Z1").unwrap()));
    let zone = c.cached_zone().unwrap();
    let (zone, lookups) = c.plan_record_lookups(Ok(zone)).unwrap();
    assert_eq!(lookups[0].cached_id, Some("R1".to_string()));
    assert_eq!(lookups[1].cached_id, Some("R2".to_string()));
    let records: Vec<_> = lookups.iter().map(|l| Ok(l.from_cache().unwrap())).collect();
    assert_eq!(records, vec![resolved("a.example.com", "R1"), resolved("b.example.com", "R2")]);
    let again = plan_updates(&zone, records, address).unwrap();
    assert_eq!(again, calls);
}

#[test]
fn missing_zone_is_zone_not_found() {
    let mut c = Cdu::new(opts("example.com", "a.example.com", 300));
    let zone = c.accept_zone_listing(Ok(vec![]));
    assert_eq!(zone, Err(CduError::ZoneNotFound("example.com".to_string())));
    assert_eq!(c.cached_zone(), None);
    assert_eq!(c.plan_record_lookups(zone), Err(CduError::ZoneNotFound("example.com".to_string())));
}

#[test]
fn first_listed_identifier_wins() {
    let mut c = Cdu::new(opts("example.com", "a.example.com", 60));
    assert_eq!(c.accept_zone_listing(Ok(ids(&["Z1", "Z2"]))), resolved("example.com", "Z1"));
    assert_eq!(
        c.accept_record_listing("a.example.com".to_string(), Ok(ids(&["R9", "R1"]))),
        resolved("a.example.com", "R9")
    );
}

#[test]
fn longest_ttl_still_caches() {
    let mut c = Cdu::new(opts("example.com", "a.example.com", MAX_TTL_SECS));
    assert_eq!(c.cache_ttl(), Some(Duration::from_secs(MAX_TTL_SECS)));
    c.accept_zone_listing(Ok(ids(&["Z1"]))).unwrap();
    assert_eq!(c.cached_zone(), Some(resolved("example.com", "Z1").unwrap()));
}

#[test]
fn missing_record_is_record_not_found() {
    let mut c = Cdu::new(opts("example.com", "a.example.com", 300));
    let r = c.accept_record_listing("a.example.com".to_string(), Ok(vec![]));
    assert_eq!(r, Err(CduError::RecordNotFound("a.example.com".to_string())));
}

#[test]
fn provider_failure_is_passed_on_and_not_cached() {
    let mut c = Cdu::new(opts("example.com", "a.example.com", 300));
    let e = CduError::ProviderCallFailed("timeout".to_string());
    assert_eq!(c.accept_zone_listing(Err(e.clone())), Err(e.clone()));
    assert_eq!(c.cached_zone(), None);
    assert_eq!(c.accept_record_listing("a.example.com".to_string(), Err(e.clone())), Err(e));
}

#[test]
fn ttl_zero_never_serves_from_cache() {
    let mut c = Cdu::new(opts("example.com", "a.example.com", 0));
    assert_eq!(c.accept_zone_listing(Ok(ids(&["Z1"]))), resolved("example.com", "Z1"));
    assert_eq!(c.cached_zone(), None);
    let r = c.accept_record_listing("a.example.com".to_string(), Ok(ids(&["R1"])));
    let (_, lookups) = c.plan_record_lookups(resolved("example.com", "Z1")).unwrap();
    assert_eq!(r, resolved("a.example.com", "R1"));
    assert_eq!(lookups[0].cached_id, None);
    assert_eq!(lookups[0].from_cache(), None);
}

#[test]
fn cached_id_survives_other_resolutions() {
    let mut c = Cdu::new(opts("example.com", "a.example.com,b.example.com,c.example.com", 300));
    c.accept_zone_listing(Ok(ids(&["Z1"]))).unwrap();
    c.accept_record_listing("a.example.com".to_string(), Ok(ids(&["R1"]))).unwrap();
    c.accept_record_listing("b.example.com".to_string(), Ok(ids(&["R2"]))).unwrap();
    c.accept_record_listing("c.example.com".to_string(), Ok(ids(&["R3"]))).unwrap();
    c.accept_record_listing("b.example.com".to_string(), Ok(ids(&["R4"]))).unwrap();
    assert_eq!(c.cached_zone(), Some(resolved("example.com", "Z1").unwrap()));
    let (_, lookups) = c.plan_record_lookups(resolved("example.com", "Z1")).unwrap();
    let cached: Vec<_> = lookups.into_iter().map(|l| l.cached_id.unwrap()).collect();
    assert_eq!(cached, ids(&["R1", "R4", "R3"]));
}

#[test]
fn one_failed_resolution_blocks_every_update() {
    let records = vec![
        resolved("a.example.com", "R1"),
        Err(CduError::RecordNotFound("b.example.com".to_string())),
        Err(CduError::ProviderCallFailed("503".to_string())),
    ];
    let zone = resolved("example.com", "Z1").unwrap();
    let r = plan_updates(&zone, records, [1, 2, 3, 4]);
    assert_eq!(r, Err(CduError::RecordNotFound("b.example.com".to_string())));
}

#[test]
fn no_records_plan_no_calls() {
    let zone = resolved("example.com", "Z1").unwrap();
    assert_eq!(plan_updates(&zone, vec![], [1, 2, 3, 4]), Ok(vec![]));
}

#[test]
fn a_failed_update_fails_the_run() {
    let outcomes = vec![
        Ok(UpdateOutcome {
            record_name: "a".to_string(),
            provider_id: "R1".to_string(),
            resulting_address: "1.2.3.4".to_string(),
        }),
        Err(CduError::ProviderCallFailed("429".to_string())),
    ];
    assert_eq!(collect_outcomes(outcomes), Err(CduError::ProviderCallFailed("429".to_string())));
}

#[test]
fn error_classification() {
    assert!(CduError::PublicAddressUnavailable.is_transient());
    assert!(CduError::ProviderCallFailed("x".to_string()).is_transient());
    assert!(!CduError::ZoneNotFound("x".to_string()).is_transient());
    assert!(!CduError::RecordNotFound("x".to_string()).is_transient());
    assert!(!CduError::ScheduleParseError("x".to_string()).is_transient());
}
