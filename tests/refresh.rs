use country_gdp::models::{CountryApiResponse, Currency};
use country_gdp::rates::ExchangeRateApiResponse;
use country_gdp::refresh::{CountryService, RefreshAction, RefreshPhase, RefreshSession, StoreEvent};
use country_gdp::error::ApiError;

fn directory() -> Vec<CountryApiResponse> {
    ["Wakanda", "Genovia", "Latveria"]
        .iter()
        .map(|n| CountryApiResponse {
            name: n.to_string(),
            capital: None,
            region: Some("Fiction".to_string()),
            population: 1_000,
            flag: None,
            currencies: Some(vec![Currency { code: Some("WKD".to_string()) }]),
        })
        .collect()
}

fn rates() -> ExchangeRateApiResponse {
    let mut r = ExchangeRateApiResponse::new();
    r.insert("WKD".to_string(), 1_000_000);
    r
}

#[test]
fn successful_session_upserts_each_record_then_counts_them() {
    let mut s = RefreshSession::start(&directory(), &rates());
    assert_eq!(s.len(), 3);
    let mut actions = Vec::new();
    loop {
        let a = s.next_action();
        actions.push(a);
        let ev = match a {
            RefreshAction::FindExisting(1) => StoreEvent::Found,
            RefreshAction::FindExisting(_) => StoreEvent::NotFound,
            RefreshAction::Finished(_) => break,
            _ => StoreEvent::Done,
        };
        s.on_event(ev);
    }
    assert_eq!(
        actions,
        vec![
            RefreshAction::FindExisting(0),
            RefreshAction::Insert(0),
            RefreshAction::FindExisting(1),
            RefreshAction::Update(1),
            RefreshAction::FindExisting(2),
            RefreshAction::Insert(2),
            RefreshAction::WriteMetadata(3),
            RefreshAction::Commit,
            RefreshAction::ReadMetadata,
            RefreshAction::RenderChart,
            RefreshAction::Finished(true),
        ]
    );
    assert_eq!(s.record(1).name, "Genovia");
}

#[test]
fn empty_directory_writes_zero_total() {
    let s = RefreshSession::start(&Vec::new(), &rates());
    assert_eq!(s.next_action(), RefreshAction::WriteMetadata(0));
}

#[test]
fn failure_inside_transaction_rolls_back() {
    let mut s = RefreshSession::start(&directory(), &rates());
    s.on_event(StoreEvent::NotFound);
    assert_eq!(s.next_action(), RefreshAction::Insert(0));
    s.on_event(StoreEvent::Failed);
    assert_eq!(s.next_action(), RefreshAction::Rollback);
    s.on_event(StoreEvent::Done);
    assert_eq!(s.next_action(), RefreshAction::Finished(false));
    s.on_event(StoreEvent::Done);
    assert_eq!(s.phase(), RefreshPhase::Failed);
}

#[test]
fn failed_commit_rolls_back() {
    let mut s = RefreshSession::start(&Vec::new(), &rates());
    s.on_event(StoreEvent::Done);
    assert_eq!(s.next_action(), RefreshAction::Commit);
    s.on_event(StoreEvent::Failed);
    assert_eq!(s.next_action(), RefreshAction::Rollback);
}

#[test]
fn chart_failure_does_not_fail_refresh() {
    let mut s = RefreshSession::start(&Vec::new(), &rates());
    for _ in 0..3 {
        s.on_event(StoreEvent::Done);
    }
    assert_eq!(s.next_action(), RefreshAction::RenderChart);
    s.on_event(StoreEvent::Failed);
    assert_eq!(s.next_action(), RefreshAction::Finished(true));
}

#[test]
fn failed_fetch_opens_no_session() {
    let service = CountryService::new(30);
    assert_eq!(service.timeout_secs, 30);
    let r = service.refresh_countries(Err(ApiError::ExternalApiError("open.er-api.com".to_string())));
    match r {
        Err(ApiError::ExternalApiError(name)) => assert_eq!(name, "open.er-api.com"),
        _ => panic!("expected the fetch error"),
    }
    let ok = service.refresh_countries(Ok((directory(), rates()))).ok().unwrap();
    assert_eq!(ok.next_action(), RefreshAction::FindExisting(0));
}
