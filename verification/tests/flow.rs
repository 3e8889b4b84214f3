use currency_converter::error::AppError;
use currency_converter::error::ErrorKind;
use currency_converter::exchange_repo::convert_amount;
use currency_converter::exchange_repo::rate_request_path;
use currency_converter::exchange_repo::RateEvent;
use currency_converter::handlers::flow_start;
use currency_converter::handlers::flow_step;
use currency_converter::handlers::is_sanctioned;
use currency_converter::handlers::FlowAction;
use currency_converter::handlers::FlowEvent;
use currency_converter::handlers::FlowState;
use currency_converter::handlers::SANCTIONS_DELAY_SECS;
use currency_converter::models::ConvertCurrency;
use currency_converter::models::ExchangeResult;

fn request(from: &str, to: &str, amount: &str) -> ConvertCurrency {
    ConvertCurrency { from: from.to_string(), to: to.to_string(), amount: amount.to_string() }
}

fn resolved(code: &str) -> FlowEvent {
    FlowEvent::Resolved { outcome: Ok(code.to_string()) }
}

fn quote(result: &str) -> ExchangeResult {
    ExchangeResult {
        base_code: String::new(),
        target_code: String::new(),
        conversion_rate: String::new(),
        conversion_result: result.to_string(),
    }
}

#[test]
fn happy_path_echoes_original_names() {
    let req = request("France", "Germany", "100");
    let (s0, a0) = flow_start(&req);
    assert_eq!(a0, FlowAction::Resolve { name: "France".to_string() });
    let (s1, a1) = flow_step(s0, &req, resolved("EUR"));
    assert_eq!(a1, FlowAction::Resolve { name: "Germany".to_string() });
    let (s2, a2) = flow_step(s1, &req, resolved("EUR"));
    assert_eq!(
        a2,
        FlowAction::FetchRate {
            from_code: "EUR".to_string(),
            to_code: "EUR".to_string(),
            amount: "100".to_string(),
        }
    );
    let (s3, a3) = flow_step(s2, &req, FlowEvent::RateFetched { outcome: Ok("100".to_string()) });
    assert_eq!(s3, FlowState::Complete);
    match a3 {
        FlowAction::Respond { result } => {
            assert_eq!(result.from, "France");
            assert_eq!(result.to, "Germany");
            assert_eq!(result.amount, "100");
        },
        other => panic!("expected a response, got {:?}", other),
    }
}

#[test]
fn sanctioned_destination_waits_before_rate_call() {
    let req = request("USA", "Russia", "10");
    let (s0, _) = flow_start(&req);
    let (s1, _) = flow_step(s0, &req, resolved("USD"));
    let (s2, a2) = flow_step(s1, &req, resolved("RUB"));
    assert_eq!(a2, FlowAction::Wait { seconds: 30 });
    assert_eq!(
        s2,
        FlowState::Waiting { from_code: "USD".to_string(), to_code: "RUB".to_string() }
    );
    // the rate request is issued only once the wait has elapsed
    let (_, a3) = flow_step(s2, &req, FlowEvent::Waited);
    assert_eq!(
        a3,
        FlowAction::FetchRate {
            from_code: "USD".to_string(),
            to_code: "RUB".to_string(),
            amount: "10".to_string(),
        }
    );
}

#[test]
fn sanctioned_source_does_not_wait() {
    let req = request("Russia", "USA", "10");
    let (s0, a0) = flow_start(&req);
    assert_eq!(a0, FlowAction::Resolve { name: "Russia".to_string() });
    let (s1, a1) = flow_step(s0, &req, resolved("RUB"));
    assert_eq!(a1, FlowAction::Resolve { name: "USA".to_string() });
    let (_, a2) = flow_step(s1, &req, resolved("USD"));
    assert_eq!(
        a2,
        FlowAction::FetchRate {
            from_code: "RUB".to_string(),
            to_code: "USD".to_string(),
            amount: "10".to_string(),
        }
    );
}

#[test]
fn failed_resolution_aborts_with_the_same_error() {
    let req = request("Nowhere", "Germany", "5");
    let err = AppError {
        kind: ErrorKind::ResolutionAmbiguity,
        details: "could not fetch country Nowhere".to_string(),
    };
    let (s0, _) = flow_start(&req);
    let (s1, a1) = flow_step(s0, &req, FlowEvent::Resolved { outcome: Err(err.clone()) });
    assert_eq!(s1, FlowState::Complete);
    assert_eq!(a1, FlowAction::Fail { error: err });
}

#[test]
fn rate_failure_passes_through_unchanged() {
    let req = request("France", "Germany", "5");
    let (s0, _) = flow_start(&req);
    let (s1, _) = flow_step(s0, &req, resolved("EUR"));
    let (s2, _) = flow_step(s1, &req, resolved("EUR"));
    let err = convert_amount(RateEvent::BadStatus { status: 502 }).unwrap_err();
    let (s3, a3) = flow_step(s2, &req, FlowEvent::RateFetched { outcome: Err(err.clone()) });
    assert_eq!(s3, FlowState::Complete);
    assert_eq!(a3, FlowAction::Fail { error: err });
}

#[test]
fn sanctions_policy_matches_only_rub() {
    assert!(is_sanctioned("RUB"));
    assert!(!is_sanctioned("rub"));
    assert!(!is_sanctioned("USD"));
    assert!(!is_sanctioned(""));
    assert_eq!(SANCTIONS_DELAY_SECS, 30);
}

#[test]
fn quote_result_is_returned_verbatim() {
    let out = convert_amount(RateEvent::Quote { quote: quote("123.45") });
    assert_eq!(out, Ok("123.45".to_string()));
}

#[test]
fn rate_bad_status_embeds_the_status_code() {
    let err = convert_amount(RateEvent::BadStatus { status: 502 }).unwrap_err();
    assert_eq!(err.kind, ErrorKind::UpstreamStatus);
    assert_eq!(err.details, "Exchangerate-api returned 502 http code");
    assert!(err.details.contains("502"));
}

#[test]
fn rate_failures_are_normalized() {
    let transport = convert_amount(RateEvent::TransportError).unwrap_err();
    assert_eq!(transport.kind, ErrorKind::UpstreamTransport);
    assert_eq!(transport.details, "http response error");
    let body = convert_amount(RateEvent::BodyReadError).unwrap_err();
    assert_eq!(body.kind, ErrorKind::UpstreamFormat);
    assert_eq!(body.details, "reading buffer error");
    let decode = convert_amount(RateEvent::DecodeError).unwrap_err();
    assert_eq!(decode.kind, ErrorKind::UpstreamFormat);
    assert_eq!(decode.details, "json deserialization error");
}

#[test]
fn rate_path_is_keyed_by_pair_and_amount() {
    assert_eq!(rate_request_path("EUR", "USD", "12.5"), "pair/EUR/USD/12.5");
}
