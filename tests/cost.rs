use zeroclaw::cost::{CostObserver, ModelPricing, ObserverEvent, UsageRecord};

fn response(
    provider: &str,
    model: &str,
    success: bool,
    input_tokens: Option<u64>,
    output_tokens: Option<u64>,
) -> ObserverEvent {
    ObserverEvent::LlmResponse {
        provider: provider.to_string(),
        model: model.to_string(),
        duration_ms: 100,
        success,
        error_message: if success { None } else { Some("API error".to_string()) },
        input_tokens,
        output_tokens,
    }
}

/// Cost in millionths of a dollar.
fn cost_micros(u: &UsageRecord) -> u128 {
    (u.input_tokens as u128 * u.input_price_per_million as u128
        + u.output_tokens as u128 * u.output_price_per_million as u128)
        / 1_000_000
}

fn pricing(input: u64, output: u64) -> ModelPricing {
    ModelPricing { input, output }
}

#[test]
fn cost_observer_records_llm_response_usage() {
    let prices = vec![(
        "mistral/mistral-large-2-20250514".to_string(),
        pricing(3_000_000, 15_000_000),
    )];
    let observer = CostObserver::new(prices);
    let usage = observer.record_event(&response(
        "mistral",
        "mistral-large-2-20250514",
        true,
        Some(1000),
        Some(500),
    ));
    let usage = usage.expect("one usage record");
    assert_eq!(usage.model, "mistral/mistral-large-2-20250514");
    assert_eq!(cost_micros(&usage), 10_500);
}

#[test]
fn cost_observer_ignores_failed_responses() {
    let observer = CostObserver::new(Vec::new());
    let usage = observer.record_event(&response(
        "mistral",
        "mistral-large-2",
        false,
        Some(1000),
        Some(500),
    ));
    assert!(usage.is_none());
}

#[test]
fn cost_observer_ignores_zero_token_responses() {
    let observer = CostObserver::new(Vec::new());
    let usage = observer.record_event(&response("mistral", "mistral-large-2", true, None, None));
    assert!(usage.is_none());
}

#[test]
fn cost_observer_uses_default_pricing_for_unknown_models() {
    let observer = CostObserver::new(Vec::new());
    let usage = observer
        .record_event(&response(
            "unknown",
            "mystery-model",
            true,
            Some(1_000_000),
            Some(1_000_000),
        ))
        .expect("one usage record");
    assert_eq!(cost_micros(&usage), 18_000_000);
}

#[test]
fn cost_observer_matches_model_family() {
    let prices = vec![("openai/gpt-4o".to_string(), pricing(5_000_000, 15_000_000))];
    let observer = CostObserver::new(prices);
    let usage = observer
        .record_event(&response("openai", "gpt-4o-2024-05-13", true, Some(1_000_000), Some(0)))
        .expect("one usage record");
    assert_eq!(cost_micros(&usage), 5_000_000);
}

#[test]
fn family_match_scenario() {
    let observer =
        CostObserver::new(vec![("openai/gpt-4o".to_string(), pricing(5_000_000, 15_000_000))]);
    assert_eq!(observer.get_pricing("openai", "gpt-4o-2024-05-13"), (5_000_000, 15_000_000));
}

#[test]
fn exact_key_beats_family() {
    let observer = CostObserver::new(vec![
        ("openai/gpt-4o".to_string(), pricing(5_000_000, 15_000_000)),
        ("openai/gpt-4o-mini".to_string(), pricing(150_000, 600_000)),
    ]);
    assert_eq!(observer.get_pricing("openai", "gpt-4o-mini"), (150_000, 600_000));
    assert_eq!(observer.get_pricing("openai", "gpt-4o"), (5_000_000, 15_000_000));
}

#[test]
fn bare_model_key_is_second() {
    let observer = CostObserver::new(vec![
        ("gpt-4".to_string(), pricing(1, 2)),
        ("gpt-4o".to_string(), pricing(3, 4)),
    ]);
    assert_eq!(observer.get_pricing("openai", "gpt-4o"), (3, 4));
    assert_eq!(observer.get_pricing("azure", "gpt-4"), (1, 2));
}

#[test]
fn hyphens_match_dots() {
    let observer = CostObserver::new(vec![(
        "mistral/mistral-3.5-large".to_string(),
        pricing(3_000_000, 15_000_000),
    )]);
    assert_eq!(
        observer.get_pricing("mistral", "mistral-3-5-large-20241022"),
        (3_000_000, 15_000_000)
    );
}

#[test]
fn model_part_follows_last_slash() {
    let observer =
        CostObserver::new(vec![("router/openai/o1".to_string(), pricing(15_000_000, 60_000_000))]);
    assert_eq!(observer.get_pricing("other", "o1-preview"), (15_000_000, 60_000_000));
}

#[test]
fn unmatched_model_gets_defaults() {
    let observer =
        CostObserver::new(vec![("mistral/mistral-3".to_string(), pricing(1, 2))]);
    assert_eq!(observer.get_pricing("unknown", "mystery"), (3_000_000, 15_000_000));
    let empty = CostObserver::new(Vec::new());
    assert_eq!(empty.get_pricing("a", "b"), (3_000_000, 15_000_000));
}

#[test]
fn usage_record_fields() {
    let observer = CostObserver::new(Vec::new());
    let usage = observer
        .record_event(&response("p", "m", true, None, Some(7)))
        .expect("one usage record");
    assert_eq!(usage.model, "p/m");
    assert_eq!(usage.input_tokens, 0);
    assert_eq!(usage.output_tokens, 7);
    assert_eq!(usage.input_price_per_million, 3_000_000);
    assert_eq!(usage.output_price_per_million, 15_000_000);
}

#[test]
fn explicit_zero_tokens_and_requests_are_ignored() {
    let observer = CostObserver::new(Vec::new());
    assert!(observer.record_event(&response("p", "m", true, Some(0), Some(0))).is_none());
    let request = ObserverEvent::LlmRequest {
        provider: "p".to_string(),
        model: "m".to_string(),
        messages_count: 3,
    };
    assert!(observer.record_event(&request).is_none());
}
