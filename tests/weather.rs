use weather_html::extract::{extract_temperature, ExtractError};
use weather_html::handler::{format_response, plan_request, respond, Failure, FetchOutcome, Plan, QueryError};
use weather_html::page::{fetch_failure_page, forecast_url, format_failure_page, render};

const SUCCESS_BODY: &str = r#"{"current":{"temperature_2m":21.5}}"#;

fn received(body: &str) -> FetchOutcome {
    FetchOutcome::Received { status: 200, body: body.to_string() }
}

#[test]
fn success_fragment_for_chicago() {
    let reply = respond("41.8".to_string(), "-87.6".to_string(), received(SUCCESS_BODY));
    assert_eq!(
        reply.body,
        "<p>Current temperature at latitude 41.8, longitude -87.6: 21.5 degrees Celsius.</p>"
    );
    assert!(reply.failure.is_none());
}

#[test]
fn success_fragment_echoes_inputs_unaltered() {
    let body = r#"{"current":{"temperature_2m":-3.25},"elevation":180.0}"#;
    let reply = respond("+41.80".to_string(), "-087.6".to_string(), received(body));
    assert_eq!(
        reply.body,
        "<p>Current temperature at latitude +41.80, longitude -087.6: -3.25 degrees Celsius.</p>"
    );
}

#[test]
fn missing_current_gives_format_failure() {
    let reply = respond("41.8".to_string(), "-87.6".to_string(), received("{}"));
    assert_eq!(reply.body, "<p>Failed to format response</p>");
    match reply.failure {
        Some(Failure::Format(ExtractError::MissingField(f))) => assert_eq!(f, "current"),
        _ => panic!("expected a missing `current` member"),
    }
}

#[test]
fn wrong_temperature_type_gives_format_failure() {
    let body = r#"{"current":{"temperature_2m":"warm"}}"#;
    let reply = respond("41.8".to_string(), "-87.6".to_string(), received(body));
    assert_eq!(reply.body, "<p>Failed to format response</p>");
    match reply.failure {
        Some(Failure::Format(ExtractError::MissingField(f))) => assert_eq!(f, "temperature_2m"),
        _ => panic!("expected a bad `temperature_2m` member"),
    }
}

#[test]
fn missing_longitude_is_rejected_without_fetch() {
    match plan_request(Some("41.8".to_string()), None) {
        Plan::Reject(QueryError::MissingField(f)) => assert_eq!(f, "longitude"),
        Plan::Fetch { .. } => panic!("a request without longitude must not be fetched"),
    }
}

#[test]
fn missing_both_reports_latitude() {
    match plan_request(None, None) {
        Plan::Reject(e) => assert_eq!(e.message(), "missing field `latitude`"),
        Plan::Fetch { .. } => panic!("a request without coordinates must not be fetched"),
    }
}

#[test]
fn complete_query_plans_the_forecast_fetch() {
    match plan_request(Some("41.8".to_string()), Some("-87.6".to_string())) {
        Plan::Fetch { coords, url } => {
            assert_eq!(coords.latitude, "41.8");
            assert_eq!(coords.longitude, "-87.6");
            assert_eq!(
                url,
                "https://api.open-meteo.com/v1/forecast?latitude=41.8&longitude=-87.6&current=temperature_2m&timezone=America/Chicago&forecast_days=1"
            );
        }
        Plan::Reject(_) => panic!("a complete query must be fetched"),
    }
}

#[test]
fn unreachable_upstream_gives_fetch_failure() {
    let outcome = FetchOutcome::Unreachable("dns error: failed to lookup address".to_string());
    let reply = respond("41.8".to_string(), "-87.6".to_string(), outcome);
    assert_eq!(reply.body, "<p>Failed to fetch weather data</p>");
    assert!(matches!(reply.failure, Some(Failure::Transport(_))));
}

#[test]
fn error_status_gives_fetch_failure() {
    let outcome = FetchOutcome::Received { status: 500, body: SUCCESS_BODY.to_string() };
    let reply = respond("41.8".to_string(), "-87.6".to_string(), outcome);
    assert_eq!(reply.body, "<p>Failed to fetch weather data</p>");
    assert!(matches!(reply.failure, Some(Failure::Status(500))));
}

#[test]
fn same_request_twice_gives_identical_fragments() {
    let first = respond("41.8".to_string(), "-87.6".to_string(), received(SUCCESS_BODY));
    let second = respond("41.8".to_string(), "-87.6".to_string(), received(SUCCESS_BODY));
    assert_eq!(first.body, second.body);
}

#[test]
fn forecast_url_copies_coordinates_verbatim() {
    assert_eq!(
        forecast_url("1 2", "a&b"),
        "https://api.open-meteo.com/v1/forecast?latitude=1 2&longitude=a&b&current=temperature_2m&timezone=America/Chicago&forecast_days=1"
    );
}

#[test]
fn render_does_not_escape() {
    assert_eq!(
        render("<b>", "x", "7"),
        "<p>Current temperature at latitude <b>, longitude x: 7 degrees Celsius.</p>"
    );
}

#[test]
fn failure_pages_are_fixed() {
    assert_eq!(fetch_failure_page(), "<p>Failed to fetch weather data</p>");
    assert_eq!(format_failure_page(), "<p>Failed to format response</p>");
}

#[test]
fn invalid_json_is_a_parse_failure() {
    match extract_temperature("not json") {
        Err(e @ ExtractError::ParseFailure(_)) => {
            assert!(e
                .message()
                .starts_with("Failed to parse returned JSON payload from weather API: "));
            assert!(e.message().len() > "Failed to parse returned JSON payload from weather API: ".len());
        }
        other => panic!("expected a parse failure, got {:?}", other),
    }
}

#[test]
fn current_that_is_not_an_object_is_missing() {
    match extract_temperature(r#"{"current":5}"#) {
        Err(ExtractError::MissingField(f)) => assert_eq!(f, "current"),
        other => panic!("expected a missing `current`, got {:?}", other),
    }
}

#[test]
fn absent_temperature_is_missing() {
    let r = extract_temperature(r#"{"current":{"time":"2024-01-01T00:00"}}"#);
    match r {
        Err(e) => assert_eq!(
            e.message(),
            "Missing 'temperature_2m' key or invalid type in returned JSON payload from weather API"
        ),
        Ok(t) => panic!("expected a missing `temperature_2m`, got {}", t),
    }
}

#[test]
fn integer_temperature_reads_as_float_text() {
    assert_eq!(extract_temperature(r#"{"current":{"temperature_2m":21}}"#).unwrap(), "21");
    assert_eq!(extract_temperature(r#"{"current":{"temperature_2m":-0.5}}"#).unwrap(), "-0.5");
}

#[test]
fn format_response_renders_or_reports() {
    let html = format_response("1".to_string(), "2".to_string(), SUCCESS_BODY).unwrap();
    assert_eq!(html, "<p>Current temperature at latitude 1, longitude 2: 21.5 degrees Celsius.</p>");
    assert!(matches!(
        format_response("1".to_string(), "2".to_string(), "[1,2]"),
        Err(ExtractError::MissingField(_))
    ));
}
