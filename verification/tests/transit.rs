use busmonitor::emtmadrid::{ArrivalTime, AuthError, EMTMadridClient, FetchError};

fn logged_in_client() -> EMTMadridClient {
    EMTMadridClient::new_with_token("tok-abc", "user@example.com", "pw")
}

#[test]
fn new_from_email_has_no_token() {
    let c = EMTMadridClient::new_from_email("user@example.com", "pw");
    assert!(c.access_token.is_none());
    assert_eq!(c.email, "user@example.com");
    assert_eq!(c.password, "pw");
}

#[test]
fn new_with_token_holds_token() {
    let c = logged_in_client();
    assert_eq!(c.access_token.as_deref(), Some("tok-abc"));
}

#[test]
fn login_extracts_access_token() {
    let mut c = EMTMadridClient::new_from_email("u", "p");
    let body = br#"{"code":"01","data":[{"accessToken":"abcd1234"}]}"#;
    assert!(c.login(body).is_ok());
    assert_eq!(c.access_token.as_deref(), Some("abcd1234"));
}

#[test]
fn login_without_token_fails() {
    let mut c = EMTMadridClient::new_from_email("u", "p");
    let body = br#"{"code":"90","data":[{"other":"x"}]}"#;
    assert_eq!(c.login(body), Err(AuthError::TokenMissing));
    assert!(c.access_token.is_none());
}

#[test]
fn login_with_malformed_json_fails() {
    let mut c = EMTMadridClient::new_from_email("u", "p");
    assert_eq!(c.login(b"this is not json"), Err(AuthError::TokenMissing));
}

#[test]
fn login_token_must_be_a_string() {
    let mut c = EMTMadridClient::new_from_email("u", "p");
    let body = br#"{"data":[{"accessToken":42}]}"#;
    assert_eq!(c.login(body), Err(AuthError::TokenMissing));
}

#[test]
fn login_request_carries_credentials() {
    let c = EMTMadridClient::new_from_email("user@example.com", "hunter");
    let plan = c.login_request();
    assert_eq!(
        plan.url,
        "https://openapi.emtmadrid.es/v1/mobilitylabs/user/login/"
    );
    assert_eq!(plan.headers.len(), 2);
    assert_eq!(plan.headers[0].0, "email");
    assert_eq!(plan.headers[0].1, "user@example.com");
    assert_eq!(plan.headers[1].0, "password");
    assert_eq!(plan.headers[1].1, "hunter");
    assert!(plan.body.is_none());
}

#[test]
fn arrivals_request_names_stop_and_token() {
    let c = logged_in_client();
    let plan = c.arrivals_request("874");
    assert_eq!(
        plan.url,
        "https://openapi.emtmadrid.es/v1/transport/busemtmad/stops/874/arrives/"
    );
    assert_eq!(plan.headers[0].0, "accessToken");
    assert_eq!(plan.headers[0].1, "tok-abc");
    assert_eq!(plan.headers[1].0, "Content-Type");
    assert_eq!(plan.headers[1].1, "application/json");
    assert_eq!(
        plan.body.as_deref(),
        Some("{\"Text_EstimationsRequired_YN\" : \"Y\"}")
    );
}

#[test]
fn arrivals_are_parsed_and_stamped_with_stop() {
    let c = logged_in_client();
    let body = br#"{"data":[{"Arrive":[
        {"destination":"PLAZA CASTILLA","line":"31","estimateArrive":120},
        {"destination":"ALUCHE","line":"138","estimateArrive":90}
    ]}]}"#;
    let arrivals: Vec<ArrivalTime> = c.get_arrival_times("874", body).unwrap();
    assert_eq!(arrivals.len(), 2);
    assert_eq!(arrivals[0].stop_id, "874");
    assert_eq!(arrivals[0].line, "31");
    assert_eq!(arrivals[0].destination, "PLAZA CASTILLA");
    assert_eq!(arrivals[0].seconds_until_arrival, 120);
    assert_eq!(arrivals[1].line, "138");
    assert_eq!(arrivals[1].seconds_until_arrival, 90);
}

#[test]
fn arrivals_malformed_json_is_parse_error() {
    let c = logged_in_client();
    assert!(matches!(
        c.get_arrival_times("874", b"{{nope"),
        Err(FetchError::Parse)
    ));
}

#[test]
fn arrivals_without_array_is_missing_error() {
    let c = logged_in_client();
    let body = br#"{"data":[{"other":1}]}"#;
    assert!(matches!(
        c.get_arrival_times("874", body),
        Err(FetchError::Missing)
    ));
}

#[test]
fn arrival_without_estimate_field_is_missing_error() {
    let c = logged_in_client();
    let body = br#"{"data":[{"Arrive":[{"destination":"X","line":"31"}]}]}"#;
    assert!(matches!(
        c.get_arrival_times("874", body),
        Err(FetchError::Missing)
    ));
}

#[test]
fn empty_arrive_array_is_ok_and_empty() {
    let c = logged_in_client();
    let body = br#"{"data":[{"Arrive":[]}]}"#;
    let arrivals = c.get_arrival_times("1455", body).unwrap();
    assert!(arrivals.is_empty());
}
