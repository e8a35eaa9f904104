use ez_resend::{
    accept_body, classify_response, classify_status, DispatchError, EmailPayload, ResendSDK,
    ResendSDKInterface,
};

fn sample_payload() -> EmailPayload {
    EmailPayload::new(
        "a@x.com".to_owned(),
        "b@x.com".to_owned(),
        "Hi".to_owned(),
        "<p>hi</p>".to_owned(),
    )
}

fn sample_client() -> ResendSDK {
    ResendSDK::init(
        "https://example.test/emails".to_owned(),
        "application/json".to_owned(),
        "tok123".to_owned(),
    )
}

#[test]
fn payload_keeps_its_fields() {
    let p = sample_payload();
    assert_eq!(p.from(), "a@x.com");
    assert_eq!(p.to(), "b@x.com");
    assert_eq!(p.subject(), "Hi");
    assert_eq!(p.html(), "<p>hi</p>");
}

#[test]
fn payload_accepts_empty_strings() {
    let p = EmailPayload::new(String::new(), String::new(), String::new(), String::new());
    assert_eq!(p.from(), "");
    assert_eq!(p.html(), "");
    assert_eq!(p.to_json(), r#"{"from":"","to":"","subject":"","html":""}"#);
}

#[test]
fn default_payload_is_empty() {
    let p = EmailPayload::default();
    assert_eq!(p.from(), "");
    assert_eq!(p.to(), "");
    assert_eq!(p.subject(), "");
    assert_eq!(p.html(), "");
}

#[test]
fn payload_json_has_four_keys_in_order() {
    assert_eq!(
        sample_payload().to_json(),
        r#"{"from":"a@x.com","to":"b@x.com","subject":"Hi","html":"<p>hi</p>"}"#
    );
}

#[test]
fn payload_json_escapes_strings() {
    let p = EmailPayload::new(
        "Co \"Name\" <a@x.com>".to_owned(),
        "b@x.com".to_owned(),
        "line\nbreak".to_owned(),
        "back\\slash".to_owned(),
    );
    assert_eq!(
        p.to_json(),
        r#"{"from":"Co \"Name\" <a@x.com>","to":"b@x.com","subject":"line\nbreak","html":"back\\slash"}"#
    );
}

#[test]
fn init_keeps_settings() {
    let c = sample_client();
    assert_eq!(c.uri, "https://example.test/emails");
    assert_eq!(c.header, "application/json");
    assert_eq!(c.auth, "tok123");
    assert_eq!(c.body.from(), "");
}

#[test]
fn fresh_client_sends_empty_payload() {
    let c = sample_client();
    let req = c.request();
    assert_eq!(req.body, r#"{"from":"","to":"","subject":"","html":""}"#);
}

#[test]
fn request_carries_settings_and_payload() {
    let mut c = sample_client();
    let c = c.with_email_payload(sample_payload());
    let req = c.request();
    assert_eq!(req.uri, "https://example.test/emails");
    assert_eq!(req.authorization, "Bearer tok123");
    assert_eq!(req.content_type, "application/json");
    assert_eq!(
        req.body,
        r#"{"from":"a@x.com","to":"b@x.com","subject":"Hi","html":"<p>hi</p>"}"#
    );
}

#[test]
fn second_payload_wins() {
    let mut c = sample_client();
    c.with_email_payload(sample_payload());
    let second = EmailPayload::new(
        "c@x.com".to_owned(),
        "d@x.com".to_owned(),
        String::new(),
        "<b>two</b>".to_owned(),
    );
    let copy = c.with_email_payload(second);
    let expected = r#"{"from":"c@x.com","to":"d@x.com","subject":"","html":"<b>two</b>"}"#;
    assert_eq!(c.request().body, expected);
    assert_eq!(copy.request().body, expected);
}

#[test]
fn trait_operations_match_inherent_ones() {
    let mut c = <ResendSDK as ResendSDKInterface>::init(
        "https://example.test/emails".to_owned(),
        "application/json".to_owned(),
        "tok123".to_owned(),
    );
    let copy = ResendSDKInterface::with_email_payload(&mut c, sample_payload());
    let req = ResendSDKInterface::request(&copy);
    assert_eq!(req.authorization, "Bearer tok123");
    assert_eq!(req.body, c.request().body);
}

#[test]
fn ok_reply_carries_json_content() {
    let r = classify_response(200, r#"{"id":"x"}"#).unwrap();
    assert_eq!(r.content(), r#"{"id":"x"}"#);
    assert_eq!(r.message(), "Success: Email sent.");
}

#[test]
fn ok_reply_is_printed_back_compactly() {
    let r = classify_response(200, "{ \"ok\" : true }\n").unwrap();
    assert_eq!(r.content(), r#"{"ok":true}"#);
}

#[test]
fn ok_reply_with_invalid_json_is_a_transport_failure() {
    assert_eq!(
        classify_response(200, "not json").unwrap_err(),
        DispatchError::TransportUnreachable
    );
    assert_eq!(accept_body("").unwrap_err(), DispatchError::TransportUnreachable);
}

#[test]
fn unauthorized_reply_ignores_body() {
    assert_eq!(
        classify_response(401, "not json").unwrap_err(),
        DispatchError::AuthenticationFailed
    );
    assert_eq!(
        classify_response(401, r#"{"id":"x"}"#).unwrap_err(),
        DispatchError::AuthenticationFailed
    );
    assert_eq!(classify_status(401), Err(DispatchError::AuthenticationFailed));
}

#[test]
fn other_status_is_a_generic_failure() {
    assert_eq!(
        classify_response(422, r#"{"id":"x"}"#).unwrap_err(),
        DispatchError::DispatchFailed(422)
    );
    assert_eq!(classify_response(429, "").unwrap_err(), DispatchError::DispatchFailed(429));
    assert_eq!(classify_status(201), Err(DispatchError::DispatchFailed(201)));
    assert_eq!(classify_status(200), Ok(()));
}

#[test]
fn scenario_example_client_against_three_replies() {
    let mut c = sample_client();
    let c = c.with_email_payload(sample_payload());
    let req = c.request();
    assert_eq!(req.authorization, "Bearer tok123");
    let ok = classify_response(200, r#"{"ok":true}"#).unwrap();
    assert!(ok.content().contains(r#"{"ok":true}"#));
    assert_eq!(
        classify_response(401, r#"{"ok":true}"#).unwrap_err(),
        DispatchError::AuthenticationFailed
    );
    assert_eq!(
        classify_response(500, r#"{"ok":true}"#).unwrap_err(),
        DispatchError::DispatchFailed(500)
    );
}

#[test]
fn report_writes_message_and_content() {
    let r = classify_response(200, r#"{"id":"x"}"#).unwrap();
    assert_eq!(
        r.report(),
        r#"ResendSDKResponse { message: "Success: Email sent.", content: "{\"id\":\"x\"}" }"#
    );
}
