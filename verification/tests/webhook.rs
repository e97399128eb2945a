use wing::command::{CommandLine, CommandReport};
use wing::duration::Elapsed;
use wing::webhook::{
    construct_webhook_url, show_status, DeliveryError, HttpOutcome, Token,
    UnvalidatedWebhookInfo, WebhookBuilder, WebhookInfo, WebhookInfoError,
    WebhookValidationError, CONTENT_FIELD, WEBHOOK_ID_VAR_NAME, WEBHOOK_TOKEN_VAR_NAME,
};

fn pending(id: &str, token: &str) -> UnvalidatedWebhookInfo {
    WebhookBuilder::new().id(id).unwrap().token(token).unwrap()
}

fn endpoint(id: &str, token: &str) -> WebhookInfo {
    pending(id, token).check(HttpOutcome::Status(200)).unwrap()
}

fn echo_hello() -> CommandReport {
    CommandReport {
        command: CommandLine { program: "echo".to_string(), args: vec!["hello".to_string()] },
        elapsed: Elapsed::new(0, 2_000_000).unwrap(),
        start: jiff::Timestamp::UNIX_EPOCH,
        end: jiff::Timestamp::UNIX_EPOCH,
    }
}

#[test]
fn the_variables_are_named() {
    assert_eq!(WEBHOOK_ID_VAR_NAME, "WING_WEBHOOK_ID");
    assert_eq!(WEBHOOK_TOKEN_VAR_NAME, "WING_WEBHOOK_TOKEN");
    assert_eq!(CONTENT_FIELD, "content");
}

#[test]
fn id_stage_reads_decimal_ids() {
    assert_eq!(pending("123", "t").url(), "https://discord.com/api/webhooks/123/t");
    assert_eq!(pending("0", "t").url(), "https://discord.com/api/webhooks/0/t");
    assert_eq!(
        pending("18446744073709551615", "t").url(),
        "https://discord.com/api/webhooks/18446744073709551615/t"
    );
    assert_eq!(pending("007", "t").url(), "https://discord.com/api/webhooks/7/t");
}

#[test]
fn id_stage_rejects_what_is_no_id_and_names_it() {
    for text in ["", "abc", "-1", "12x", "1 2", "18446744073709551616", "1.0"] {
        let error = WebhookBuilder::new().id(text).unwrap_err();
        assert_eq!(error.input(), text);
    }
}

#[test]
fn id_error_message_names_the_text() {
    let error = WebhookBuilder::new().id("nope").unwrap_err();
    assert_eq!(error.message(), "Invalid webhook id nope. IDs must be 64 bit integers.");
}

#[test]
fn token_accepts_letters_digits_underscore_and_hyphen() {
    for text in ["abc", "ABC", "0123456789", "a_b-c", "_", "-", "aZ09_-", ""] {
        let token = Token::from_str(text).unwrap();
        assert_eq!(token.as_str(), text);
    }
}

#[test]
fn token_rejects_any_other_character_and_names_the_whole_text() {
    let texts =
        ["a b", "a/b", "tok.en", "abc!", " abc", "abc\n", "tök", "токен", "a\u{0}b", "a+b"];
    for text in texts {
        let error = Token::from_str(text).unwrap_err();
        assert_eq!(error.input(), text);
    }
}

#[test]
fn token_error_message_names_the_text() {
    let error = Token::from_str("a b").unwrap_err();
    assert_eq!(
        error.message(),
        "Invalid webhook token a b. Token must be alphanumeric or `_`/`-`."
    );
}

#[test]
fn token_stage_keeps_the_id() {
    let stage = WebhookBuilder::new().id("42").unwrap().token("secret-Token_1").unwrap();
    assert_eq!(stage.url(), "https://discord.com/api/webhooks/42/secret-Token_1");
    let error = WebhookBuilder::new().id("42").unwrap().token("not a token").unwrap_err();
    assert_eq!(error.input(), "not a token");
}

#[test]
fn construct_webhook_url_has_the_webhook_shape() {
    let token = Token::from_str("abc-DEF_123").unwrap();
    assert_eq!(
        construct_webhook_url(&9_007_199_254_740_993, &token),
        "https://discord.com/api/webhooks/9007199254740993/abc-DEF_123"
    );
}

#[test]
fn check_yields_the_endpoint_on_success() {
    for status in [200u16, 201, 204, 299] {
        let info = pending("7", "tok").check(HttpOutcome::Status(status)).unwrap();
        assert_eq!(info.id(), 7);
        assert_eq!(info.token().as_str(), "tok");
        assert_eq!(info.url(), "https://discord.com/api/webhooks/7/tok");
    }
}

#[test]
fn check_with_404_names_the_status() {
    let error = pending("7", "tok").check(HttpOutcome::Status(404)).unwrap_err();
    match &error {
        WebhookValidationError::InvalidWebhookUrl { url, status } => {
            assert_eq!(url, "https://discord.com/api/webhooks/7/tok");
            assert_eq!(*status, 404);
        },
        other => panic!("unexpected error: {:?}", other),
    }
    assert_eq!(
        error.message(),
        "Webhook URL https://discord.com/api/webhooks/7/tok is not valid: 404 Not Found"
    );
}

#[test]
fn check_rejects_every_status_outside_success() {
    for status in [0u16, 100, 199, 300, 301, 401, 500, 999, u16::MAX] {
        let error = pending("7", "tok").check(HttpOutcome::Status(status)).unwrap_err();
        assert!(matches!(
            error,
            WebhookValidationError::InvalidWebhookUrl { status: s, .. } if s == status
        ));
    }
}

#[test]
fn check_without_a_response_names_the_cause() {
    let probe = HttpOutcome::Failed("connection refused".to_string());
    let error = pending("7", "tok").check(probe).unwrap_err();
    match &error {
        WebhookValidationError::RequestError { url, error } => {
            assert_eq!(url, "https://discord.com/api/webhooks/7/tok");
            assert_eq!(error, "connection refused");
        },
        other => panic!("unexpected error: {:?}", other),
    }
    assert_eq!(
        error.message(),
        "Encountered error during GET request to https://discord.com/api/webhooks/7/tok: \
         connection refused"
    );
}

#[test]
fn from_env_without_the_id_is_missing_id() {
    assert!(matches!(WebhookInfo::from_env(None, None), Err(WebhookInfoError::MissingId)));
    assert!(matches!(WebhookInfo::from_env(None, Some("tok")), Err(WebhookInfoError::MissingId)));
}

#[test]
fn from_env_without_the_token_is_missing_token() {
    assert!(matches!(WebhookInfo::from_env(Some("1"), None), Err(WebhookInfoError::MissingToken)));
}

#[test]
fn from_env_looks_for_both_values_before_it_reads_either() {
    assert!(matches!(
        WebhookInfo::from_env(Some("no id"), None),
        Err(WebhookInfoError::MissingToken)
    ));
}

#[test]
fn from_env_reads_the_id_before_the_token() {
    match WebhookInfo::from_env(Some("no id"), Some("no token")) {
        Err(WebhookInfoError::InvalidId(error)) => assert_eq!(error.input(), "no id"),
        other => panic!("unexpected result: {:?}", other),
    }
    match WebhookInfo::from_env(Some("12"), Some("no token")) {
        Err(WebhookInfoError::InvalidToken(error)) => assert_eq!(error.input(), "no token"),
        other => panic!("unexpected result: {:?}", other),
    }
}

#[test]
fn from_env_with_good_values_is_ready_to_probe() {
    let stage = WebhookInfo::from_env(Some("12"), Some("tok")).unwrap();
    assert_eq!(stage.url(), "https://discord.com/api/webhooks/12/tok");
}

#[test]
fn validated_wraps_the_outcome_of_the_probe() {
    let info = WebhookInfo::validated(pending("12", "tok"), HttpOutcome::Status(200)).unwrap();
    assert_eq!(info.url(), "https://discord.com/api/webhooks/12/tok");
    let error = WebhookInfo::validated(pending("12", "tok"), HttpOutcome::Status(404)).unwrap_err();
    assert!(matches!(
        error,
        WebhookInfoError::InvalidWebhook(WebhookValidationError::InvalidWebhookUrl {
            status: 404,
            ..
        })
    ));
    let error = WebhookInfo::validated(pending("12", "tok"), HttpOutcome::Failed("dns".to_string()))
        .unwrap_err();
    assert!(matches!(
        error,
        WebhookInfoError::InvalidWebhook(WebhookValidationError::RequestError { .. })
    ));
}

#[test]
fn info_error_messages() {
    assert_eq!(
        WebhookInfoError::MissingId.message(),
        "Missing webhook id. Set `WING_WEBHOOK_ID` to the id."
    );
    assert_eq!(
        WebhookInfoError::MissingToken.message(),
        "Missing webhook token. Set `WING_WEBHOOK_TOKEN` to the token."
    );
    let error = WebhookInfo::from_env(Some("x"), Some("t")).unwrap_err();
    assert_eq!(error.message(), "Invalid webhook id x. IDs must be 64 bit integers.");
    let error = WebhookInfo::from_env(Some("1"), Some("t t")).unwrap_err();
    assert_eq!(
        error.message(),
        "Invalid webhook token t t. Token must be alphanumeric or `_`/`-`."
    );
    let error = WebhookInfo::validated(pending("1", "t"), HttpOutcome::Status(503)).unwrap_err();
    assert_eq!(
        error.message(),
        "Webhook URL https://discord.com/api/webhooks/1/t is not valid: 503 Service Unavailable"
    );
}

#[test]
fn report_of_echo_hello_attaches_stdout_only() {
    let request = endpoint("12", "tok").report(echo_hello(), "hello\n", "");
    assert_eq!(request.url, "https://discord.com/api/webhooks/12/tok");
    assert!(request.content.starts_with("Command: echo hello\n\tRan for:  2ms.\n\tStarted:  "));
    assert_eq!(request.files.len(), 1);
    assert_eq!(request.files[0].field, "file1");
    assert_eq!(request.files[0].file_name, "stdout.txt");
    assert_eq!(request.files[0].mime, "text/plain");
    assert_eq!(request.files[0].body, "hello\n");
}

#[test]
fn report_attaches_stderr_only() {
    let request = endpoint("12", "tok").report(echo_hello(), "", "oops\n");
    assert_eq!(request.files.len(), 1);
    assert_eq!(request.files[0].field, "file2");
    assert_eq!(request.files[0].file_name, "stderr.txt");
    assert_eq!(request.files[0].mime, "text/plain");
    assert_eq!(request.files[0].body, "oops\n");
}

#[test]
fn report_attaches_both_captures_in_order() {
    let request = endpoint("12", "tok").report(echo_hello(), "out", "err");
    assert_eq!(request.files.len(), 2);
    assert_eq!(request.files[0].field, "file1");
    assert_eq!(request.files[0].body, "out");
    assert_eq!(request.files[1].field, "file2");
    assert_eq!(request.files[1].body, "err");
}

#[test]
fn report_without_captures_attaches_nothing() {
    let request = endpoint("12", "tok").report(echo_hello(), "", "");
    assert!(request.files.is_empty());
}

#[test]
fn request_carries_the_content_as_given() {
    let request = endpoint("12", "tok").request("the report".to_string(), "out", "");
    assert_eq!(request.url, "https://discord.com/api/webhooks/12/tok");
    assert_eq!(request.content, "the report");
    assert_eq!(request.files.len(), 1);
}

#[test]
fn conclude_is_ok_on_success() {
    for status in [200u16, 204, 299] {
        let request = endpoint("12", "tok").request(String::new(), "", "");
        assert!(request.conclude(HttpOutcome::Status(status)).is_ok());
    }
}

#[test]
fn conclude_surfaces_the_status() {
    for status in [199u16, 300, 400, 404, 429, 500] {
        let request = endpoint("12", "tok").request(String::new(), "", "");
        let error = request.conclude(HttpOutcome::Status(status)).unwrap_err();
        assert!(matches!(error, DeliveryError::Status(s) if s == status));
    }
}

#[test]
fn conclude_surfaces_a_transport_failure() {
    let request = endpoint("12", "tok").request(String::new(), "", "");
    let error = request.conclude(HttpOutcome::Failed("timed out".to_string())).unwrap_err();
    assert!(matches!(&error, DeliveryError::Transport(cause) if cause == "timed out"));
    assert_eq!(error.message(), "timed out");
}

#[test]
fn delivery_error_message_names_the_status() {
    assert_eq!(
        DeliveryError::Status(500).message(),
        "Failed to send file. Status: 500 Internal Server Error"
    );
    assert_eq!(
        DeliveryError::Status(429).message(),
        "Failed to send file. Status: 429 Too Many Requests"
    );
}

#[test]
fn a_status_without_a_reason_phrase_is_shown_as_unknown() {
    assert_eq!(
        DeliveryError::Status(599).message(),
        "Failed to send file. Status: 599 <unknown status code>"
    );
}

#[test]
fn a_number_that_is_no_status_is_shown_as_unknown() {
    assert_eq!(
        DeliveryError::Status(42).message(),
        "Failed to send file. Status: 42 <unknown status code>"
    );
    assert_eq!(
        DeliveryError::Status(1000).message(),
        "Failed to send file. Status: 1000 <unknown status code>"
    );
}

#[test]
fn messages_show_a_status_as_reqwest_does() {
    for code in [100u16, 200, 301, 404, 418, 500, 599, 999] {
        let shown = reqwest::StatusCode::from_u16(code).unwrap().to_string();
        assert_eq!(
            DeliveryError::Status(code).message(),
            format!("Failed to send file. Status: {}", shown)
        );
    }
}

#[test]
fn show_status_puts_the_number_before_the_reason() {
    assert_eq!(show_status(404, Some("Not Found")), "404 Not Found");
    assert_eq!(show_status(7, Some("")), "7 ");
    assert_eq!(show_status(599, None), "599 <unknown status code>");
}
