use boo::api::{
    parse_response, percent_encode, ApiError, ApiErrors, ApiRequestError, ApiResponse, AuthRequest, BooApiClient,
    CreatePublishJobRequest, HttpMethod, NetworkFailure, RequestBody, DEFAULT_API_URL,
};
use boo::outcome::PublishingError;
use boo::text::decimal_text;
use boo::validate::ValidationError;

fn client() -> BooApiClient {
    BooApiClient::new(Some("https://registry.test/api/".to_string()), "1.4.0")
}

fn authorized() -> BooApiClient {
    let mut client = client();
    client.set_access_token("T0ken".to_string());
    client
}

fn auth_error<T>(call: Result<T, ApiRequestError>) -> String {
    match call {
        Err(ApiRequestError::AuthError(message)) => message,
        _ => panic!("expected an authorization error"),
    }
}

#[test]
fn a_new_client_has_a_name_and_no_token() {
    let client = client();
    assert_eq!(client.app_name, "Boo CLI/1.4.0");
    assert_eq!(client.base_url, "https://registry.test/api/");
    assert_eq!(client.access_token, None);
    assert_eq!(auth_error(client.get_access_token()), "Missing access token");
}

#[test]
fn a_client_without_address_talks_to_the_default() {
    let client = BooApiClient::new(None, "0.0.1");
    assert_eq!(DEFAULT_API_URL, "http://localhost:3333/api/");
    assert_eq!(client.base_url, "http://localhost:3333/api/");
    assert_eq!(client.app_name, "Boo CLI/0.0.1");
}

#[test]
fn a_client_keeps_its_token() {
    let client = authorized();
    assert_eq!(client.get_access_token().ok(), Some("T0ken".to_string()));
    assert_eq!(client.app_name, "Boo CLI/1.4.0");
    assert_eq!(client.base_url, "https://registry.test/api/");
}

#[test]
fn the_authorization_request_is_posted() {
    let call = client().create_auth_request(AuthRequest {
        app_name: "Boo CLI/1.4.0".to_string(),
        requested_permissions: vec!["p".to_string()],
    });
    assert!(matches!(call.method, HttpMethod::Post));
    assert_eq!(call.url, "https://registry.test/api/auth/request");
    assert_eq!(call.authorization, None);
    match call.body {
        RequestBody::Authorization(request) => {
            assert_eq!(request.app_name, "Boo CLI/1.4.0");
            assert_eq!(request.requested_permissions, vec!["p".to_string()]);
        }
        _ => panic!("expected an authorization request"),
    }
}

#[test]
fn the_private_code_is_percent_encoded() {
    let call = client().get_auth_request_status("a b/c?d=e&f~g_h-i.j");
    assert!(matches!(call.method, HttpMethod::Get));
    assert_eq!(
        call.url,
        "https://registry.test/api/auth/request/a%20b%2Fc%3Fd%3De%26f~g_h-i.j"
    );
    assert_eq!(call.authorization, None);
    assert!(matches!(call.body, RequestBody::Empty));
    let plain = client().get_auth_request_status("Abc019");
    assert_eq!(plain.url, "https://registry.test/api/auth/request/Abc019");
    let wide = client().get_auth_request_status("\u{e9}");
    assert_eq!(wide.url, "https://registry.test/api/auth/request/%C3%A9");
}

#[test]
fn the_authorization_request_is_deleted_at_the_same_address() {
    let call = client().delete_auth_request("se cret");
    assert!(matches!(call.method, HttpMethod::Delete));
    assert_eq!(call.url, "https://registry.test/api/auth/request/se%20cret");
    assert_eq!(call.authorization, None);
    assert!(matches!(call.body, RequestBody::Empty));
}

fn job_request() -> CreatePublishJobRequest {
    CreatePublishJobRequest {
        scope: "scope".to_string(),
        name: "package".to_string(),
        version: "1.2.3".to_string(),
    }
}

#[test]
fn a_job_is_opened_with_the_token() {
    let call = authorized().create_publishing_job(job_request()).ok().unwrap();
    assert!(matches!(call.method, HttpMethod::Post));
    assert_eq!(call.url, "https://registry.test/api/publish");
    assert_eq!(call.authorization, Some("Bearer T0ken".to_string()));
    match call.body {
        RequestBody::PublishJob(request) => {
            assert_eq!(request.scope, "scope");
            assert_eq!(request.name, "package");
            assert_eq!(request.version, "1.2.3");
        }
        _ => panic!("expected a job request"),
    }
}

#[test]
fn the_archive_is_uploaded_to_its_job() {
    let call = authorized().upload_package(&42, vec![1, 2, 3]).ok().unwrap();
    assert!(matches!(call.method, HttpMethod::Post));
    assert_eq!(call.url, "https://registry.test/api/publish/42/upload");
    assert_eq!(call.authorization, Some("Bearer T0ken".to_string()));
    match call.body {
        RequestBody::Archive(bytes) => assert_eq!(bytes, vec![1, 2, 3]),
        _ => panic!("expected an archive"),
    }
}

#[test]
fn a_job_is_asked_for_by_its_number() {
    let call = authorized().get_publish_job_status(-7).ok().unwrap();
    assert!(matches!(call.method, HttpMethod::Get));
    assert_eq!(call.url, "https://registry.test/api/publish/-7");
    assert_eq!(call.authorization, Some("Bearer T0ken".to_string()));
    assert!(matches!(call.body, RequestBody::Empty));
    let large = authorized().get_publish_job_status(i64::MAX).ok().unwrap();
    assert_eq!(large.url, "https://registry.test/api/publish/9223372036854775807");
}

#[test]
fn requests_of_a_job_need_the_token() {
    assert_eq!(auth_error(client().create_publishing_job(job_request())), "Missing access token");
    assert_eq!(auth_error(client().upload_package(&1, vec![])), "Missing access token");
    assert_eq!(auth_error(client().get_publish_job_status(1)), "Missing access token");
}

#[test]
fn numbers_are_written_in_base_ten() {
    assert_eq!(decimal_text(0), "0");
    assert_eq!(decimal_text(7), "7");
    assert_eq!(decimal_text(10), "10");
    assert_eq!(decimal_text(-1), "-1");
    assert_eq!(decimal_text(1234567890), "1234567890");
    assert_eq!(decimal_text(i64::MIN), "-9223372036854775808");
    assert_eq!(decimal_text(i64::MAX), "9223372036854775807");
}

fn failure() -> NetworkFailure {
    NetworkFailure { message: "error sending request".to_string(), source: Some("refused".to_string()) }
}

#[test]
fn no_answer_is_a_network_error() {
    let outcome = parse_response::<u8>(ApiResponse::Failed(failure()));
    match outcome {
        Err(ApiRequestError::NetworkError(failure)) => {
            assert_eq!(failure.message, "error sending request");
            assert_eq!(failure.source, Some("refused".to_string()));
        }
        _ => panic!("expected a network error"),
    }
}

fn single() -> ApiError {
    ApiError { message: "no such package".to_string(), field: None }
}

fn multi() -> ApiErrors {
    ApiErrors {
        errors: vec![
            ApiError { message: "too long".to_string(), field: Some("name".to_string()) },
            ApiError { message: "taken".to_string(), field: None },
        ],
    }
}

#[test]
fn a_refusal_is_read_as_one_error_first() {
    let outcome = parse_response::<u8>(ApiResponse::Rejected {
        status: "404 Not Found".to_string(),
        single: Some(single()),
        multi: Some(multi()),
        body: "{}".to_string(),
    });
    match outcome {
        Err(ApiRequestError::ApiError(message)) => assert_eq!(message, "no such package"),
        _ => panic!("expected an API error"),
    }
}

#[test]
fn a_refusal_is_read_as_several_errors_next() {
    let outcome = parse_response::<u8>(ApiResponse::Rejected {
        status: "422 Unprocessable Entity".to_string(),
        single: None,
        multi: Some(multi()),
        body: "{}".to_string(),
    });
    match outcome {
        Err(ApiRequestError::ValidationErrors(errors)) => {
            assert_eq!(errors.errors.len(), 2);
            assert_eq!(errors.errors[0].message, "too long");
            assert_eq!(errors.errors[0].field, Some("name".to_string()));
            assert_eq!(errors.errors[1].message, "taken");
            assert_eq!(errors.errors[1].field, None);
        }
        _ => panic!("expected validation errors"),
    }
}

#[test]
fn a_refusal_of_no_known_form_is_handed_on_as_it_came() {
    let outcome = parse_response::<u8>(ApiResponse::Rejected {
        status: "502 Bad Gateway".to_string(),
        single: None,
        multi: None,
        body: "<html>oops</html>".to_string(),
    });
    match outcome {
        Err(ApiRequestError::ApiError(message)) => assert_eq!(
            message,
            "Request failed with status 502 Bad Gateway and unknown error format: <html>oops</html>"
        ),
        _ => panic!("expected an API error"),
    }
}

#[test]
fn an_agreement_gives_its_answer() {
    let outcome = parse_response(ApiResponse::Accepted { parsed: Ok(17u8), body: "17".to_string() });
    assert_eq!(outcome.ok(), Some(17));
}

#[test]
fn an_agreement_that_cannot_be_read_is_an_error() {
    let outcome = parse_response::<u8>(ApiResponse::Accepted {
        parsed: Err("expected value at line 1 column 1".to_string()),
        body: "seventeen".to_string(),
    });
    match outcome {
        Err(ApiRequestError::ApiError(message)) => assert_eq!(
            message,
            "Failed to parse JSON response: expected value at line 1 column 1. Response body: seventeen"
        ),
        _ => panic!("expected an API error"),
    }
}

#[test]
fn each_failure_keeps_its_kind() {
    match PublishingError::from(&ApiRequestError::ApiError("boom".to_string())) {
        PublishingError::ApiError(message) => assert_eq!(message, "boom"),
        _ => panic!("expected an API error"),
    }
    match PublishingError::from(&ApiRequestError::AuthError("Missing access token".to_string())) {
        PublishingError::AuthError(message) => assert_eq!(message, "Missing access token"),
        _ => panic!("expected an authorization error"),
    }
    match PublishingError::from(&ApiRequestError::ValidationErrors(multi())) {
        PublishingError::ValidationErrors(errors) => {
            assert_eq!(errors.len(), 2);
            assert_eq!(errors[0].message, "too long");
            assert_eq!(errors[0].field, Some("name".to_string()));
            assert_eq!(errors[1].message, "taken");
            assert_eq!(errors[1].field, None);
        }
        _ => panic!("expected validation errors"),
    }
}

#[test]
fn a_network_error_names_its_cause() {
    match PublishingError::from(&ApiRequestError::NetworkError(failure())) {
        PublishingError::NetworkError(message) => {
            assert_eq!(message, "error sending request: refused")
        }
        _ => panic!("expected a network error"),
    }
    let bare = NetworkFailure { message: "timed out".to_string(), source: None };
    match PublishingError::from(&ApiRequestError::NetworkError(bare)) {
        PublishingError::NetworkError(message) => assert_eq!(message, "timed out"),
        _ => panic!("expected a network error"),
    }
}

#[test]
fn local_issues_are_validation_errors_without_a_field() {
    let issues = vec![
        ValidationError::new("first".to_string()),
        ValidationError::new("second".to_string()),
    ];
    match PublishingError::from_validation(&issues) {
        PublishingError::ValidationErrors(errors) => {
            assert_eq!(errors.len(), 2);
            assert_eq!(errors[0].message, "first");
            assert_eq!(errors[0].field, None);
            assert_eq!(errors[1].message, "second");
            assert_eq!(errors[1].field, None);
        }
        _ => panic!("expected validation errors"),
    }
}

#[test]
fn percent_encoding_keeps_the_unreserved_and_escapes_the_rest() {
    assert_eq!(percent_encode(""), "");
    assert_eq!(percent_encode("AZaz09-._~"), "AZaz09-._~");
    assert_eq!(percent_encode(" "), "%20");
    assert_eq!(percent_encode("\u{0}\u{f}\u{10}\u{7f}"), "%00%0F%10%7F");
    assert_eq!(percent_encode("/@[`{"), "%2F%40%5B%60%7B");
    assert_eq!(percent_encode("\u{20ac}\u{1f600}"), "%E2%82%AC%F0%9F%98%80");
}

#[test]
fn percent_encoding_is_that_of_urlencoding() {
    for code in 0u32..0x800 {
        let text: String = char::from_u32(code).into_iter().collect();
        assert_eq!(percent_encode(&text), urlencoding::encode(&text).into_owned(), "{}", code);
    }
    for text in ["", "a b/c?d=e&f~g_h-i.j", "\u{ffff}\u{10000}\u{10ffff}", "100% sure", "%41"] {
        assert_eq!(percent_encode(text), urlencoding::encode(text).into_owned());
    }
}
