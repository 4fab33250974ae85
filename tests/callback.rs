use schwab_auth::callback::{
    callback_from_pairs, confirmation_page, find_value, parse_callback, response_page,
    targets_redirect_path, CallbackParams, MALFORMED_CALLBACK_PAGE, NOT_FOUND_PAGE,
};
use schwab_auth::error::AuthError;

#[test]
fn callback_target_yields_code_and_state() {
    let params = parse_callback("/?state=CSRF&code=code").unwrap();
    assert_eq!(params.code, "code");
    assert_eq!(params.state, "CSRF");
    let body = confirmation_page(&params.code);
    assert_eq!(
        body,
        "Schwab returned the following code:\ncode\nYou can now safely close this browser window."
    );
    assert!(body.contains("code"));
}

#[test]
fn callback_values_are_percent_decoded() {
    let params = parse_callback("/callback?code=C0.abc%40%3D&state=x+y&code=second").unwrap();
    assert_eq!(params.code, "C0.abc@=");
    assert_eq!(params.state, "x y");
}

#[test]
fn callback_without_code_is_malformed() {
    assert!(matches!(
        parse_callback("/?state=CSRF"),
        Err(AuthError::MalformedCallback)
    ));
    assert!(matches!(
        parse_callback("/?code=code"),
        Err(AuthError::MalformedCallback)
    ));
    assert!(matches!(parse_callback("/"), Err(AuthError::MalformedCallback)));
}

#[test]
fn first_value_wins() {
    let pairs = vec![
        ("a".to_string(), "1".to_string()),
        ("code".to_string(), "first".to_string()),
        ("code".to_string(), "second".to_string()),
    ];
    assert_eq!(find_value(&pairs, &"code".to_string()).unwrap(), "first");
    assert_eq!(find_value(&pairs, &"state".to_string()), None);
    assert!(matches!(
        callback_from_pairs(&pairs),
        Err(AuthError::MalformedCallback)
    ));
    let mut pairs = pairs;
    pairs.push(("state".to_string(), "S".to_string()));
    let params = callback_from_pairs(&pairs).unwrap();
    assert_eq!(
        params,
        CallbackParams {
            code: "first".to_string(),
            state: "S".to_string()
        }
    );
}

#[test]
fn response_page_for_each_capture() {
    let ok = Ok(CallbackParams {
        code: "xyz".to_string(),
        state: "S".to_string(),
    });
    assert_eq!(
        response_page(&ok),
        "Schwab returned the following code:\nxyz\nYou can now safely close this browser window."
    );
    let bad = Err(AuthError::MalformedCallback);
    assert_eq!(response_page(&bad), MALFORMED_CALLBACK_PAGE);
}

#[test]
fn only_the_redirect_path_is_accepted() {
    assert!(targets_redirect_path("/?state=CSRF&code=code", "https://127.0.0.1:8080"));
    assert!(targets_redirect_path("/cb?code=x", "https://127.0.0.1:8080/cb"));
    assert!(!targets_redirect_path("/favicon.ico", "https://127.0.0.1:8080"));
    assert!(!targets_redirect_path("/other?code=x", "https://127.0.0.1:8080/cb"));
    assert!(!targets_redirect_path("/", "not a url"));
    assert_eq!(NOT_FOUND_PAGE, "Not found.");
}
