use serde_json::Value;
use unwrap_or_ai::groq_client::BackendError;
use unwrap_or_ai::unwrap_or_ai::{
    call_ai_for_type, call_prompt, call_prompt_with, expression_prompt, recovery_result, Policy, RecoveryError,
    Resolution, UnwrapOrAi, API_KEY_VARIABLE, SYSTEM_INSTRUCTION,
};

#[derive(Debug, Clone, PartialEq)]
struct TestUser {
    id: u32,
    name: String,
    email: String,
}

#[derive(Debug, Clone, PartialEq)]
struct TestProduct {
    id: u32,
    name: String,
    price: f64,
}

fn get_user_success(id: u32) -> Result<TestUser, String> {
    Ok(TestUser { id, name: "John Doe".to_string(), email: "john@example.com".to_string() })
}

fn get_user_failure(id: u32) -> Result<TestUser, String> {
    Err(format!("User with id {} not found in database", id))
}

fn get_optional_product_some(id: u32) -> Option<TestProduct> {
    Some(TestProduct { id, name: "Test Product".to_string(), price: 99.99 })
}

fn get_optional_product_none(_id: u32) -> Option<TestProduct> {
    None
}

fn user_schema() -> Value {
    serde_json::from_str(r#"{"type":"object","required":["id","name","email"]}"#).unwrap()
}

/// Runs one resolution to its end. `backend` stands for the exchange with
/// the backend and counts its calls.
fn resolve<T, O: UnwrapOrAi<T>>(
    outcome: O,
    api_key: Option<String>,
    policy: Policy,
    backend: &mut dyn FnMut() -> Result<T, BackendError>,
) -> Resolution<O> {
    match outcome.unwrap_or_ai_impl() {
        Resolution::AwaitingRecovery(original) => {
            let recovery = match call_ai_for_type(api_key, "Test prompt", "TestUser", user_schema())
            {
                Err(error) => Err(error),
                Ok(_request) => recovery_result(backend()),
            };
            original.recover(recovery, policy)
        }
        state => state,
    }
}

#[test]
fn test_unwrap_or_ai_with_successful_result() {
    let mut calls = 0;
    let state = resolve(get_user_success(1), Some("k".to_string()), Policy::KeepOriginal, &mut || {
        calls += 1;
        Err(BackendError::NoChoices)
    });
    let result = state.into_outcome().unwrap();
    assert!(result.is_ok());
    let user = result.unwrap();
    assert_eq!(user.id, 1);
    assert_eq!(user.name, "John Doe");
    assert_eq!(calls, 0);
}

#[test]
fn test_unwrap_or_ai_with_successful_option() {
    let mut calls = 0;
    let state =
        resolve(get_optional_product_some(1), Some("k".to_string()), Policy::Abort, &mut || {
            calls += 1;
            Err(BackendError::NoChoices)
        });
    assert!(matches!(state, Resolution::Returned(_)));
    let result = state.into_outcome().unwrap();
    assert!(result.is_some());
    let product = result.unwrap();
    assert_eq!(product.id, 1);
    assert_eq!(product.name, "Test Product");
    assert_eq!(calls, 0);
}

#[test]
fn test_unwrap_or_ai_with_failed_result_no_api_key() {
    let mut calls = 0;
    let state = resolve(get_user_failure(999), None, Policy::KeepOriginal, &mut || {
        calls += 1;
        Err(BackendError::NoChoices)
    });
    assert!(matches!(state, Resolution::Unrecovered(_, RecoveryError::MissingApiKey)));
    let result = state.into_outcome().unwrap();
    assert!(result.is_err());
    let error = result.unwrap_err();
    assert_eq!(error, "User with id 999 not found in database");
    assert_eq!(calls, 0);
}

#[test]
fn failed_result_without_api_key_aborts_under_the_aborting_policy() {
    let mut calls = 0;
    let state = resolve(get_user_failure(999), None, Policy::Abort, &mut || {
        calls += 1;
        Err(BackendError::NoChoices)
    });
    match state {
        Resolution::Aborted(original, error) => {
            assert_eq!(original, Err("User with id 999 not found in database".to_string()));
            assert!(matches!(error, RecoveryError::MissingApiKey));
        }
        other => panic!("unexpected state {:?}", other),
    }
    assert_eq!(calls, 0);
}

#[test]
fn test_unwrap_or_ai_with_none_option_no_api_key() {
    let mut calls = 0;
    let state = resolve(get_optional_product_none(999), None, Policy::KeepOriginal, &mut || {
        calls += 1;
        Err(BackendError::NoChoices)
    });
    let result = state.into_outcome().unwrap();
    assert!(result.is_none());
    assert_eq!(calls, 0);
}

#[test]
fn missing_api_key_is_a_configuration_error() {
    let result = call_ai_for_type(None, "Test prompt", "TestUser", user_schema());
    assert!(result.is_err());
    let error = result.err().unwrap();
    assert!(matches!(error, RecoveryError::MissingApiKey));
    let error_msg = error.message();
    assert_eq!(error_msg, "GROQ_API environment variable not set");
    assert!(error_msg.contains(API_KEY_VARIABLE));
}

#[test]
fn test_trait_implementation_structure() {
    let success_result: Result<TestUser, String> = Ok(TestUser {
        id: 1,
        name: "Test".to_string(),
        email: "test@example.com".to_string(),
    });
    let state = success_result.clone().unwrap_or_ai_impl();
    assert!(matches!(state, Resolution::Returned(ref kept) if *kept == success_result));

    let some_option: Option<TestProduct> =
        Some(TestProduct { id: 1, name: "Test Product".to_string(), price: 10.0 });
    let state = some_option.clone().unwrap_or_ai_impl();
    assert!(matches!(state, Resolution::Returned(ref kept) if *kept == some_option));
}

#[test]
fn absent_option_recovers_into_a_present_option() {
    let mut calls = 0;
    let state = resolve(
        get_optional_product_none(123),
        Some("k".to_string()),
        Policy::KeepOriginal,
        &mut || {
            calls += 1;
            Ok(TestProduct { id: 123, name: "Widget".to_string(), price: 9.99 })
        },
    );
    assert!(matches!(state, Resolution::Recovered(_)));
    assert_eq!(
        state.into_outcome().unwrap(),
        Some(TestProduct { id: 123, name: "Widget".to_string(), price: 9.99 })
    );
    assert_eq!(calls, 1);
}

#[test]
fn failed_result_recovers_into_a_success_result() {
    let mut calls = 0;
    let state = resolve(get_user_failure(42), Some("k".to_string()), Policy::Abort, &mut || {
        calls += 1;
        Ok(TestUser { id: 42, name: "Ann".to_string(), email: "ann@example.com".to_string() })
    });
    assert_eq!(
        state.into_outcome().unwrap(),
        Ok(TestUser { id: 42, name: "Ann".to_string(), email: "ann@example.com".to_string() })
    );
    assert_eq!(calls, 1);
}

#[test]
fn rejected_request_keeps_the_original_error() {
    let mut calls = 0;
    let state =
        resolve(get_user_failure(7), Some("k".to_string()), Policy::KeepOriginal, &mut || {
            calls += 1;
            Err(BackendError::Status("unauthorized".to_string()))
        });
    match state {
        Resolution::Unrecovered(original, error) => {
            assert_eq!(original, Err("User with id 7 not found in database".to_string()));
            assert_eq!(error.message(), "API request failed: unauthorized");
        }
        other => panic!("unexpected state {:?}", other),
    }
    assert_eq!(calls, 1);
}

#[test]
fn rejected_request_aborts_under_the_aborting_policy() {
    let mut calls = 0;
    let state = resolve(get_user_failure(7), Some("k".to_string()), Policy::Abort, &mut || {
        calls += 1;
        Err(BackendError::Status("unauthorized".to_string()))
    });
    assert!(matches!(state, Resolution::Aborted(Err(_), RecoveryError::Backend(_))));
    assert!(state.into_outcome().is_none());
    assert_eq!(calls, 1);
}

#[test]
fn recover_leaves_an_outcome_with_a_value_alone() {
    let kept: Result<u32, String> = Ok(5);
    let state = kept.recover(Ok(9), Policy::KeepOriginal);
    assert!(matches!(state, Resolution::Returned(Ok(5))));
    let state = Some(5u32).recover(Err(RecoveryError::MissingApiKey), Policy::Abort);
    assert!(matches!(state, Resolution::Returned(Some(5))));
}

#[test]
fn awaiting_recovery_delivers_nothing() {
    let state = None::<u32>.unwrap_or_ai_impl();
    assert!(matches!(state, Resolution::AwaitingRecovery(None)));
    assert!(state.into_outcome().is_none());
}

#[test]
fn has_value_and_into_value_or() {
    let ok: Result<u32, String> = Ok(3);
    let err: Result<u32, String> = Err("no".to_string());
    assert!(ok.has_value());
    assert!(!err.has_value());
    assert!(Some(1u32).has_value());
    assert!(!None::<u32>.has_value());
    assert_eq!(ok.into_value_or(8), 3);
    assert_eq!(err.into_value_or(8), 8);
    assert_eq!(Some(1u32).into_value_or(8), 1);
    assert_eq!(None::<u32>.into_value_or(8), 8);
}

#[test]
fn recovery_result_wraps_the_backend_error() {
    assert!(matches!(recovery_result::<u32>(Ok(4)), Ok(4)));
    assert!(matches!(
        recovery_result::<u32>(Err(BackendError::NoChoices)),
        Err(RecoveryError::Backend(BackendError::NoChoices))
    ));
}

#[test]
fn recovery_request_carries_instruction_prompt_and_schema() {
    let request = call_ai_for_type(
        Some("test-key".to_string()),
        "Test prompt",
        "demo::TestUser",
        user_schema(),
    )
    .ok()
    .unwrap();
    assert_eq!(request.url, "https://api.groq.com/openai/v1/chat/completions");
    assert_eq!(request.authorization, "Bearer test-key");
    assert_eq!(request.content_type, "application/json");
    let body = &request.body;
    assert_eq!(body["model"], Value::from("moonshotai/kimi-k2-instruct"));
    assert_eq!(body["messages"].as_array().unwrap().len(), 2);
    assert_eq!(body["messages"][0]["role"], Value::from("system"));
    assert_eq!(body["messages"][0]["content"], Value::from(SYSTEM_INSTRUCTION));
    assert_eq!(body["messages"][1]["role"], Value::from("user"));
    assert_eq!(body["messages"][1]["content"], Value::from("Test prompt"));
    assert_eq!(body["response_format"]["type"], Value::from("json_schema"));
    assert_eq!(body["response_format"]["json_schema"]["name"], Value::from("testuser"));
    assert_eq!(body["response_format"]["json_schema"]["schema"], user_schema());
    assert_eq!(body.as_object().unwrap().len(), 3);
}

#[test]
fn call_prompt_quotes_call_name_arguments_and_source() {
    let prompt = call_prompt("get_user", "42, \"theme\"", "fn get_user () { }");
    assert_eq!(
        prompt,
        "The following function call failed: get_user(42, \"theme\")
                Function name: get_user
                Parameters: \"42, \\\"theme\\\"\"
                Source code: fn get_user () { }
                
                This function should return the appropriate type. Generate a reasonable response as valid JSON."
    );
}

#[test]
fn call_prompt_agrees_with_format() {
    let prompt = call_prompt("f", "1", "src");
    let expected = format!(
        "The following function call failed: {}({})
                Function name: {}
                Parameters: {:?}
                Source code: {}
                
                This function should return the appropriate type. Generate a reasonable response as valid JSON.",
        "f", "1", "f", "1", "src"
    );
    assert_eq!(prompt, expected);
}

#[test]
fn expression_prompt_quotes_the_expression() {
    assert_eq!(
        expression_prompt("lookup(3).first()"),
        "The following function call failed: lookup(3).first()
                
                Generate a reasonable response as valid JSON that matches the expected return type."
    );
}

#[test]
fn call_prompt_with_takes_the_quoted_arguments_as_given() {
    assert_eq!(
        call_prompt_with("f", "a, b", "<a, b>", "fn f () { }"),
        "The following function call failed: f(a, b)
                Function name: f
                Parameters: <a, b>
                Source code: fn f () { }
                
                This function should return the appropriate type. Generate a reasonable response as valid JSON."
    );
}

#[test]
fn call_prompt_of_empty_parts() {
    assert_eq!(
        call_prompt("", "", ""),
        "The following function call failed: ()
                Function name: 
                Parameters: \"\"
                Source code: 
                
                This function should return the appropriate type. Generate a reasonable response as valid JSON."
    );
}
