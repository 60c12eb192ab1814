use shaide::models::{check_create_model, openai_list_model, validate_reasoning_effort_values};

fn values(v: &[&str]) -> Vec<String> {
    v.iter().map(|value| (*value).to_owned()).collect()
}

fn bad_request_message(reasoning_effort_values: &[&str]) -> String {
    let answer = check_create_model(&values(reasoning_effort_values)).expect_err("model should be rejected").classify();
    assert_eq!(answer.status, 400);
    answer.body.message.expect("bad request should carry a message")
}

#[test]
fn invalid_reasoning_effort_values_are_rejected() {
    assert_eq!(
        bad_request_message(&["low", "high", "low"]),
        r#"reasoning_effort_values[2] is a duplicate of an earlier value: "low""#
    );

    assert_eq!(
        bad_request_message(&["ultra"]),
        "reasoning_effort_values[0] is not a value chat completions can forward: \"ultra\", \
         expected one of none, minimal, low, medium, high, xhigh"
    );
}

#[test]
fn known_distinct_effort_values_are_accepted() {
    assert!(validate_reasoning_effort_values(&values(&["none", "minimal", "low", "medium", "high", "xhigh"])).is_ok());
    assert!(validate_reasoning_effort_values(&values(&[])).is_ok());
}

#[test]
fn models_are_listed_in_the_openai_shape() {
    let m = openai_list_model("gpt", 1_700_000_000, Some("foundry"));
    assert_eq!(m.id, "gpt");
    assert_eq!(m.object, "model");
    assert_eq!(m.created, 1_700_000_000);
    assert_eq!(m.owned_by, "foundry");
    let m = openai_list_model("gpt", -5, None);
    assert_eq!(m.created, 0);
    assert_eq!(m.owned_by, "shaide");
    assert_eq!(openai_list_model("gpt", 1 << 40, None).created, 0);
}
