use shaide::completion::{
    build_provider_payload, extract_text_from_provider_response, map_provider_response,
    map_provider_response_with_id,
    render_fim_prompt, Choice, CompletionError, CompletionModel, CompletionRequest, DebugOptions,
    NativeFimMode, ProviderChoice, ProviderCompletionBody, ProviderCompletionResponse,
    ProviderContentPart, ProviderMessage, ProviderMessageContent, ProviderMessageContentPart,
    Segments,
};
use shaide::error::ShaideError;

#[test]
fn render_fim_prompt_replaces_prefix_and_suffix() {
    let rendered = render_fim_prompt(
        Some("<|fim_prefix|>{prefix}<|fim_suffix|>{suffix}<|fim_middle|>"),
        "let value = ",
        "42;",
    )
    .unwrap();

    assert_eq!(
        rendered,
        "<|fim_prefix|>let value = <|fim_suffix|>42;<|fim_middle|>"
    );
}

#[test]
fn render_fim_prompt_requires_both_placeholders() {
    let err = render_fim_prompt(Some("{prefix} only"), "abc", "def").unwrap_err();
    assert!(matches!(err, CompletionError::InvalidFimPromptTemplate));
}

#[test]
fn render_fim_prompt_does_not_mutate_inserted_segments() {
    let rendered = render_fim_prompt(
        Some("before:{prefix}:middle:{suffix}:after"),
        r#"let s = "{suffix}";"#,
        r#"let t = "{prefix}";"#,
    )
    .unwrap();

    assert_eq!(
        rendered,
        r#"before:let s = "{suffix}";:middle:let t = "{prefix}";:after"#
    );
}

fn request(segments: Option<Segments>, debug_options: Option<DebugOptions>) -> CompletionRequest {
    CompletionRequest {
        language: None,
        segments,
        user: None,
        debug_options,
        seed: Some(7),
        model: "test-model".to_owned(),
    }
}

fn segments(prefix: &str, suffix: Option<&str>) -> Segments {
    Segments {
        prefix: prefix.to_owned(),
        suffix: suffix.map(str::to_owned),
        filepath: None,
        git_url: None,
        declarations: None,
        clipboard: None,
    }
}

#[test]
fn completion_request_detects_raw_prompt() {
    let request = request(
        None,
        Some(DebugOptions {
            raw_prompt: Some("return 42;".to_owned()),
            return_snippets: false,
            return_prompt: false,
            disable_retrieval_augmented_code_completion: false,
        }),
    );
    assert!(request.has_raw_prompt());
}

#[test]
fn completion_request_without_raw_prompt_returns_false() {
    let request = request(
        None,
        Some(DebugOptions {
            raw_prompt: None,
            return_snippets: false,
            return_prompt: false,
            disable_retrieval_augmented_code_completion: false,
        }),
    );
    assert!(!request.has_raw_prompt());
}

#[test]
fn render_fim_prompt_without_template_is_missing() {
    assert!(matches!(
        render_fim_prompt(None, "a", "b"),
        Err(CompletionError::MissingFimPromptTemplate)
    ));
}

#[test]
fn render_fim_prompt_repeats_placeholders() {
    assert_eq!(
        render_fim_prompt(Some("{suffix}{prefix}{prefix}"), "P", "S").unwrap(),
        "SPP"
    );
}

#[test]
fn fim_segments_default_the_suffix_to_empty() {
    let r = request(Some(segments("abc", None)), None);
    assert_eq!(r.fim_segments().ok(), Some(("abc", "")));
    let r = request(None, None);
    assert!(matches!(r.fim_segments(), Err(CompletionError::MissingSegments)));
}

fn model(mode: Option<NativeFimMode>, template: Option<&str>) -> CompletionModel {
    CompletionModel {
        name: "m".to_owned(),
        variant: "m-variant".to_owned(),
        max_generated_tokens: 64,
        native_fim_mode: mode,
        fim_prompt_template: template.map(str::to_owned),
    }
}

#[test]
fn payload_by_native_mode() {
    let r = request(Some(segments("pre", Some("suf"))), None);
    let p = build_provider_payload(&r, &model(Some(NativeFimMode::CompletionsSuffix), None)).unwrap();
    assert_eq!(p.prompt, "pre");
    assert_eq!(p.suffix.as_deref(), Some("suf"));
    assert_eq!(p.model, "m-variant");
    assert_eq!(p.max_tokens, 64);
    assert_eq!(p.seed, Some(7));
    assert!(!p.stream);

    let p = build_provider_payload(
        &r,
        &model(Some(NativeFimMode::FimTokens), Some("<p>{prefix}<s>{suffix}<m>")),
    )
    .unwrap();
    assert_eq!(p.prompt, "<p>pre<s>suf<m>");
    assert_eq!(p.suffix, None);

    match build_provider_payload(&r, &model(None, None)) {
        Err(ShaideError::BadRequestWithMessage(m)) => assert_eq!(m, "unsupported-native-fim"),
        _ => panic!("expected a bad request"),
    }
    match build_provider_payload(&r, &model(Some(NativeFimMode::FimTokens), None)) {
        Err(ShaideError::BadRequestWithMessage(m)) => {
            assert_eq!(m, "fim prompt template is not configured")
        }
        _ => panic!("expected a bad request"),
    }
    match build_provider_payload(&request(None, None), &model(None, None)) {
        Err(ShaideError::BadRequestWithMessage(m)) => {
            assert_eq!(m, "missing completion segments in request")
        }
        _ => panic!("expected a bad request"),
    }
}

#[test]
fn provider_text_is_read_from_each_shape() {
    let text = |body| extract_text_from_provider_response(&ProviderCompletionResponse { id: None, body });
    assert_eq!(
        text(ProviderCompletionBody::Choices {
            choices: vec![ProviderChoice::Text { text: "x".to_owned() }]
        }),
        Some("x".to_owned())
    );
    assert_eq!(
        text(ProviderCompletionBody::Choices {
            choices: vec![ProviderChoice::Message {
                message: ProviderMessage {
                    content: ProviderMessageContent::Parts(vec![
                        ProviderMessageContentPart { text: Some("a".to_owned()) },
                        ProviderMessageContentPart { text: None },
                        ProviderMessageContentPart { text: Some("b".to_owned()) },
                    ])
                }
            }]
        }),
        Some("ab".to_owned())
    );
    assert_eq!(text(ProviderCompletionBody::Choices { choices: vec![] }), None);
    assert_eq!(
        text(ProviderCompletionBody::Content {
            content: vec![
                ProviderContentPart { text: "c".to_owned() },
                ProviderContentPart { text: "d".to_owned() }
            ]
        }),
        Some("cd".to_owned())
    );
    assert_eq!(
        text(ProviderCompletionBody::Content {
            content: vec![ProviderContentPart { text: String::new() }]
        }),
        None
    );
}

#[test]
fn provider_response_keeps_or_fills_the_id() {
    let body = || ProviderCompletionBody::Choices {
        choices: vec![ProviderChoice::Text { text: "t".to_owned() }],
    };
    let c = map_provider_response_with_id(
        ProviderCompletionResponse { id: Some("abc".to_owned()), body: body() },
        "cmpl-x".to_owned(),
    )
    .unwrap();
    assert_eq!(c.id, "abc");
    assert_eq!(c.choices.len(), 1);
    assert_eq!(c.choices[0].index, 0);
    assert_eq!(c.choices[0].text, "t");
    let c = map_provider_response_with_id(
        ProviderCompletionResponse { id: None, body: body() },
        "cmpl-x".to_owned(),
    )
    .unwrap();
    assert_eq!(c.id, "cmpl-x");
    assert!(matches!(
        map_provider_response_with_id(
            ProviderCompletionResponse {
                id: None,
                body: ProviderCompletionBody::Choices { choices: vec![] }
            },
            "cmpl-x".to_owned()
        ),
        Err(ShaideError::InternalServerError(_))
    ));
    let choice = Choice::new("q".to_owned());
    assert_eq!(choice.index, 0);
}

#[test]
fn provider_response_without_id_gets_a_fresh_completion_id() {
    let c = map_provider_response(ProviderCompletionResponse {
        id: None,
        body: ProviderCompletionBody::Choices { choices: vec![ProviderChoice::Text { text: "t".to_owned() }] },
    })
    .unwrap();
    assert!(c.id.starts_with("cmpl-"));
    assert_eq!(c.id.len(), "cmpl-".len() + 36);
    let d = map_provider_response(ProviderCompletionResponse {
        id: Some("given".to_owned()),
        body: ProviderCompletionBody::Choices { choices: vec![ProviderChoice::Text { text: "t".to_owned() }] },
    })
    .unwrap();
    assert_eq!(d.id, "given");
}

#[test]
fn raw_prompt_goes_to_the_engine_as_it_is() {
    let debug = DebugOptions {
        raw_prompt: Some("return 42;".to_owned()),
        return_snippets: false,
        return_prompt: false,
        disable_retrieval_augmented_code_completion: false,
    };
    let r = request(Some(segments("pre", Some("suf"))), Some(debug));
    let p = build_provider_payload(&r, &model(Some(NativeFimMode::FimTokens), Some("<p>{prefix}<s>{suffix}<m>"))).unwrap();
    assert_eq!(p.prompt, "return 42;");
    assert_eq!(p.suffix, None);
    assert_eq!(p.model, "m-variant");
    assert_eq!(p.seed, Some(7));
    let debug = DebugOptions {
        raw_prompt: Some("x".to_owned()),
        return_snippets: false,
        return_prompt: false,
        disable_retrieval_augmented_code_completion: false,
    };
    let p = build_provider_payload(&request(None, Some(debug)), &model(None, None)).unwrap();
    assert_eq!(p.prompt, "x");
}
