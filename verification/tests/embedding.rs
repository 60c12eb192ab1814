use shaide::embedding::{
    check_dimensions, embedding_texts, find_embedding_model, hash_content, order_by_index, EmbeddingInput,
    EmbeddingModel, Indexed, MAX_EMBEDDING_INPUTS,
};
use shaide::error::ShaideError;

fn model(vector_size: i64) -> EmbeddingModel {
    EmbeddingModel {
        id: 1,
        url: "https://example.com/embeddings".to_owned(),
        name: "text-embedding-3-large".to_owned(),
        vector_size,
        platform: Some("foundry".to_owned()),
    }
}

#[test]
fn string_and_string_array_inputs_are_accepted() {
    assert_eq!(embedding_texts(EmbeddingInput::String("hello".to_owned())).unwrap(), vec!["hello"]);
    assert_eq!(
        embedding_texts(EmbeddingInput::StringArray(vec!["a".to_owned(), "b".to_owned()])).unwrap(),
        vec!["a", "b"]
    );
}

#[test]
fn invalid_inputs_are_rejected() {
    let cases = [
        (EmbeddingInput::IntegerArray(vec![1, 2]), "Token array input"),
        (EmbeddingInput::ArrayOfIntegerArray(vec![vec![1]]), "Token array input"),
        (EmbeddingInput::StringArray(vec![]), "at least one string"),
        (EmbeddingInput::String(String::new()), "input[0] is empty"),
        (EmbeddingInput::StringArray(vec!["a".to_owned(), String::new()]), "input[1] is empty"),
        (EmbeddingInput::StringArray(vec!["a".to_owned(); MAX_EMBEDDING_INPUTS + 1]), "must not contain more than 2048"),
    ];
    for (input, want) in cases {
        let answer = embedding_texts(input).unwrap_err().classify();
        assert_eq!(answer.status, 400);
        let message = answer.body.message.unwrap();
        assert!(message.contains(want), "message {message:?} lacks {want:?}");
    }
}

#[test]
fn dimensions_must_match_the_model() {
    assert!(check_dimensions(None, &model(3072)).is_ok());
    assert!(check_dimensions(Some(3072), &model(3072)).is_ok());

    let answer = check_dimensions(Some(256), &model(3072)).unwrap_err().classify();
    assert_eq!(answer.status, 400);
    assert!(answer.body.message.unwrap().contains("returns 3072 dimensions"));
}

#[test]
fn embedding_model_is_found_by_name() {
    let found = find_embedding_model(vec![model(3072)], "text-embedding-3-large").unwrap();
    assert_eq!(found.vector_size, 3072);

    let answer = find_embedding_model(vec![model(3072)], "missing").unwrap_err().classify();
    assert_eq!(answer.status, 404);
    assert_eq!(answer.body.error.code.as_deref(), Some("model_not_found"));
}

#[test]
fn refusal_messages_are_exact() {
    let message = |input| match embedding_texts(input) {
        Err(ShaideError::BadRequest(m)) => m,
        other => panic!("unexpected {other:?}"),
    };
    assert_eq!(
        message(EmbeddingInput::StringArray(vec!["a".to_owned(); 2049])),
        "input must not contain more than 2048 strings, got 2049"
    );
    assert_eq!(
        message(EmbeddingInput::StringArray(vec!["a".to_owned(), "b".to_owned(), String::new(), String::new()])),
        "input[2] is empty, every input must be a non-empty string"
    );
    match check_dimensions(Some(256), &model(3072)) {
        Err(ShaideError::BadRequest(m)) => assert_eq!(
            m,
            "Embedding model 'text-embedding-3-large' returns 3072 dimensions; dimensions=256 is not supported"
        ),
        other => panic!("unexpected {other:?}"),
    }
}

#[test]
fn the_first_model_of_a_name_is_taken() {
    let mut second = model(10);
    second.id = 2;
    let found = find_embedding_model(vec![model(3072), second], "text-embedding-3-large").unwrap();
    assert_eq!(found.id, 1);
}

#[test]
fn snippet_keys_are_fnv1a_hashes() {
    assert_eq!(hash_content(""), 0xcbf29ce484222325);
    assert_eq!(hash_content("a"), 0xaf63dc4c8601ec8c);
    assert_eq!(hash_content("foobar"), 0x85944171f73967e8);
}

#[test]
fn provider_vectors_are_put_in_index_order() {
    let items = vec![
        Indexed { index: 2, item: "c" },
        Indexed { index: 0, item: "a" },
        Indexed { index: 1, item: "b" },
    ];
    assert_eq!(order_by_index(items), Some(vec!["a", "b", "c"]));
    let gap = vec![Indexed { index: 0, item: "a" }, Indexed { index: 2, item: "c" }];
    assert_eq!(order_by_index(gap), None);
    let twice = vec![Indexed { index: 0, item: "a" }, Indexed { index: 0, item: "b" }];
    assert_eq!(order_by_index(twice), None);
    assert_eq!(order_by_index::<u8>(vec![]), Some(vec![]));
}
