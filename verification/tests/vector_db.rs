use shaide::error::RagCollectionError;
use shaide::vector_db::{
    translate_collection_name, user_collection_name, workspace_collection_name, GrpcCode, QdrantFailure,
    RagCollectionParameters,
};

#[test]
fn collection_names_lose_their_slashes() {
    assert_eq!(translate_collection_name("7/workspace".to_owned()), "7_workspace");
    assert_eq!(translate_collection_name("a//b/".to_owned()), "a__b_");
    assert_eq!(translate_collection_name("plain".to_owned()), "plain");
}

#[test]
fn user_and_workspace_collections_are_named_by_user() {
    assert_eq!(user_collection_name(7, "notes"), "7_notes");
    assert_eq!(workspace_collection_name(7, "ws"), "7/ws");
    assert_eq!(translate_collection_name(workspace_collection_name(-3, "ws")), "-3_ws");
}

#[test]
fn collection_parameters_keep_name_and_size() {
    let p = RagCollectionParameters::new("c".to_owned(), 768);
    assert_eq!(p.collection_name(), "c");
    assert_eq!(p.vector_size(), 768);
}

#[test]
fn store_failures_are_classified() {
    let response = |code| QdrantFailure::ResponseError { code, message: "m".to_owned() };
    assert!(matches!(RagCollectionError::from_qdrant(response(GrpcCode::NotFound)), RagCollectionError::CollectionNotFound));
    assert!(matches!(RagCollectionError::from_qdrant(response(GrpcCode::Unavailable)), RagCollectionError::ServiceUnavailble));
    assert!(matches!(
        RagCollectionError::from_qdrant(response(GrpcCode::AlreadyExists)),
        RagCollectionError::CollectionAlreadyExists
    ));
    assert!(matches!(
        RagCollectionError::from_qdrant(response(GrpcCode::Internal)),
        RagCollectionError::Other(m) if m == "qdrant response error (Internal): m"
    ));
    assert!(matches!(
        RagCollectionError::from_qdrant(QdrantFailure::ResourceExhausted { message: "x".to_owned(), retry_after_seconds: 3 }),
        RagCollectionError::ServiceUnavailble
    ));
    assert!(matches!(
        RagCollectionError::from_qdrant(QdrantFailure::NoSnapshotFound("c".to_owned())),
        RagCollectionError::Other(m) if m == "snapshot not found for collection c"
    ));
    assert!(matches!(
        RagCollectionError::from_qdrant(QdrantFailure::Io("disk".to_owned())),
        RagCollectionError::Other(m) if m == "disk"
    ));
}
