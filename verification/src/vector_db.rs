//! The vector store's naming and failures: collection names as the store
//! accepts them, the names of a user's collections, and what each failure
//! of the store means to the service.
use vstd::prelude::*;

use crate::error::RagCollectionError;
use crate::text::{chars_of, decimal_int, format_i64, push_chars, push_str, string_from_chars};

verus! {

/// A collection name with every '/' replaced by '_', as the store accepts
/// it.
pub open spec fn translated(name: Seq<char>) -> Seq<char> {
    name.map_values(|c: char| if c == '/' { '_' } else { c })
}

/// Writes a collection name as the store accepts it.
pub fn translate_collection_name(collection_name: String) -> (r: String)
    ensures
        r@ == translated(collection_name@),
{
    let chars = chars_of(collection_name.as_str());
    let mut out: Vec<char> = Vec::new();
    let mut i: usize = 0;
    while i < chars.len()
        invariant
            i <= chars.len(),
            out@ == translated(chars@.take(i as int)),
        decreases chars.len() - i,
    {
        let c = chars[i];
        out.push(if c == '/' { '_' } else { c });
        proof {
            assert(translated(chars@.take(i + 1)) =~= translated(chars@.take(i as int)).push(
                if c == '/' { '_' } else { c },
            ));
        }
        i = i + 1;
    }
    proof {
        assert(chars@.take(chars.len() as int) =~= chars@);
    }
    string_from_chars(&out)
}

/// A translated name has the length of the name, no '/', and every other
/// character in place; translating again changes nothing.
pub proof fn law_translated_name(name: Seq<char>)
    ensures
        translated(name).len() == name.len(),
        forall|i: int| 0 <= i < name.len() ==> (#[trigger] translated(name)[i]) != '/',
        forall|i: int| 0 <= i < name.len() && name[i] != '/' ==> #[trigger] translated(name)[i] == name[i],
        translated(translated(name)) == translated(name),
{
    assert(translated(translated(name)) =~= translated(name));
}

/// What a collection is made with: its name and the size of its vectors.
pub struct RagCollectionParameters {
    collection_name: String,
    vector_size: u64,
}

impl RagCollectionParameters {
    /// The name the collection is made under.
    pub closed spec fn name(&self) -> Seq<char> {
        self.collection_name@
    }

    /// The size of the collection's vectors.
    pub closed spec fn size(&self) -> u64 {
        self.vector_size
    }

    /// Parameters from a name and a vector size.
    pub fn new(collection_name: String, vector_size: u64) -> (r: Self)
        ensures
            r.name() == collection_name@,
            r.size() == vector_size,
    {
        RagCollectionParameters { collection_name, vector_size }
    }

    /// The name the collection is made under.
    pub fn collection_name(&self) -> (r: &str)
        ensures
            r@ == self.name(),
    {
        self.collection_name.as_str()
    }

    /// The size of the collection's vectors.
    pub fn vector_size(&self) -> (r: u64)
        ensures
            r == self.size(),
    {
        self.vector_size
    }
}

/// The name of a user's own collection: the user's id, '_', and the name
/// given.
pub fn user_collection_name(user_id: i64, collection_name: &str) -> (r: String)
    ensures
        r@ == decimal_int(user_id as int) + "_"@ + collection_name@,
{
    let mut v = format_i64(user_id);
    push_str(&mut v, "_");
    push_str(&mut v, collection_name);
    string_from_chars(&v)
}

/// The name of the collection that holds a user's workspace: the user's
/// id, '/', and the workspace id.
pub fn workspace_collection_name(user_id: i64, workspace_id: &str) -> (r: String)
    ensures
        r@ == decimal_int(user_id as int) + "/"@ + workspace_id@,
{
    let mut v = format_i64(user_id);
    push_str(&mut v, "/");
    push_str(&mut v, workspace_id);
    string_from_chars(&v)
}

/// The status codes of the store's gRPC answers.
#[derive(Clone, Copy, Debug, PartialEq, Eq)]
pub enum GrpcCode {
    NoError,
    Cancelled,
    Unknown,
    InvalidArgument,
    DeadlineExceeded,
    NotFound,
    AlreadyExists,
    PermissionDenied,
    ResourceExhausted,
    FailedPrecondition,
    Aborted,
    OutOfRange,
    Unimplemented,
    Internal,
    Unavailable,
    DataLoss,
    Unauthenticated,
}

/// The name a code is written with.
pub open spec fn code_name(c: GrpcCode) -> Seq<char> {
    match c {
        GrpcCode::NoError => "Ok"@,
        GrpcCode::Cancelled => "Cancelled"@,
        GrpcCode::Unknown => "Unknown"@,
        GrpcCode::InvalidArgument => "InvalidArgument"@,
        GrpcCode::DeadlineExceeded => "DeadlineExceeded"@,
        GrpcCode::NotFound => "NotFound"@,
        GrpcCode::AlreadyExists => "AlreadyExists"@,
        GrpcCode::PermissionDenied => "PermissionDenied"@,
        GrpcCode::ResourceExhausted => "ResourceExhausted"@,
        GrpcCode::FailedPrecondition => "FailedPrecondition"@,
        GrpcCode::Aborted => "Aborted"@,
        GrpcCode::OutOfRange => "OutOfRange"@,
        GrpcCode::Unimplemented => "Unimplemented"@,
        GrpcCode::Internal => "Internal"@,
        GrpcCode::Unavailable => "Unavailable"@,
        GrpcCode::DataLoss => "DataLoss"@,
        GrpcCode::Unauthenticated => "Unauthenticated"@,
    }
}

/// Writes the name of a code.
pub fn grpc_code_name(c: GrpcCode) -> (r: &'static str)
    ensures
        r@ == code_name(c),
{
    match c {
        GrpcCode::NoError => "Ok",
        GrpcCode::Cancelled => "Cancelled",
        GrpcCode::Unknown => "Unknown",
        GrpcCode::InvalidArgument => "InvalidArgument",
        GrpcCode::DeadlineExceeded => "DeadlineExceeded",
        GrpcCode::NotFound => "NotFound",
        GrpcCode::AlreadyExists => "AlreadyExists",
        GrpcCode::PermissionDenied => "PermissionDenied",
        GrpcCode::ResourceExhausted => "ResourceExhausted",
        GrpcCode::FailedPrecondition => "FailedPrecondition",
        GrpcCode::Aborted => "Aborted",
        GrpcCode::OutOfRange => "OutOfRange",
        GrpcCode::Unimplemented => "Unimplemented",
        GrpcCode::Internal => "Internal",
        GrpcCode::Unavailable => "Unavailable",
        GrpcCode::DataLoss => "DataLoss",
        GrpcCode::Unauthenticated => "Unauthenticated",
    }
}

/// A failure of the vector store's client, with the texts it carries.
#[derive(Debug)]
pub enum QdrantFailure {
    /// The store answered with an error status.
    ResponseError { code: GrpcCode, message: String },
    /// The store is out of resources for now.
    ResourceExhausted { message: String, retry_after_seconds: u64 },
    /// A value could not be converted.
    Conversion(String),
    /// The store's address is not a valid URI, described.
    InvalidUri(String),
    /// No snapshot exists for the named collection.
    NoSnapshotFound(String),
    /// An I/O failure, described.
    Io(String),
    /// An HTTP failure, described.
    Reqwest(String),
    /// A value could not become a payload, described.
    JsonToPayload(String),
    /// A payload could not be read, described.
    PayloadDeserialization(String),
}

/// What a store failure means: a missing or existing collection, an
/// unavailable store, or anything else, described.
pub open spec fn rag_error_spec(f: QdrantFailure) -> RagErrorShape {
    match f {
        QdrantFailure::ResponseError { code, message } => match code {
            GrpcCode::NotFound => RagErrorShape::CollectionNotFound,
            GrpcCode::Unavailable => RagErrorShape::ServiceUnavailble,
            GrpcCode::AlreadyExists => RagErrorShape::CollectionAlreadyExists,
            other => RagErrorShape::Other(
                "qdrant response error ("@ + code_name(other) + "): "@ + message@,
            ),
        },
        QdrantFailure::ResourceExhausted { .. } => RagErrorShape::ServiceUnavailble,
        QdrantFailure::Conversion(m) => RagErrorShape::Other(m@),
        QdrantFailure::InvalidUri(m) => RagErrorShape::Other(m@),
        QdrantFailure::NoSnapshotFound(name) => RagErrorShape::Other("snapshot not found for collection "@ + name@),
        QdrantFailure::Io(m) => RagErrorShape::Other(m@),
        QdrantFailure::Reqwest(m) => RagErrorShape::Other(m@),
        QdrantFailure::JsonToPayload(m) => RagErrorShape::Other(m@),
        QdrantFailure::PayloadDeserialization(m) => RagErrorShape::Other(m@),
    }
}

/// The abstract content of a [`RagCollectionError`].
pub enum RagErrorShape {
    ServiceUnavailble,
    CollectionNotFound,
    CollectionAlreadyExists,
    Other(Seq<char>),
}

/// The abstract content of a collection error.
pub open spec fn rag_error_view(e: RagCollectionError) -> RagErrorShape {
    match e {
        RagCollectionError::ServiceUnavailble => RagErrorShape::ServiceUnavailble,
        RagCollectionError::CollectionNotFound => RagErrorShape::CollectionNotFound,
        RagCollectionError::CollectionAlreadyExists => RagErrorShape::CollectionAlreadyExists,
        RagCollectionError::Other(m) => RagErrorShape::Other(m@),
    }
}

impl RagCollectionError {
    /// What a failure of the vector store means to the service.
    pub fn from_qdrant(value: QdrantFailure) -> (r: Self)
        ensures
            rag_error_view(r) == rag_error_spec(value),
    {
        match value {
            QdrantFailure::ResponseError { code, message } => match code {
                GrpcCode::NotFound => RagCollectionError::CollectionNotFound,
                GrpcCode::Unavailable => RagCollectionError::ServiceUnavailble,
                GrpcCode::AlreadyExists => RagCollectionError::CollectionAlreadyExists,
                other => {
                    let mut v = chars_of("qdrant response error (");
                    push_str(&mut v, grpc_code_name(other));
                    push_str(&mut v, "): ");
                    push_str(&mut v, message.as_str());
                    RagCollectionError::Other(string_from_chars(&v))
                },
            },
            QdrantFailure::ResourceExhausted { .. } => RagCollectionError::ServiceUnavailble,
            QdrantFailure::Conversion(m) => RagCollectionError::Other(m),
            QdrantFailure::InvalidUri(m) => RagCollectionError::Other(m),
            QdrantFailure::NoSnapshotFound(name) => RagCollectionError::Other(
                crate::text::concat2("snapshot not found for collection ", name.as_str()),
            ),
            QdrantFailure::Io(m) => RagCollectionError::Other(m),
            QdrantFailure::Reqwest(m) => RagCollectionError::Other(m),
            QdrantFailure::JsonToPayload(m) => RagCollectionError::Other(m),
            QdrantFailure::PayloadDeserialization(m) => RagCollectionError::Other(m),
        }
    }
}

} // verus!
