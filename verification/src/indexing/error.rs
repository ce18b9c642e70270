//! The errors of the indexing service, and how they cross a process
//! boundary.
//!
//! An error leaves as a wire status and is rebuilt from one on the other
//! side. The way back is lossy by design: a status carries a code and a
//! message for people, not the fields of the error, so a rebuilt error holds
//! placeholders where the error that was sent held values.

use vstd::prelude::*;
use vstd::std_specs::convert::FromSpecImpl;
use vstd::string::StringExecFns;
use crate::indexing::pipeline::IndexingPipelineId;
use crate::indexing::pipeline::PipelineIdView;
use crate::indexing::status::plain_view;
use crate::indexing::status::WireStatus;
use crate::indexing::status::WireStatusView;
use crate::text::decimal;
use crate::text::decimal_string;
use crate::text::enclose;

verus! {

/// What can go wrong in the indexing service.
#[derive(Debug)]
pub enum IndexingError {
    /// No pipeline runs for this index and source.
    MissingPipeline { index_id: String, source_id: String },
    /// A pipeline with this ordinal already runs for this index and source.
    PipelineAlreadyExists { index_id: String, source_id: String, pipeline_ord: usize },
    /// An input or output operation failed; the text is its cause.
    Io(String),
    /// The request is invalid; the text is the reason.
    InvalidParams(String),
    /// These pipelines could not be started.
    SpawnPipelinesError { pipeline_ids: Vec<IndexingPipelineId> },
    /// The metastore failed.
    MetastoreError(String),
    /// The storage of an index could not be resolved.
    StorageResolverError(String),
    /// Something else failed inside the service.
    Internal(String),
    /// The service cannot take requests now; a later try may succeed.
    Unavailable,
}

/// What an [`IndexingError`] stands for.
pub enum IndexingErrorView {
    MissingPipeline { index_id: Seq<char>, source_id: Seq<char> },
    PipelineAlreadyExists { index_id: Seq<char>, source_id: Seq<char>, pipeline_ord: nat },
    Io(Seq<char>),
    InvalidParams(Seq<char>),
    SpawnPipelinesError { pipeline_ids: Seq<PipelineIdView> },
    MetastoreError(Seq<char>),
    StorageResolverError(Seq<char>),
    Internal(Seq<char>),
    Unavailable,
}

/// The views of a list of pipeline identities, in order.
pub open spec fn pipeline_ids_view(pipeline_ids: Seq<IndexingPipelineId>) -> Seq<PipelineIdView> {
    pipeline_ids.map_values(|id: IndexingPipelineId| id@)
}

impl View for IndexingError {
    type V = IndexingErrorView;

    open spec fn view(&self) -> IndexingErrorView {
        match self {
            IndexingError::MissingPipeline { index_id, source_id } => {
                IndexingErrorView::MissingPipeline { index_id: index_id@, source_id: source_id@ }
            },
            IndexingError::PipelineAlreadyExists { index_id, source_id, pipeline_ord } => {
                IndexingErrorView::PipelineAlreadyExists {
                    index_id: index_id@,
                    source_id: source_id@,
                    pipeline_ord: *pipeline_ord as nat,
                }
            },
            IndexingError::Io(cause) => IndexingErrorView::Io(cause@),
            IndexingError::InvalidParams(cause) => IndexingErrorView::InvalidParams(cause@),
            IndexingError::SpawnPipelinesError { pipeline_ids } => {
                IndexingErrorView::SpawnPipelinesError {
                    pipeline_ids: pipeline_ids_view(pipeline_ids@),
                }
            },
            IndexingError::MetastoreError(cause) => IndexingErrorView::MetastoreError(cause@),
            IndexingError::StorageResolverError(cause) => IndexingErrorView::StorageResolverError(
                cause@,
            ),
            IndexingError::Internal(cause) => IndexingErrorView::Internal(cause@),
            IndexingError::Unavailable => IndexingErrorView::Unavailable,
        }
    }
}

/// How the standard library's debug formatting writes a list of pipeline
/// identities.
pub uninterp spec fn pipeline_ids_listing(pipeline_ids: Seq<PipelineIdView>) -> Seq<char>;

/// Writes a list of pipeline identities with the debug formatting of the
/// standard library (`{:?}` on a `Vec`). The text is a function of the
/// identities alone; the contract gives it a name and says nothing of its
/// shape.
#[verifier::external_body]
fn list_pipeline_ids(pipeline_ids: &Vec<IndexingPipelineId>) -> (listing: String)
    ensures
        listing@ == pipeline_ids_listing(pipeline_ids_view(pipeline_ids@)),
{
    format!("{:?}", pipeline_ids)
}

/// The message of the status that reports pipelines that did not start.
pub open spec fn spawn_failure_message(listing: Seq<char>) -> Seq<char> {
    "Error spawning pipelines "@ + listing
}

/// Puts the listing of the pipelines that did not start into the message of
/// their status.
pub fn spawn_failure_text(listing: &str) -> (message: String)
    ensures
        message@ == spawn_failure_message(listing@),
{
    let mut message = String::from_str("Error spawning pipelines ");
    message.append(listing);
    message
}

/// The wire status of an error.
///
/// | error | code | message |
/// |---|---|---|
/// | missing pipeline | not found | index and source |
/// | pipeline already exists | already exists | index, source and ordinal |
/// | invalid parameters | invalid argument | the reason |
/// | I/O, spawn failure, metastore, storage resolver, internal | internal | the cause, or the pipelines |
/// | unavailable | unavailable | a fixed text |
pub open spec fn status_of(error: IndexingErrorView) -> WireStatusView {
    match error {
        IndexingErrorView::MissingPipeline { index_id, source_id } => WireStatusView {
            code: tonic::Code::NotFound,
            message: "Missing pipeline "@ + index_id + "/"@ + source_id,
        },
        IndexingErrorView::PipelineAlreadyExists {
            index_id,
            source_id,
            pipeline_ord,
        } => WireStatusView {
            code: tonic::Code::AlreadyExists,
            message: "Pipeline "@ + index_id + "/"@ + source_id + " "@ + decimal(pipeline_ord)
                + " already exists "@,
        },
        IndexingErrorView::Io(cause) => WireStatusView {
            code: tonic::Code::Internal,
            message: cause,
        },
        IndexingErrorView::InvalidParams(cause) => WireStatusView {
            code: tonic::Code::InvalidArgument,
            message: cause,
        },
        IndexingErrorView::SpawnPipelinesError { pipeline_ids } => WireStatusView {
            code: tonic::Code::Internal,
            message: spawn_failure_message(pipeline_ids_listing(pipeline_ids)),
        },
        IndexingErrorView::MetastoreError(cause) => WireStatusView {
            code: tonic::Code::Internal,
            message: cause,
        },
        IndexingErrorView::StorageResolverError(cause) => WireStatusView {
            code: tonic::Code::Internal,
            message: cause,
        },
        IndexingErrorView::Internal(cause) => WireStatusView {
            code: tonic::Code::Internal,
            message: cause,
        },
        IndexingErrorView::Unavailable => WireStatusView {
            code: tonic::Code::Unavailable,
            message: "Indexing service is unavailable."@,
        },
    }
}

/// The error that a receiver rebuilds from a wire status.
///
/// Only the code decides. `not found` and `already exists` give their error
/// with empty identifiers and ordinal zero, `unavailable` gives
/// `Unavailable`, and every other code gives `InvalidParams` with the
/// message of the status.
pub open spec fn error_of(status: WireStatusView) -> IndexingErrorView {
    match status.code {
        tonic::Code::NotFound => IndexingErrorView::MissingPipeline {
            index_id: Seq::empty(),
            source_id: Seq::empty(),
        },
        tonic::Code::AlreadyExists => IndexingErrorView::PipelineAlreadyExists {
            index_id: Seq::empty(),
            source_id: Seq::empty(),
            pipeline_ord: 0,
        },
        tonic::Code::Unavailable => IndexingErrorView::Unavailable,
        _ => IndexingErrorView::InvalidParams(status.message),
    }
}

impl From<IndexingError> for WireStatus {
    /// Turns an error into the status that reports it on the wire.
    fn from(error: IndexingError) -> (status: WireStatus)
        ensures
            status@ == status_of(error@),
    {
        match error {
            IndexingError::MissingPipeline { index_id, source_id } => {
                let mut message = String::from_str("Missing pipeline ");
                message.append(index_id.as_str());
                message.append("/");
                message.append(source_id.as_str());
                WireStatus::new(tonic::Code::NotFound, message)
            },
            IndexingError::PipelineAlreadyExists { index_id, source_id, pipeline_ord } => {
                let ordinal = decimal_string(pipeline_ord);
                let mut message = String::from_str("Pipeline ");
                message.append(index_id.as_str());
                message.append("/");
                message.append(source_id.as_str());
                message.append(" ");
                message.append(ordinal.as_str());
                message.append(" already exists ");
                WireStatus::new(tonic::Code::AlreadyExists, message)
            },
            IndexingError::Io(cause) => WireStatus::new(tonic::Code::Internal, cause),
            IndexingError::InvalidParams(cause) => WireStatus::new(
                tonic::Code::InvalidArgument,
                cause,
            ),
            IndexingError::SpawnPipelinesError { pipeline_ids } => {
                let listing = list_pipeline_ids(&pipeline_ids);
                WireStatus::new(tonic::Code::Internal, spawn_failure_text(listing.as_str()))
            },
            IndexingError::Internal(cause) => WireStatus::new(tonic::Code::Internal, cause),
            IndexingError::MetastoreError(cause) => WireStatus::new(tonic::Code::Internal, cause),
            IndexingError::StorageResolverError(cause) => WireStatus::new(
                tonic::Code::Internal,
                cause,
            ),
            IndexingError::Unavailable => WireStatus::new(
                tonic::Code::Unavailable,
                String::from_str("Indexing service is unavailable."),
            ),
        }
    }
}

impl FromSpecImpl<IndexingError> for WireStatus {
    open spec fn obeys_from_spec() -> bool {
        false
    }

    open spec fn from_spec(error: IndexingError) -> WireStatus {
        arbitrary()
    }
}

impl From<WireStatus> for IndexingError {
    /// Rebuilds an error from the status that reported it.
    fn from(status: WireStatus) -> (error: IndexingError)
        ensures
            error@ == error_of(status@),
    {
        match status.code {
            tonic::Code::InvalidArgument => IndexingError::InvalidParams(status.message),
            tonic::Code::NotFound => IndexingError::MissingPipeline {
                index_id: String::new(),
                source_id: String::new(),
            },
            tonic::Code::AlreadyExists => IndexingError::PipelineAlreadyExists {
                index_id: String::new(),
                source_id: String::new(),
                pipeline_ord: 0,
            },
            tonic::Code::Unavailable => IndexingError::Unavailable,
            _ => IndexingError::InvalidParams(status.message),
        }
    }
}

impl FromSpecImpl<WireStatus> for IndexingError {
    open spec fn obeys_from_spec() -> bool {
        false
    }

    open spec fn from_spec(status: WireStatus) -> IndexingError {
        arbitrary()
    }
}

/// An error that a receiver can rebuild from a status: a pipeline error with
/// placeholders, `Unavailable`, or invalid parameters with some reason.
pub open spec fn is_rebuilt(error: IndexingErrorView) -> bool {
    exists|status: WireStatusView| error == error_of(status)
}

impl From<IndexingError> for tonic::Status {
    /// Turns an error into the status of the RPC layer that reports it: the
    /// one that holds the code and the message of its wire status.
    fn from(error: IndexingError) -> (status: tonic::Status)
        ensures
            plain_view(status) == status_of(error@),
    {
        WireStatus::from(error).into_rpc()
    }
}

impl FromSpecImpl<IndexingError> for tonic::Status {
    open spec fn obeys_from_spec() -> bool {
        false
    }

    open spec fn from_spec(error: IndexingError) -> tonic::Status {
        arbitrary()
    }
}

impl From<tonic::Status> for IndexingError {
    /// Rebuilds an error from a status of the RPC layer: from its code and
    /// its message, as from the wire status that holds the two.
    fn from(status: tonic::Status) -> (error: IndexingError)
        ensures
            error@ == error_of(plain_view(status)),
            is_rebuilt(error@),
    {
        IndexingError::from(WireStatus::from_rpc(&status))
    }
}

impl FromSpecImpl<tonic::Status> for IndexingError {
    open spec fn obeys_from_spec() -> bool {
        false
    }

    open spec fn from_spec(status: tonic::Status) -> IndexingError {
        arbitrary()
    }
}

/// What a receiver rebuilds is a pipeline error without its fields,
/// `Unavailable`, or invalid parameters: no other kind comes out of a status.
pub proof fn lemma_rebuilt_kinds(error: IndexingErrorView)
    requires
        is_rebuilt(error),
    ensures
        error is MissingPipeline || error is PipelineAlreadyExists || error is Unavailable
            || error is InvalidParams,
        error matches IndexingErrorView::MissingPipeline { index_id, source_id } ==> index_id.len()
            == 0 && source_id.len() == 0,
        error matches IndexingErrorView::PipelineAlreadyExists {
            index_id,
            source_id,
            pipeline_ord,
        } ==> index_id.len() == 0 && source_id.len() == 0 && pipeline_ord == 0,
{
}

/// The class of an error as a service reports it to its callers.
#[derive(Clone, Copy, Debug, PartialEq, Eq, Structural, Hash)]
pub enum ServiceErrorCode {
    BadRequest,
    Internal,
    NotFound,
    Unavailable,
}

/// The class of each error.
pub open spec fn service_code_of(error: IndexingErrorView) -> ServiceErrorCode {
    match error {
        IndexingErrorView::MissingPipeline { .. } => ServiceErrorCode::NotFound,
        IndexingErrorView::PipelineAlreadyExists { .. } => ServiceErrorCode::BadRequest,
        IndexingErrorView::InvalidParams(_) => ServiceErrorCode::BadRequest,
        IndexingErrorView::SpawnPipelinesError { .. } => ServiceErrorCode::Internal,
        IndexingErrorView::Io(_) => ServiceErrorCode::Internal,
        IndexingErrorView::Internal(_) => ServiceErrorCode::Internal,
        IndexingErrorView::MetastoreError(_) => ServiceErrorCode::Internal,
        IndexingErrorView::StorageResolverError(_) => ServiceErrorCode::Internal,
        IndexingErrorView::Unavailable => ServiceErrorCode::Unavailable,
    }
}

/// The text of each error.
pub open spec fn error_message(error: IndexingErrorView) -> Seq<char> {
    match error {
        IndexingErrorView::MissingPipeline { index_id, source_id } => {
            "Indexing pipeline `"@ + index_id + "` for source `"@ + source_id
                + "` does not exist."@
        },
        IndexingErrorView::PipelineAlreadyExists { index_id, source_id, pipeline_ord } => {
            "Pipeline #"@ + decimal(pipeline_ord) + " for index `"@ + index_id
                + "` and source `"@ + source_id + "` already exists."@
        },
        IndexingErrorView::Io(cause) => "I/O Error `"@ + cause + "`."@,
        IndexingErrorView::InvalidParams(cause) => "Invalid params `"@ + cause + "`."@,
        IndexingErrorView::SpawnPipelinesError { pipeline_ids } => {
            "Spanw pipelines errors `"@ + pipeline_ids_listing(pipeline_ids) + "`."@
        },
        IndexingErrorView::MetastoreError(cause) => {
            "A metastore error occurred: "@ + cause + "."@
        },
        IndexingErrorView::StorageResolverError(cause) => {
            "A storage resolver error occurred: "@ + cause + "."@
        },
        IndexingErrorView::Internal(cause) => "An internal error occurred: "@ + cause + "."@,
        IndexingErrorView::Unavailable => "The ingest service is unavailable."@,
    }
}

impl IndexingError {
    /// The class under which a service reports this error.
    pub fn status_code(&self) -> (code: ServiceErrorCode)
        ensures
            code == service_code_of(self@),
    {
        match self {
            IndexingError::MissingPipeline { .. } => ServiceErrorCode::NotFound,
            IndexingError::PipelineAlreadyExists { .. } => ServiceErrorCode::BadRequest,
            IndexingError::InvalidParams(_) => ServiceErrorCode::BadRequest,
            IndexingError::SpawnPipelinesError { .. } => ServiceErrorCode::Internal,
            IndexingError::Io(_) => ServiceErrorCode::Internal,
            IndexingError::Internal(_) => ServiceErrorCode::Internal,
            IndexingError::MetastoreError(_) => ServiceErrorCode::Internal,
            IndexingError::StorageResolverError(_) => ServiceErrorCode::Internal,
            IndexingError::Unavailable => ServiceErrorCode::Unavailable,
        }
    }

    /// The text of this error.
    pub fn to_string(&self) -> (message: String)
        ensures
            message@ == error_message(self@),
    {
        match self {
            IndexingError::MissingPipeline { index_id, source_id } => {
                let mut message = String::from_str("Indexing pipeline `");
                message.append(index_id.as_str());
                message.append("` for source `");
                message.append(source_id.as_str());
                message.append("` does not exist.");
                message
            },
            IndexingError::PipelineAlreadyExists { index_id, source_id, pipeline_ord } => {
                let ordinal = decimal_string(*pipeline_ord);
                let mut message = String::from_str("Pipeline #");
                message.append(ordinal.as_str());
                message.append(" for index `");
                message.append(index_id.as_str());
                message.append("` and source `");
                message.append(source_id.as_str());
                message.append("` already exists.");
                message
            },
            IndexingError::Io(cause) => enclose("I/O Error `", cause.as_str(), "`."),
            IndexingError::InvalidParams(cause) => enclose(
                "Invalid params `",
                cause.as_str(),
                "`.",
            ),
            IndexingError::SpawnPipelinesError { pipeline_ids } => {
                let listing = list_pipeline_ids(pipeline_ids);
                enclose("Spanw pipelines errors `", listing.as_str(), "`.")
            },
            IndexingError::MetastoreError(cause) => enclose(
                "A metastore error occurred: ",
                cause.as_str(),
                ".",
            ),
            IndexingError::StorageResolverError(cause) => enclose(
                "A storage resolver error occurred: ",
                cause.as_str(),
                ".",
            ),
            IndexingError::Internal(cause) => enclose(
                "An internal error occurred: ",
                cause.as_str(),
                ".",
            ),
            IndexingError::Unavailable => String::from_str("The ingest service is unavailable."),
        }
    }
}

/// How a request to a local service can fail to bring back its answer.
#[derive(Debug)]
pub enum AskError<E> {
    /// The request never reached the service, or no answer came.
    MessageNotDelivered,
    /// The service failed while it handled the request.
    ProcessMessageError,
    /// The service answered with an error of its own.
    ErrorReply(E),
}

/// The error that stands for a failed request to the local service: the
/// service's own error where it answered with one, `Unavailable` where no
/// answer came, and `Internal` with a fixed text where the service failed.
pub open spec fn absorbed(failure: AskError<IndexingError>) -> IndexingErrorView {
    match failure {
        AskError::ErrorReply(error) => error@,
        AskError::MessageNotDelivered => IndexingErrorView::Unavailable,
        AskError::ProcessMessageError => IndexingErrorView::Internal(
            "An error occurred while processing the request"@,
        ),
    }
}

impl From<AskError<IndexingError>> for IndexingError {
    /// Takes a failed request to the local service into the taxonomy.
    fn from(failure: AskError<IndexingError>) -> (error: IndexingError)
        ensures
            error@ == absorbed(failure),
            failure matches AskError::ErrorReply(reply) ==> error == reply,
    {
        match failure {
            AskError::ErrorReply(error) => error,
            AskError::MessageNotDelivered => IndexingError::Unavailable,
            AskError::ProcessMessageError => IndexingError::Internal(
                String::from_str("An error occurred while processing the request"),
            ),
        }
    }
}

impl FromSpecImpl<AskError<IndexingError>> for IndexingError {
    open spec fn obeys_from_spec() -> bool {
        false
    }

    open spec fn from_spec(failure: AskError<IndexingError>) -> IndexingError {
        arbitrary()
    }
}

/// What is left of an error after it has crossed the wire: the error that the
/// receiver rebuilds from the status that the sender made.
pub open spec fn after_wire(error: IndexingErrorView) -> IndexingErrorView {
    error_of(status_of(error))
}

/// `Unavailable` crosses the wire unchanged.
pub proof fn lemma_unavailable_round_trip()
    ensures
        after_wire(IndexingErrorView::Unavailable) == IndexingErrorView::Unavailable,
{
}

/// A missing pipeline and an existing pipeline cross the wire as their own
/// kind, with the same code when sent again, but lose their fields: the
/// identifiers come back empty and the ordinal comes back as zero.
pub proof fn lemma_pipeline_errors_round_trip(error: IndexingErrorView)
    requires
        error is MissingPipeline || error is PipelineAlreadyExists,
    ensures
        status_of(after_wire(error)).code == status_of(error).code,
        error is MissingPipeline ==> after_wire(error) == (IndexingErrorView::MissingPipeline {
            index_id: Seq::empty(),
            source_id: Seq::empty(),
        }),
        error is PipelineAlreadyExists ==> after_wire(error)
            == (IndexingErrorView::PipelineAlreadyExists {
            index_id: Seq::empty(),
            source_id: Seq::empty(),
            pipeline_ord: 0,
        }),
{
}

/// Every error crosses the wire to some error, and which one is decided by
/// its kind: `Unavailable` and the two pipeline errors as stated by their own
/// laws, and every other error as `InvalidParams` with the message of its
/// status. Invalid parameters thus keep their reason and their code, while
/// the errors that leave as `internal` come back as invalid parameters.
pub proof fn lemma_round_trip_by_kind(error: IndexingErrorView)
    ensures
        !(error is Unavailable || error is MissingPipeline || error is PipelineAlreadyExists)
            ==> after_wire(error) == IndexingErrorView::InvalidParams(status_of(error).message),
        error is InvalidParams ==> after_wire(error) == error,
        (error is Unavailable || error is MissingPipeline || error is PipelineAlreadyExists
            || error is InvalidParams) <==> (status_of(after_wire(error)).code == status_of(
            error,
        ).code),
{
}

} // verus!
