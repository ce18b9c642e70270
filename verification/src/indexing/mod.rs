//! Identity of indexing pipelines, naming of indexing tasks, and the error
//! taxonomy of the indexing service with its translation to and from wire
//! statuses.

pub mod error;
pub mod pipeline;
pub mod status;
pub mod task;

pub use pipeline::IndexingPipelineId;
pub use pipeline::PipelineIdView;
pub use task::IndexingTask;
pub use task::IndexingTaskParseError;
pub use error::IndexingError;
pub use status::WireStatus;
pub use error::AskError;
pub use error::ServiceErrorCode;
