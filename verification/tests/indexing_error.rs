use quickwit_control::indexing::AskError;
use quickwit_control::indexing::IndexingError;
use quickwit_control::indexing::IndexingPipelineId;
use quickwit_control::indexing::ServiceErrorCode;
use quickwit_control::indexing::WireStatus;
use tonic::Code;

fn pipeline(ord: usize) -> IndexingPipelineId {
    IndexingPipelineId {
        index_uid: "idx:01".to_string(),
        source_id: "src".to_string(),
        node_id: "node-1".to_string(),
        pipeline_ord: ord,
    }
}

fn every_kind() -> Vec<IndexingError> {
    vec![
        IndexingError::MissingPipeline {
            index_id: "idx".to_string(),
            source_id: "src".to_string(),
        },
        IndexingError::PipelineAlreadyExists {
            index_id: "idx".to_string(),
            source_id: "src".to_string(),
            pipeline_ord: 7,
        },
        IndexingError::Io("disk full".to_string()),
        IndexingError::InvalidParams("bad request".to_string()),
        IndexingError::SpawnPipelinesError {
            pipeline_ids: vec![pipeline(0), pipeline(1)],
        },
        IndexingError::MetastoreError("metastore down".to_string()),
        IndexingError::StorageResolverError("no such bucket".to_string()),
        IndexingError::Internal("boom".to_string()),
        IndexingError::Unavailable,
    ]
}

#[test]
fn missing_pipeline_leaves_as_not_found() {
    let status = WireStatus::from(IndexingError::MissingPipeline {
        index_id: "idx".to_string(),
        source_id: "src".to_string(),
    });
    assert_eq!(status.code(), Code::NotFound);
    assert_eq!(status.message(), "Missing pipeline idx/src");
}

#[test]
fn existing_pipeline_leaves_as_already_exists() {
    let status = WireStatus::from(IndexingError::PipelineAlreadyExists {
        index_id: "idx".to_string(),
        source_id: "src".to_string(),
        pipeline_ord: 12,
    });
    assert_eq!(status.code(), Code::AlreadyExists);
    assert_eq!(status.message(), "Pipeline idx/src 12 already exists ");
}

#[test]
fn invalid_params_leave_as_invalid_argument() {
    let status = WireStatus::from(IndexingError::InvalidParams("bad request".to_string()));
    assert_eq!(status.code(), Code::InvalidArgument);
    assert_eq!(status.message(), "bad request");
}

#[test]
fn causes_leave_as_internal() {
    let io = WireStatus::from(IndexingError::Io("disk full".to_string()));
    assert_eq!(io.code(), Code::Internal);
    assert_eq!(io.message(), "disk full");
    let internal = WireStatus::from(IndexingError::Internal("boom".to_string()));
    assert_eq!(internal.code(), Code::Internal);
    assert_eq!(internal.message(), "boom");
    let metastore = WireStatus::from(IndexingError::MetastoreError("metastore down".to_string()));
    assert_eq!(metastore.code(), Code::Internal);
    assert_eq!(metastore.message(), "metastore down");
    let storage = WireStatus::from(IndexingError::StorageResolverError("no such bucket".to_string()));
    assert_eq!(storage.code(), Code::Internal);
    assert_eq!(storage.message(), "no such bucket");
}

#[test]
fn spawn_failure_lists_the_pipelines() {
    let ids = vec![pipeline(0), pipeline(3)];
    let expected = format!("Error spawning pipelines {:?}", ids);
    let status = WireStatus::from(IndexingError::SpawnPipelinesError { pipeline_ids: ids });
    assert_eq!(status.code(), Code::Internal);
    assert_eq!(status.message(), expected);
    assert!(status.message().contains("node-1"));
    assert!(status.message().contains("pipeline_ord: 3"));
}

#[test]
fn unavailable_leaves_with_a_fixed_message() {
    let status = WireStatus::from(IndexingError::Unavailable);
    assert_eq!(status.code(), Code::Unavailable);
    assert_eq!(status.message(), "Indexing service is unavailable.");
}

#[test]
fn not_found_comes_back_with_placeholders() {
    let error = IndexingError::from(WireStatus::new(Code::NotFound, "anything".to_string()));
    match error {
        IndexingError::MissingPipeline { index_id, source_id } => {
            assert_eq!(index_id, "");
            assert_eq!(source_id, "");
        }
        other => panic!("unexpected error: {:?}", other),
    }
}

#[test]
fn already_exists_comes_back_with_placeholders() {
    let error = IndexingError::from(WireStatus::new(Code::AlreadyExists, "anything".to_string()));
    match error {
        IndexingError::PipelineAlreadyExists { index_id, source_id, pipeline_ord } => {
            assert_eq!(index_id, "");
            assert_eq!(source_id, "");
            assert_eq!(pipeline_ord, 0);
        }
        other => panic!("unexpected error: {:?}", other),
    }
}

#[test]
fn every_other_code_comes_back_as_invalid_params() {
    let codes = vec![
        Code::Ok,
        Code::Cancelled,
        Code::Unknown,
        Code::InvalidArgument,
        Code::DeadlineExceeded,
        Code::PermissionDenied,
        Code::ResourceExhausted,
        Code::FailedPrecondition,
        Code::Aborted,
        Code::OutOfRange,
        Code::Unimplemented,
        Code::Internal,
        Code::DataLoss,
        Code::Unauthenticated,
    ];
    for code in codes {
        let error = IndexingError::from(WireStatus::new(code, "the message".to_string()));
        match error {
            IndexingError::InvalidParams(cause) => assert_eq!(cause, "the message"),
            other => panic!("unexpected error for {:?}: {:?}", code, other),
        }
    }
}

#[test]
fn unavailable_round_trip_is_exact() {
    let back = IndexingError::from(WireStatus::from(IndexingError::Unavailable));
    assert!(matches!(back, IndexingError::Unavailable));
}

#[test]
fn pipeline_errors_keep_their_code_and_lose_their_fields() {
    let missing = IndexingError::MissingPipeline {
        index_id: "idx".to_string(),
        source_id: "src".to_string(),
    };
    let back = IndexingError::from(WireStatus::from(missing));
    match &back {
        IndexingError::MissingPipeline { index_id, source_id } => {
            assert_eq!(index_id, "");
            assert_eq!(source_id, "");
        }
        other => panic!("unexpected error: {:?}", other),
    }
    assert_eq!(WireStatus::from(back).code(), Code::NotFound);

    let exists = IndexingError::PipelineAlreadyExists {
        index_id: "idx".to_string(),
        source_id: "src".to_string(),
        pipeline_ord: 7,
    };
    let back = IndexingError::from(WireStatus::from(exists));
    match &back {
        IndexingError::PipelineAlreadyExists { index_id, source_id, pipeline_ord } => {
            assert_eq!(index_id, "");
            assert_eq!(source_id, "");
            assert_eq!(*pipeline_ord, 0);
        }
        other => panic!("unexpected error: {:?}", other),
    }
    assert_eq!(WireStatus::from(back).code(), Code::AlreadyExists);
}

#[test]
fn every_kind_crosses_the_wire() {
    for error in every_kind() {
        let expected_message = WireStatus::from(match &error {
            IndexingError::Io(cause) => IndexingError::Io(cause.clone()),
            IndexingError::InvalidParams(cause) => IndexingError::InvalidParams(cause.clone()),
            IndexingError::MetastoreError(cause) => IndexingError::MetastoreError(cause.clone()),
            IndexingError::StorageResolverError(cause) => {
                IndexingError::StorageResolverError(cause.clone())
            }
            IndexingError::Internal(cause) => IndexingError::Internal(cause.clone()),
            IndexingError::SpawnPipelinesError { pipeline_ids } => {
                IndexingError::SpawnPipelinesError { pipeline_ids: pipeline_ids.clone() }
            }
            _ => IndexingError::Unavailable,
        })
        .message()
        .to_string();
        let keeps_kind = matches!(
            error,
            IndexingError::MissingPipeline { .. }
                | IndexingError::PipelineAlreadyExists { .. }
                | IndexingError::Unavailable
        );
        let status = WireStatus::from(error);
        let back = IndexingError::from(status);
        if !keeps_kind {
            match back {
                IndexingError::InvalidParams(cause) => assert_eq!(cause, expected_message),
                other => panic!("unexpected error: {:?}", other),
            }
        }
    }
}

#[test]
fn service_codes() {
    let expected = vec![
        ServiceErrorCode::NotFound,
        ServiceErrorCode::BadRequest,
        ServiceErrorCode::Internal,
        ServiceErrorCode::BadRequest,
        ServiceErrorCode::Internal,
        ServiceErrorCode::Internal,
        ServiceErrorCode::Internal,
        ServiceErrorCode::Internal,
        ServiceErrorCode::Unavailable,
    ];
    let kinds = every_kind();
    assert_eq!(kinds.len(), expected.len());
    for (error, code) in kinds.iter().zip(expected) {
        assert_eq!(error.status_code(), code);
    }
}

#[test]
fn error_texts() {
    let texts: Vec<String> = every_kind().iter().map(|error| error.to_string()).collect();
    assert_eq!(texts[0], "Indexing pipeline `idx` for source `src` does not exist.");
    assert_eq!(texts[1], "Pipeline #7 for index `idx` and source `src` already exists.");
    assert_eq!(texts[2], "I/O Error `disk full`.");
    assert_eq!(texts[3], "Invalid params `bad request`.");
    assert_eq!(
        texts[4],
        format!("Spanw pipelines errors `{:?}`.", vec![pipeline(0), pipeline(1)])
    );
    assert_eq!(texts[5], "A metastore error occurred: metastore down.");
    assert_eq!(texts[6], "A storage resolver error occurred: no such bucket.");
    assert_eq!(texts[7], "An internal error occurred: boom.");
    assert_eq!(texts[8], "The ingest service is unavailable.");
}

#[test]
fn a_request_that_got_no_answer_is_unavailable() {
    let error = IndexingError::from(AskError::<IndexingError>::MessageNotDelivered);
    assert!(matches!(error, IndexingError::Unavailable));
}

#[test]
fn a_request_that_failed_in_the_service_is_internal() {
    let error = IndexingError::from(AskError::<IndexingError>::ProcessMessageError);
    match error {
        IndexingError::Internal(cause) => {
            assert_eq!(cause, "An error occurred while processing the request")
        }
        other => panic!("unexpected error: {:?}", other),
    }
}

#[test]
fn an_error_reply_is_handed_on() {
    let reply = IndexingError::MissingPipeline {
        index_id: "idx".to_string(),
        source_id: "src".to_string(),
    };
    let error = IndexingError::from(AskError::ErrorReply(reply));
    match error {
        IndexingError::MissingPipeline { index_id, source_id } => {
            assert_eq!(index_id, "idx");
            assert_eq!(source_id, "src");
        }
        other => panic!("unexpected error: {:?}", other),
    }
}

#[test]
fn pipeline_identity_is_structural() {
    assert_eq!(pipeline(2), pipeline(2));
    assert_ne!(pipeline(2), pipeline(3));
    let mut other_node = pipeline(2);
    other_node.node_id = "node-2".to_string();
    assert_ne!(pipeline(2), other_node);
    let mut other_index = pipeline(2);
    other_index.index_uid = "idx:02".to_string();
    assert_ne!(pipeline(2), other_index);
    let mut other_source = pipeline(2);
    other_source.source_id = "src2".to_string();
    assert_ne!(pipeline(2), other_source);
}

#[test]
fn pipeline_identity_is_a_map_key() {
    let mut live = std::collections::HashMap::new();
    live.insert(pipeline(0), "first");
    live.insert(pipeline(1), "second");
    live.insert(pipeline(0), "third");
    assert_eq!(live.len(), 2);
    assert_eq!(live[&pipeline(0)], "third");
    assert_eq!(live[&pipeline(1)], "second");
}

#[test]
fn errors_leave_as_statuses_of_the_rpc_layer() {
    let status = tonic::Status::from(IndexingError::MissingPipeline {
        index_id: "idx".to_string(),
        source_id: "src".to_string(),
    });
    assert_eq!(status.code(), Code::NotFound);
    assert_eq!(status.message(), "Missing pipeline idx/src");
    let status = tonic::Status::from(IndexingError::PipelineAlreadyExists {
        index_id: "idx".to_string(),
        source_id: "src".to_string(),
        pipeline_ord: 3,
    });
    assert_eq!(status.code(), Code::AlreadyExists);
    assert_eq!(status.message(), "Pipeline idx/src 3 already exists ");
    let status = tonic::Status::from(IndexingError::InvalidParams("bad".to_string()));
    assert_eq!(status.code(), Code::InvalidArgument);
    assert_eq!(status.message(), "bad");
    let status = tonic::Status::from(IndexingError::Io("disk full".to_string()));
    assert_eq!(status.code(), Code::Internal);
    assert_eq!(status.message(), "disk full");
    let status = tonic::Status::from(IndexingError::Unavailable);
    assert_eq!(status.code(), Code::Unavailable);
    assert_eq!(status.message(), "Indexing service is unavailable.");
}

#[test]
fn statuses_of_the_rpc_layer_come_back_as_errors() {
    match IndexingError::from(tonic::Status::not_found("gone")) {
        IndexingError::MissingPipeline { index_id, source_id } => {
            assert_eq!(index_id, "");
            assert_eq!(source_id, "");
        }
        other => panic!("unexpected error: {:?}", other),
    }
    match IndexingError::from(tonic::Status::already_exists("there")) {
        IndexingError::PipelineAlreadyExists { index_id, source_id, pipeline_ord } => {
            assert_eq!(index_id, "");
            assert_eq!(source_id, "");
            assert_eq!(pipeline_ord, 0);
        }
        other => panic!("unexpected error: {:?}", other),
    }
    assert!(matches!(
        IndexingError::from(tonic::Status::unavailable("later")),
        IndexingError::Unavailable
    ));
    match IndexingError::from(tonic::Status::invalid_argument("bad")) {
        IndexingError::InvalidParams(cause) => assert_eq!(cause, "bad"),
        other => panic!("unexpected error: {:?}", other),
    }
    match IndexingError::from(tonic::Status::internal("boom")) {
        IndexingError::InvalidParams(cause) => assert_eq!(cause, "boom"),
        other => panic!("unexpected error: {:?}", other),
    }
}

#[test]
fn wire_status_and_rpc_status_hold_the_same() {
    let plain = WireStatus::new(Code::DataLoss, "lost".to_string());
    let status = plain.into_rpc();
    assert_eq!(status.code(), Code::DataLoss);
    assert_eq!(status.message(), "lost");
    let back = WireStatus::from_rpc(&status);
    assert_eq!(back.code(), Code::DataLoss);
    assert_eq!(back.message(), "lost");
}

#[test]
fn unavailable_round_trip_through_the_rpc_layer() {
    let status = tonic::Status::from(IndexingError::Unavailable);
    assert!(matches!(IndexingError::from(status), IndexingError::Unavailable));
}
