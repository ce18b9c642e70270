//! The cluster-wide key of one running indexing pipeline.

use vstd::prelude::*;
use vstd::std_specs::cmp::PartialEqSpecImpl;

verus! {

/// Names one running indexing pipeline: the index and the source it reads,
/// the node that runs it, and an ordinal that tells apart the pipelines a
/// node runs for the same index and source.
#[derive(Clone, Debug, Hash)]
pub struct IndexingPipelineId {
    pub index_uid: String,
    pub source_id: String,
    pub node_id: String,
    pub pipeline_ord: usize,
}

/// What an [`IndexingPipelineId`] stands for: its four fields as plain values.
pub struct PipelineIdView {
    pub index_uid: Seq<char>,
    pub source_id: Seq<char>,
    pub node_id: Seq<char>,
    pub pipeline_ord: nat,
}

impl View for IndexingPipelineId {
    type V = PipelineIdView;

    open spec fn view(&self) -> PipelineIdView {
        PipelineIdView {
            index_uid: self.index_uid@,
            source_id: self.source_id@,
            node_id: self.node_id@,
            pipeline_ord: self.pipeline_ord as nat,
        }
    }
}

impl PartialEq for IndexingPipelineId {
    /// Two identities are equal exactly when all four fields are.
    fn eq(&self, other: &IndexingPipelineId) -> (equal: bool) {
        self.index_uid == other.index_uid && self.source_id == other.source_id && self.node_id
            == other.node_id && self.pipeline_ord == other.pipeline_ord
    }
}

impl PartialEqSpecImpl for IndexingPipelineId {
    open spec fn obeys_eq_spec() -> bool {
        true
    }

    open spec fn eq_spec(&self, other: &IndexingPipelineId) -> bool {
        self@ == other@
    }
}

impl Eq for IndexingPipelineId {

}

} // verus!
