use vstd::prelude::*;
use crate::json::Json;

verus! {

/// A request to compare a scan with a Terraform state.
#[derive(Debug)]
pub struct DriftDetectionRequest {
    pub scan_id: String,
    pub state_content: String,
}

/// The outcome of a drift comparison.
#[derive(Debug)]
pub struct DriftDetectionResponse {
    pub drift_id: String,
    pub scan_id: String,
    pub summary: DriftSummary,
    pub drifts: Vec<DriftItem>,
}

/// Counts of a drift comparison.
#[derive(Clone, Copy, Debug, PartialEq, Eq, Structural)]
pub struct DriftSummary {
    pub total_in_state: usize,
    pub total_in_cloud: usize,
    pub added: usize,
    pub removed: usize,
    pub changed: usize,
    pub unchanged: usize,
}

/// One resource that differs between the state and the cloud.
#[derive(Debug)]
pub struct DriftItem {
    pub resource_type: String,
    pub resource_id: String,
    pub drift_type: DriftType,
    pub state_attributes: Option<Json>,
    pub cloud_attributes: Option<Json>,
    pub changed_fields: Vec<ChangedField>,
}

/// How a resource differs.
#[derive(Clone, Copy, Debug, PartialEq, Eq, Structural)]
pub enum DriftType {
    Added,
    Removed,
    Changed,
}

/// One attribute whose value differs.
#[derive(Debug)]
pub struct ChangedField {
    pub field: String,
    pub state_value: Json,
    pub cloud_value: Json,
}

} // verus!
