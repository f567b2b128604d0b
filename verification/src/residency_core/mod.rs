//! Resource synchronization primitives: the `SyncGraph` registry and planner,
//! its contracts, layouts, patches, views, plans, reports, and backends.

pub mod backend;
pub mod bytes;
pub mod contract;
pub mod diagnostics;
pub mod fake_backend;
pub mod freshness;
pub mod generation;
pub mod laws;
pub mod layout_laws;
pub mod runs;
pub mod graph;
pub mod patch;
pub mod plan;
pub mod readback;
pub mod report;
pub mod resource;
pub mod summary;
pub mod text;
pub mod view;

pub use generation::Generation;
pub use contract::{
    Authority, ContractError, ContractLint, ReadbackPolicy, Residency, ResizePolicy, SyncContract,
    UploadPolicy,
};
pub use diagnostics::{
    BasicDiagnostics, DiagnosticAttachment, DiagnosticLayout, DiagnosticReadbackPolicy,
};
pub use fake_backend::{FakeBackend, FakeBackendError, PendingReadback};
pub use freshness::Freshness;
pub use resource::{
    ChunkId, ChunkedLayoutInfo, ElementType, LayoutError, LayoutField, LayoutKind, ResourceDesc,
    ResourceId, ResourceLayout,
};
pub use summary::SummaryKind;
pub use patch::{F32Bits, F64Bits, Patch, PatchBuildError, PodElement, TypedPatch};
pub use plan::{PlannedReadback, ResizeOp, ResizeView, TransferPlan, UploadOp, UploadView};
pub use readback::{ReadbackError, ReadbackId, ReadbackStatus, ReadbackToken};
pub use report::{ReportView, SyncWarning, TransferReport};
pub use view::{ViewDecodeError, ViewRequest, ViewResult, ViewSelector};
pub use backend::{BackendResourceHandle, BackendSubmission, ResidencyBackend};
pub use graph::{
    AuthorityError, RegisterError, SubmitEventError, SubmitPatchError, SyncGraph, TransferBudget,
    ViewRequestError,
};
