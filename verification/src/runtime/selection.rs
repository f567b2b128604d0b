//! Explicit execution selection policy.
//!
//! The caller declares how it wants rules executed; the runtime reports
//! against that declaration. It is not an optimizer and never selects a
//! backend automatically — the mode is chosen by the caller, and the reference
//! path stays the semantic source of truth.
//!
//! Four concepts stay distinct, and reports keep them separate:
//!
//! ```text
//! requested  – the mode the caller asked for (ExecutionMode)
//! eligible   – the paths a rule actually qualifies for (e.g. kernel extraction)
//! selected   – the path resolution chose given requested + eligible
//! used       – the path the runtime actually executed
//! ```

use vstd::prelude::*;

verus! {

/// How the caller wants rules executed. Explicit and deterministic. The default
/// ([`ExecutionMode::ReferenceOnly`]) preserves the reference behavior.
#[derive(Clone, Copy, Debug, PartialEq, Eq, Structural, Hash)]
pub enum ExecutionMode {
    /// Always run the CPU reference path. The safe default.
    ReferenceOnly,
    /// Run the CPU-kernel path for rules that are kernel-eligible; for rules
    /// that are not, fall back to the reference — always reported.
    PreferCpuKernel,
    /// Require the CPU-kernel path: a rule with no eligible kernel is refused
    /// (reported), never silently run on the reference.
    RequireCpuKernel,
    /// Prefer explicit GPU execution for table rules that pass the GPU policy
    /// precondition; when unavailable the rule falls back to the reference with
    /// a typed reason.
    PreferGpu,
    /// Require explicit GPU execution: if the GPU path is unavailable or the
    /// rule is outside the GPU policy, the rule is refused.
    RequireGpu,
}

impl Default for ExecutionMode {
    fn default() -> (m: ExecutionMode)
        ensures
            m == ExecutionMode::ReferenceOnly,
    {
        ExecutionMode::ReferenceOnly
    }
}

impl ExecutionMode {
    /// Whether this mode requests kernel extraction as an eligibility
    /// precondition: every mode but the reference.
    pub open spec fn spec_requests_kernel(self) -> bool {
        self != ExecutionMode::ReferenceOnly
    }

    /// Whether this mode requests the CPU-kernel path.
    pub open spec fn spec_requests_cpu_kernel(self) -> bool {
        self == ExecutionMode::PreferCpuKernel || self == ExecutionMode::RequireCpuKernel
    }

    /// Whether this mode requests the GPU path.
    pub open spec fn spec_requests_gpu(self) -> bool {
        self == ExecutionMode::PreferGpu || self == ExecutionMode::RequireGpu
    }

    /// Whether an unavailable requested path falls back to the reference:
    /// every mode but the two that require their path.
    pub open spec fn spec_allows_reference_fallback(self) -> bool {
        self != ExecutionMode::RequireCpuKernel && self != ExecutionMode::RequireGpu
    }

    /// Whether this mode requests kernel extraction as an eligibility
    /// precondition.
    #[verifier::when_used_as_spec(spec_requests_kernel)]
    pub fn requests_kernel(self) -> (b: bool)
        ensures
            b == self.spec_requests_kernel(),
    {
        match self {
            ExecutionMode::ReferenceOnly => false,
            _ => true,
        }
    }

    /// Whether this mode requests the CPU-kernel path specifically.
    #[verifier::when_used_as_spec(spec_requests_cpu_kernel)]
    pub fn requests_cpu_kernel(self) -> (b: bool)
        ensures
            b == self.spec_requests_cpu_kernel(),
    {
        match self {
            ExecutionMode::PreferCpuKernel | ExecutionMode::RequireCpuKernel => true,
            _ => false,
        }
    }

    /// Whether this mode requests the GPU path.
    #[verifier::when_used_as_spec(spec_requests_gpu)]
    pub fn requests_gpu(self) -> (b: bool)
        ensures
            b == self.spec_requests_gpu(),
    {
        match self {
            ExecutionMode::PreferGpu | ExecutionMode::RequireGpu => true,
            _ => false,
        }
    }

    /// Whether an unavailable requested execution path falls back to the
    /// reference. Prefer modes report a fallback; require modes refuse.
    #[verifier::when_used_as_spec(spec_allows_reference_fallback)]
    pub fn allows_reference_fallback(self) -> (b: bool)
        ensures
            b == self.spec_allows_reference_fallback(),
    {
        match self {
            ExecutionMode::RequireCpuKernel | ExecutionMode::RequireGpu => false,
            _ => true,
        }
    }
}

/// A concrete execution path.
#[derive(Clone, Copy, Debug, PartialEq, Eq, Structural, Hash)]
pub enum ExecutionPath {
    /// The CPU reference executor — the semantic source of truth.
    Reference,
    /// The extracted bounded numeric kernel on CPU.
    CpuKernel,
    /// Explicit GPU execution.
    Gpu,
}

/// Why a rule did not run on the requested optimized path.
#[derive(Clone, Copy, Debug, PartialEq, Eq, Structural, Hash)]
pub enum FallbackReason {
    /// The rule is not kernel-eligible; under `PreferCpuKernel` it ran on the
    /// reference instead.
    NotKernelEligible,
    /// `RequireCpuKernel` was requested but the rule has no eligible kernel, so
    /// it was refused.
    RequiredKernelUnavailable,
    /// GPU execution was requested but the rule or domain is outside the GPU
    /// policy precondition.
    GpuPolicyUnsupported,
    /// GPU execution was preferred, but no GPU execution backend is wired in,
    /// so the reference ran and the reason was reported.
    GpuPathUnavailable,
    /// GPU execution was required, but no GPU execution backend is wired in, so
    /// the rule was refused.
    RequiredGpuUnavailable,
    /// Residency mapping evidence or allocation was unavailable at the
    /// buffer-movement boundary.
    GpuResidencyMappingUnavailable,
    /// The Residency transfer failed.
    GpuTransferFailed,
    /// Readback support or its readback report was unavailable.
    GpuReadbackUnavailable,
    /// Readback failed or could not be decoded.
    GpuReadbackFailed,
}

impl FallbackReason {
    /// Whether the reason stems from an explicit GPU request: every reason but
    /// the two CPU-kernel ones.
    pub open spec fn spec_is_gpu_reason(self) -> bool {
        self != FallbackReason::NotKernelEligible && self != FallbackReason::RequiredKernelUnavailable
    }

    /// Returns whether the fallback or refusal reason was caused by an explicit
    /// GPU request.
    #[verifier::when_used_as_spec(spec_is_gpu_reason)]
    pub fn is_gpu_reason(self) -> (b: bool)
        ensures
            b == self.spec_is_gpu_reason(),
    {
        match self {
            FallbackReason::NotKernelEligible | FallbackReason::RequiredKernelUnavailable => false,
            _ => true,
        }
    }
}

/// How the caller wants proximity queries evaluated. The default uses the
/// exact CPU scan; the indexed modes are explicit opt-ins.
#[derive(Clone, Copy, Debug, PartialEq, Eq, Structural, Hash)]
pub enum QueryExecutionMode {
    /// Always use the exact CPU scan.
    ReferenceOnly,
    /// Use an exact index for index-eligible queries; otherwise fall back to
    /// the scan and report why.
    PreferIndex,
    /// Require an exact index: an ineligible query is refused.
    RequireIndex,
}

impl Default for QueryExecutionMode {
    fn default() -> (m: QueryExecutionMode)
        ensures
            m == QueryExecutionMode::ReferenceOnly,
    {
        QueryExecutionMode::ReferenceOnly
    }
}

impl QueryExecutionMode {
    /// Whether this mode requests the indexed path at all.
    pub open spec fn spec_requests_index(self) -> bool {
        self != QueryExecutionMode::ReferenceOnly
    }

    /// Whether this mode requests the indexed path at all.
    #[verifier::when_used_as_spec(spec_requests_index)]
    pub fn requests_index(self) -> (b: bool)
        ensures
            b == self.spec_requests_index(),
    {
        match self {
            QueryExecutionMode::ReferenceOnly => false,
            _ => true,
        }
    }
}

/// A concrete proximity-query execution path.
#[derive(Clone, Copy, Debug, PartialEq, Eq, Structural, Hash)]
pub enum QueryExecutionPath {
    /// The exact CPU scan.
    Reference,
    /// An exact uniform-grid index used only to prune candidates.
    UniformGridIndex,
}

/// Why a proximity query did not run on the requested indexed path.
#[derive(Clone, Copy, Debug, PartialEq, Eq, Structural, Hash)]
pub enum QueryFallbackReason {
    /// The query is not index-eligible; under `PreferIndex` it used the scan.
    NotIndexEligible,
    /// `RequireIndex` was requested but no exact index is available, so the
    /// query was refused.
    RequiredIndexUnavailable,
}

/// The `(selected, used, fallback)` resolution of a proximity query.
pub open spec fn spec_resolve_query_path(index_available: bool, mode: QueryExecutionMode) -> (
    QueryExecutionPath,
    Option<QueryExecutionPath>,
    Option<QueryFallbackReason>,
) {
    if mode == QueryExecutionMode::ReferenceOnly {
        (QueryExecutionPath::Reference, Some(QueryExecutionPath::Reference), None)
    } else if index_available {
        (QueryExecutionPath::UniformGridIndex, Some(QueryExecutionPath::UniformGridIndex), None)
    } else if mode == QueryExecutionMode::RequireIndex {
        (QueryExecutionPath::UniformGridIndex, None, Some(QueryFallbackReason::RequiredIndexUnavailable))
    } else {
        (QueryExecutionPath::Reference, Some(QueryExecutionPath::Reference), Some(QueryFallbackReason::NotIndexEligible))
    }
}

/// Resolves the execution path for one proximity query from the requested
/// `mode` and whether an exact index is available, as
/// `(selected, used, fallback)`. `used == None` means the query was refused
/// because an index was required but unavailable.
pub fn resolve_query_path(index_available: bool, mode: QueryExecutionMode) -> (r: (
    QueryExecutionPath,
    Option<QueryExecutionPath>,
    Option<QueryFallbackReason>,
))
    ensures
        r == spec_resolve_query_path(index_available, mode),
{
    match (index_available, mode) {
        (_, QueryExecutionMode::ReferenceOnly) => (
            QueryExecutionPath::Reference,
            Some(QueryExecutionPath::Reference),
            None,
        ),
        (true, _) => (
            QueryExecutionPath::UniformGridIndex,
            Some(QueryExecutionPath::UniformGridIndex),
            None,
        ),
        (false, QueryExecutionMode::RequireIndex) => (
            QueryExecutionPath::UniformGridIndex,
            None,
            Some(QueryFallbackReason::RequiredIndexUnavailable),
        ),
        (false, QueryExecutionMode::PreferIndex) => (
            QueryExecutionPath::Reference,
            Some(QueryExecutionPath::Reference),
            Some(QueryFallbackReason::NotIndexEligible),
        ),
    }
}

/// The optimized path a table rule qualifies for under `mode`.
pub open spec fn spec_table_rule_eligible_path(kernel_available: bool, mode: ExecutionMode) -> ExecutionPath {
    if mode.spec_requests_gpu() && kernel_available {
        ExecutionPath::Gpu
    } else if mode.spec_requests_cpu_kernel() && kernel_available {
        ExecutionPath::CpuKernel
    } else {
        ExecutionPath::Reference
    }
}

/// Returns the optimized path a table rule qualifies for under the requested
/// mode: the GPU for GPU modes and the CPU kernel for CPU-kernel modes, when a
/// kernel was extracted; the reference otherwise.
pub fn table_rule_eligible_path(kernel_available: bool, mode: ExecutionMode) -> (p: ExecutionPath)
    ensures
        p == spec_table_rule_eligible_path(kernel_available, mode),
{
    if mode.requests_gpu() && kernel_available {
        ExecutionPath::Gpu
    } else if mode.requests_cpu_kernel() && kernel_available {
        ExecutionPath::CpuKernel
    } else {
        ExecutionPath::Reference
    }
}

/// The `(selected, used, fallback)` resolution of one rule.
pub open spec fn spec_resolve_path(eligible_path: ExecutionPath, mode: ExecutionMode) -> (
    ExecutionPath,
    Option<ExecutionPath>,
    Option<FallbackReason>,
) {
    match mode {
        ExecutionMode::ReferenceOnly => (ExecutionPath::Reference, Some(ExecutionPath::Reference), None),
        ExecutionMode::PreferCpuKernel => if eligible_path == ExecutionPath::CpuKernel {
            (ExecutionPath::CpuKernel, Some(ExecutionPath::CpuKernel), None)
        } else {
            (ExecutionPath::Reference, Some(ExecutionPath::Reference), Some(FallbackReason::NotKernelEligible))
        },
        ExecutionMode::RequireCpuKernel => if eligible_path == ExecutionPath::CpuKernel {
            (ExecutionPath::CpuKernel, Some(ExecutionPath::CpuKernel), None)
        } else {
            (ExecutionPath::CpuKernel, None, Some(FallbackReason::RequiredKernelUnavailable))
        },
        ExecutionMode::PreferGpu => if eligible_path == ExecutionPath::Gpu {
            (ExecutionPath::Gpu, Some(ExecutionPath::Reference), Some(FallbackReason::GpuPathUnavailable))
        } else {
            (ExecutionPath::Reference, Some(ExecutionPath::Reference), Some(FallbackReason::GpuPolicyUnsupported))
        },
        ExecutionMode::RequireGpu => if eligible_path == ExecutionPath::Gpu {
            (ExecutionPath::Gpu, None, Some(FallbackReason::RequiredGpuUnavailable))
        } else {
            (ExecutionPath::Reference, None, Some(FallbackReason::GpuPolicyUnsupported))
        },
    }
}

/// Resolves the execution path for one rule from the requested `mode` and
/// canonical `eligible_path`, returning `(selected, used, fallback)`.
/// `used == None` means the rule is refused because a required optimized path
/// was unavailable.
pub fn resolve_path(eligible_path: ExecutionPath, mode: ExecutionMode) -> (r: (
    ExecutionPath,
    Option<ExecutionPath>,
    Option<FallbackReason>,
))
    ensures
        r == spec_resolve_path(eligible_path, mode),
{
    match (eligible_path, mode) {
        (_, ExecutionMode::ReferenceOnly) => (ExecutionPath::Reference, Some(ExecutionPath::Reference), None),
        (ExecutionPath::CpuKernel, ExecutionMode::PreferCpuKernel | ExecutionMode::RequireCpuKernel) => (
            ExecutionPath::CpuKernel,
            Some(ExecutionPath::CpuKernel),
            None,
        ),
        (_, ExecutionMode::RequireCpuKernel) => (
            ExecutionPath::CpuKernel,
            None,
            Some(FallbackReason::RequiredKernelUnavailable),
        ),
        (_, ExecutionMode::PreferCpuKernel) => (
            ExecutionPath::Reference,
            Some(ExecutionPath::Reference),
            Some(FallbackReason::NotKernelEligible),
        ),
        (ExecutionPath::Reference | ExecutionPath::CpuKernel, ExecutionMode::PreferGpu) => (
            ExecutionPath::Reference,
            Some(ExecutionPath::Reference),
            Some(FallbackReason::GpuPolicyUnsupported),
        ),
        (ExecutionPath::Reference | ExecutionPath::CpuKernel, ExecutionMode::RequireGpu) => (
            ExecutionPath::Reference,
            None,
            Some(FallbackReason::GpuPolicyUnsupported),
        ),
        (ExecutionPath::Gpu, ExecutionMode::PreferGpu) => (
            ExecutionPath::Gpu,
            Some(ExecutionPath::Reference),
            Some(FallbackReason::GpuPathUnavailable),
        ),
        (ExecutionPath::Gpu, ExecutionMode::RequireGpu) => (
            ExecutionPath::Gpu,
            None,
            Some(FallbackReason::RequiredGpuUnavailable),
        ),
    }
}

/// A rule is refused exactly when its mode forbids falling back to the
/// reference and the requested path did not run: a required CPU kernel
/// without an eligible kernel, or any required GPU path.
pub proof fn law_refused_iff_required_and_unavailable(eligible_path: ExecutionPath, mode: ExecutionMode)
    ensures
        spec_resolve_path(eligible_path, mode).1 is None <==> (!mode.spec_allows_reference_fallback() && !(
        mode == ExecutionMode::RequireCpuKernel && eligible_path == ExecutionPath::CpuKernel)),
{
}

/// Whenever a rule runs, it runs on its selected path unless a fallback
/// reason is reported, and every fallback that runs runs on the reference.
pub proof fn law_fallback_runs_reference(eligible_path: ExecutionPath, mode: ExecutionMode)
    ensures
        ({
            let (selected, used, fallback) = spec_resolve_path(eligible_path, mode);
            &&& fallback is None ==> used == Some(selected)
            &&& fallback is Some && used is Some ==> used == Some(ExecutionPath::Reference)
        }),
{
}

/// A fallback or refusal reason is a GPU reason exactly when the mode
/// requested the GPU; the reference mode never reports one.
pub proof fn law_fallback_reason_matches_mode(eligible_path: ExecutionPath, mode: ExecutionMode)
    ensures
        ({
            let (_, _, fallback) = spec_resolve_path(eligible_path, mode);
            &&& fallback matches Some(reason) ==> reason.spec_is_gpu_reason() == mode.spec_requests_gpu()
            &&& mode == ExecutionMode::ReferenceOnly ==> fallback is None
        }),
{
}

/// A query is refused exactly when an index is required and unavailable; a
/// query that runs without a reported reason runs on its selected path.
pub proof fn law_query_refused_iff_required_index_unavailable(index_available: bool, mode: QueryExecutionMode)
    ensures
        ({
            let (selected, used, fallback) = spec_resolve_query_path(index_available, mode);
            &&& used is None <==> (mode == QueryExecutionMode::RequireIndex && !index_available)
            &&& fallback is None ==> used == Some(selected)
        }),
{
}

} // verus!
