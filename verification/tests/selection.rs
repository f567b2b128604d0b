use conflux_residency::runtime::selection::{
    resolve_path, resolve_query_path, table_rule_eligible_path, ExecutionMode, ExecutionPath,
    FallbackReason, QueryExecutionMode, QueryExecutionPath, QueryFallbackReason,
};

#[test]
fn default_is_reference_only() {
    assert_eq!(ExecutionMode::default(), ExecutionMode::ReferenceOnly);
}

#[test]
fn requests_kernel_for_cpu_and_gpu_eligibility_modes() {
    assert!(!ExecutionMode::ReferenceOnly.requests_kernel());
    assert!(ExecutionMode::PreferCpuKernel.requests_kernel());
    assert!(ExecutionMode::RequireCpuKernel.requests_kernel());
    assert!(ExecutionMode::PreferGpu.requests_kernel());
    assert!(ExecutionMode::RequireGpu.requests_kernel());
    assert!(ExecutionMode::PreferCpuKernel.requests_cpu_kernel());
    assert!(ExecutionMode::RequireCpuKernel.requests_cpu_kernel());
    assert!(!ExecutionMode::PreferGpu.requests_cpu_kernel());
    assert!(ExecutionMode::PreferGpu.requests_gpu());
    assert!(ExecutionMode::RequireGpu.requests_gpu());
}

#[test]
fn only_require_refuses_reference_fallback() {
    assert!(ExecutionMode::ReferenceOnly.allows_reference_fallback());
    assert!(ExecutionMode::PreferCpuKernel.allows_reference_fallback());
    assert!(!ExecutionMode::RequireCpuKernel.allows_reference_fallback());
    assert!(ExecutionMode::PreferGpu.allows_reference_fallback());
    assert!(!ExecutionMode::RequireGpu.allows_reference_fallback());
}

#[test]
fn resolve_path_covers_every_mode_and_eligibility() {

    assert_eq!(
        resolve_path(ExecutionPath::CpuKernel, ExecutionMode::ReferenceOnly),
        (ExecutionPath::Reference, Some(ExecutionPath::Reference), None)
    );
    assert_eq!(
        resolve_path(ExecutionPath::Reference, ExecutionMode::ReferenceOnly),
        (ExecutionPath::Reference, Some(ExecutionPath::Reference), None)
    );

    assert_eq!(
        resolve_path(ExecutionPath::CpuKernel, ExecutionMode::PreferCpuKernel),
        (ExecutionPath::CpuKernel, Some(ExecutionPath::CpuKernel), None)
    );
    assert_eq!(
        resolve_path(ExecutionPath::Reference, ExecutionMode::PreferCpuKernel),
        (
            ExecutionPath::Reference,
            Some(ExecutionPath::Reference),
            Some(FallbackReason::NotKernelEligible)
        )
    );

    assert_eq!(
        resolve_path(ExecutionPath::CpuKernel, ExecutionMode::RequireCpuKernel),
        (ExecutionPath::CpuKernel, Some(ExecutionPath::CpuKernel), None)
    );
    assert_eq!(
        resolve_path(ExecutionPath::Reference, ExecutionMode::RequireCpuKernel),
        (
            ExecutionPath::CpuKernel,
            None,
            Some(FallbackReason::RequiredKernelUnavailable)
        )
    );

    assert_eq!(
        resolve_path(ExecutionPath::Gpu, ExecutionMode::PreferGpu),
        (
            ExecutionPath::Gpu,
            Some(ExecutionPath::Reference),
            Some(FallbackReason::GpuPathUnavailable)
        )
    );
    assert_eq!(
        resolve_path(ExecutionPath::Reference, ExecutionMode::PreferGpu),
        (
            ExecutionPath::Reference,
            Some(ExecutionPath::Reference),
            Some(FallbackReason::GpuPolicyUnsupported)
        )
    );
    assert_eq!(
        resolve_path(ExecutionPath::Gpu, ExecutionMode::RequireGpu),
        (ExecutionPath::Gpu, None, Some(FallbackReason::RequiredGpuUnavailable))
    );
    assert_eq!(
        resolve_path(ExecutionPath::Reference, ExecutionMode::RequireGpu),
        (ExecutionPath::Reference, None, Some(FallbackReason::GpuPolicyUnsupported))
    );
    assert!(FallbackReason::GpuResidencyMappingUnavailable.is_gpu_reason());
    assert!(FallbackReason::GpuTransferFailed.is_gpu_reason());
    assert!(FallbackReason::GpuReadbackUnavailable.is_gpu_reason());
    assert!(FallbackReason::GpuReadbackFailed.is_gpu_reason());
}

#[test]
fn table_rule_eligibility_maps_cpu_and_gpu_modes() {

    assert_eq!(table_rule_eligible_path(false, ExecutionMode::ReferenceOnly), ExecutionPath::Reference);
    assert_eq!(table_rule_eligible_path(true, ExecutionMode::ReferenceOnly), ExecutionPath::Reference);
    assert_eq!(table_rule_eligible_path(true, ExecutionMode::PreferCpuKernel), ExecutionPath::CpuKernel);
    assert_eq!(table_rule_eligible_path(false, ExecutionMode::PreferCpuKernel), ExecutionPath::Reference);
    assert_eq!(table_rule_eligible_path(true, ExecutionMode::PreferGpu), ExecutionPath::Gpu);
    assert_eq!(table_rule_eligible_path(false, ExecutionMode::PreferGpu), ExecutionPath::Reference);
}

#[test]
fn query_modes_request_index_only_when_opted_in() {
    assert!(!QueryExecutionMode::ReferenceOnly.requests_index());
    assert!(QueryExecutionMode::PreferIndex.requests_index());
    assert!(QueryExecutionMode::RequireIndex.requests_index());
}

#[test]
fn resolve_query_path_covers_every_mode_and_eligibility() {

    assert_eq!(
        resolve_query_path(true, QueryExecutionMode::ReferenceOnly),
        (QueryExecutionPath::Reference, Some(QueryExecutionPath::Reference), None)
    );
    assert_eq!(
        resolve_query_path(false, QueryExecutionMode::ReferenceOnly),
        (QueryExecutionPath::Reference, Some(QueryExecutionPath::Reference), None)
    );
    assert_eq!(
        resolve_query_path(true, QueryExecutionMode::PreferIndex),
        (QueryExecutionPath::UniformGridIndex, Some(QueryExecutionPath::UniformGridIndex), None)
    );
    assert_eq!(
        resolve_query_path(false, QueryExecutionMode::PreferIndex),
        (
            QueryExecutionPath::Reference,
            Some(QueryExecutionPath::Reference),
            Some(QueryFallbackReason::NotIndexEligible)
        )
    );
    assert_eq!(
        resolve_query_path(true, QueryExecutionMode::RequireIndex),
        (QueryExecutionPath::UniformGridIndex, Some(QueryExecutionPath::UniformGridIndex), None)
    );
    assert_eq!(
        resolve_query_path(false, QueryExecutionMode::RequireIndex),
        (
            QueryExecutionPath::UniformGridIndex,
            None,
            Some(QueryFallbackReason::RequiredIndexUnavailable)
        )
    );
}

#[test]
fn cpu_kernel_reasons_are_not_gpu_reasons() {
    assert!(!FallbackReason::NotKernelEligible.is_gpu_reason());
    assert!(!FallbackReason::RequiredKernelUnavailable.is_gpu_reason());
    assert!(FallbackReason::GpuPolicyUnsupported.is_gpu_reason());
    assert_eq!(QueryExecutionMode::default(), QueryExecutionMode::ReferenceOnly);
}

#[test]
fn gpu_eligibility_wins_over_cpu_kernel_eligibility_only_for_gpu_modes() {
    assert_eq!(table_rule_eligible_path(true, ExecutionMode::RequireGpu), ExecutionPath::Gpu);
    assert_eq!(table_rule_eligible_path(true, ExecutionMode::RequireCpuKernel), ExecutionPath::CpuKernel);
    assert_eq!(table_rule_eligible_path(false, ExecutionMode::RequireGpu), ExecutionPath::Reference);
    assert_eq!(
        resolve_path(ExecutionPath::CpuKernel, ExecutionMode::PreferGpu),
        (ExecutionPath::Reference, Some(ExecutionPath::Reference), Some(FallbackReason::GpuPolicyUnsupported))
    );
}
