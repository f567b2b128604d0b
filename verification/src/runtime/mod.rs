//! Execution-path selection and the GPU evidence that runtime reports carry.

pub mod gpu_report;
pub mod report_types;
pub mod selection;
