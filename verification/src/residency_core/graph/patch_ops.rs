//! Patch submission helpers for `SyncGraph`.

use vstd::prelude::*;

use crate::residency_core::contract::{ResizePolicy, UploadPolicy};
use crate::residency_core::generation::Generation;
use crate::residency_core::graph::model::{
    ceil_pow2, ceil_pow2_from, spec_type_compatible, GraphView, PatchDecision,
};
use crate::residency_core::graph::{reveal_view, SubmitPatchError, SyncGraph};
use crate::residency_core::patch::Patch;
use crate::residency_core::plan::{ResizeOp, UploadOp};
use crate::residency_core::report::SyncWarning;
use crate::residency_core::resource::ElementType;

verus! {

/// Whether a patch or record of type `actual` may target a resource whose
/// layout stores `expected`: equal types, or raw bytes on either side.
pub fn type_compatible(expected: ElementType, actual: ElementType) -> (b: bool)
    ensures
        b == spec_type_compatible(expected, actual),
{
    expected == actual || expected == ElementType::Bytes || actual == ElementType::Bytes
}

proof fn lemma_ceil_pow2_from_ge(p: int, n: int)
    requires
        p > 0,
    ensures
        ceil_pow2_from(p, n) >= p,
        ceil_pow2_from(p, n) >= n,
    decreases if p < n { n - p } else { 0 },
{
    if p < n {
        lemma_ceil_pow2_from_ge(2 * p, n);
    }
}

/// The smallest power of two that is at least `n` (`1` for `n <= 1`), or
/// `None` when it does not fit a `u64`.
pub fn next_power_of_two(n: u64) -> (r: Option<u64>)
    ensures
        ceil_pow2(n as int) <= u64::MAX ==> r == Some(ceil_pow2(n as int) as u64),
        ceil_pow2(n as int) > u64::MAX ==> r is None,
{
    let mut p: u64 = 1;
    while p < n
        invariant
            p > 0,
            ceil_pow2_from(p as int, n as int) == ceil_pow2(n as int),
        decreases u64::MAX - p,
    {
        if p > 0x7fff_ffff_ffff_ffffu64 {
            proof {
                lemma_ceil_pow2_from_ge(2 * p, n as int);
            }
            return None;
        }
        p = p * 2;
    }
    Some(p)
}


impl SyncGraph {
    /// Applies a byte patch whose element type was already found compatible.
    pub(super) fn submit_patch_inner(&mut self, patch: Patch) -> (r: Result<Generation, SubmitPatchError>)
        requires
            old(self)@.wf(),
            old(self)@.patch_fits(patch.resource@, patch.byte_offset, patch.bytes@.len() as int),
        ensures
            final(self)@.wf(),
            final(self)@ == old(self)@.patch_outcome(patch.resource, patch.byte_offset, patch.bytes@).0,
            r == old(self)@.patch_outcome(patch.resource, patch.byte_offset, patch.bytes@).1,
    {
        let ghost g0 = self@;
        let Patch { resource, byte_offset, bytes, element_type: _ } = patch;
        let ghost outcome = g0.patch_outcome(resource, byte_offset, bytes@);
        let idx = match self.find(&resource) {
            None => {
                return Err(SubmitPatchError::UnknownResource { id: resource });
            },
            Some(i) => i,
        };
        proof {
            reveal_view(self);
        }
        let ghost e = g0.entry(resource@);
        assert(self.resources@[idx as int]@ == e);
        let upload_policy = self.resources[idx].contract.upload;
        let resize_policy = self.resources[idx].contract.resize;
        let alignment = self.resources[idx].layout.alignment();
        let capacity = self.resources[idx].capacity_bytes;
        let has_initial_upload = self.resources[idx].has_initial_upload;
        let current_generation = self.resources[idx].current_generation.0;
        let ghost decision = GraphView::patch_decision(e, byte_offset, bytes@.len() as int);
        match upload_policy {
            UploadPolicy::Deny => {
                self.push_warning(SyncWarning::UploadPolicyViolation { resource: resource.clone_id() });
                return Err(SubmitPatchError::UploadDenied { id: resource });
            },
            UploadPolicy::InitialOnly => {
                if has_initial_upload {
                    self.push_warning(SyncWarning::UploadPolicyViolation { resource: resource.clone_id() });
                    return Err(SubmitPatchError::InitialUploadConsumed { id: resource });
                }
            },
            UploadPolicy::PatchesAllowed => {},
        }
        if alignment > 0 && byte_offset % alignment != 0 {
            return Err(SubmitPatchError::Misaligned { id: resource, offset: byte_offset, alignment });
        }
        let bytes_len = bytes.len() as u64;
        let required = match byte_offset.checked_add(bytes_len) {
            None => {
                return Err(SubmitPatchError::PatchEndOverflow { id: resource, offset: byte_offset, len: bytes_len });
            },
            Some(req) => req,
        };
        let mut resize: Option<u64> = None;
        proof {
            lemma_ceil_pow2_from_ge(1, required as int);
        }
        if required > capacity {
            match resize_policy {
                ResizePolicy::Fixed => {
                    return Err(SubmitPatchError::OutOfBoundsFixed { id: resource, required, capacity });
                },
                ResizePolicy::ExternalManaged => {
                    self.push_warning(
                        SyncWarning::ResizeRequired {
                            resource: resource.clone_id(),
                            old_size: capacity,
                            required_size: required,
                        },
                    );
                    return Err(SubmitPatchError::ExternalResizeRequired { id: resource, required, capacity });
                },
                ResizePolicy::GrowPowerOfTwo { max_bytes } => {
                    let grown = match next_power_of_two(required) {
                        None => {
                            return Err(SubmitPatchError::ResizeCapacityOverflow { id: resource, required });
                        },
                        Some(g) => g,
                    };
                    if let Some(cap) = max_bytes {
                        if grown > cap {
                            self.push_warning(
                                SyncWarning::ResizeRequired {
                                    resource: resource.clone_id(),
                                    old_size: capacity,
                                    required_size: required,
                                },
                            );
                            return Err(SubmitPatchError::GrowExceedsMax { id: resource, required, max_bytes: cap });
                        }
                    }
                    resize = Some(grown);
                },
            }
        }
        assert(decision == PatchDecision::Accept(
            match resize {
                Some(gr) => Some(gr as int),
                None => None,
            },
        ));
        let ghost resized: Option<int> = match resize {
            Some(gr) => Some(gr as int),
            None => None,
        };
        assert(g0.resources[g0.index_of(resource@)] == e);
        assert(g0.resources[idx as int] == e);
        let base = match resize {
            Some(_) => current_generation + 1,
            None => current_generation,
        };
        let new_generation = base + 1;
        let new_capacity = match resize {
            Some(gr) => gr,
            None => capacity,
        };
        let now_initial = has_initial_upload || upload_policy == UploadPolicy::InitialOnly;
        let head = self.resources[idx].event_head;
        self.update_entry(idx, new_generation, new_capacity, now_initial, head);
        proof {
            reveal_view(self);
        }
        if let Some(gr) = resize {
            self.pending_resizes.push(
                ResizeOp {
                    resource: resource.clone_id(),
                    old_size: capacity,
                    new_size: gr,
                    resulting_generation: Generation(current_generation + 1),
                },
            );
            self.report.reallocations = self.report.reallocations + 1;
            self.report.bytes_reallocated = self.report.bytes_reallocated + (gr - capacity);
            proof {
                reveal_view(self);
            }
        }
        self.pending_uploads.push(
            UploadOp {
                resource,
                byte_offset,
                bytes,
                resulting_generation: Generation(new_generation),
            },
        );
        proof {
            reveal_view(self);
            let after = g0.accept_patch(resource, byte_offset, bytes@, resized);
            assert(self@.resources =~= after.resources);
            assert(self@.pending_uploads =~= after.pending_uploads);
            assert(self@.pending_resizes =~= after.pending_resizes);
            assert(self@.report =~= after.report);
            assert(self@ == after);
            assert(after.entry(resource@) == after.resources[idx as int]) by {
                Self::lemma_index(after, idx as int, resource@);
            }
            assert forall|i: int, j: int|
                0 <= i < j < self@.resources.len() implies self@.resources[i].id != self@.resources[j].id by {
                assert(self@.resources[i].id == g0.resources[i].id);
                assert(self@.resources[j].id == g0.resources[j].id);
            }
            assert forall|i: int| 0 <= i < self@.resources.len() implies (#[trigger] self@.resources[i]).layout_ok() by {
                assert(self@.resources[i].layout == g0.resources[i].layout);
                assert(g0.resources[i].layout_ok());
            }
        }
        Ok(Generation(new_generation))
    }
}

} // verus!
