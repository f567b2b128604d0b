//! Event-ring appends for `SyncGraph`.

use vstd::prelude::*;

use crate::residency_core::contract::UploadPolicy;
use crate::residency_core::generation::Generation;
use crate::residency_core::graph::model::{upload_if_nonempty, GraphView, ResourceEntry};
use crate::residency_core::graph::patch_ops::type_compatible;
use crate::residency_core::graph::{reveal_view, SubmitEventError, SyncGraph};
use crate::residency_core::bytes::encodes_words;
use crate::residency_core::patch::{encodes, PodElement};
use crate::residency_core::plan::UploadOp;
use crate::residency_core::report::SyncWarning;
use crate::residency_core::resource::ResourceId;

verus! {

impl SyncGraph {
    /// Queues the upload of `bytes` at `byte_offset` unless `bytes` is empty.
    fn push_upload_if_nonempty(&mut self, resource: &ResourceId, byte_offset: u64, bytes: Vec<u8>, generation: u64)
        ensures
            final(self)@ == (GraphView {
                pending_uploads: old(self)@.pending_uploads + upload_if_nonempty(
                    resource@,
                    byte_offset as int,
                    bytes@,
                    generation as int,
                ),
                ..old(self)@
            }),
    {
        if bytes.len() > 0 {
            self.pending_uploads.push(
                UploadOp {
                    resource: resource.clone_id(),
                    byte_offset,
                    bytes,
                    resulting_generation: Generation(generation),
                },
            );
        }
        proof {
            reveal_view(self);
            reveal_view(old(self));
            assert(self@.pending_uploads =~= old(self)@.pending_uploads + upload_if_nonempty(
                resource@,
                byte_offset as int,
                bytes@,
                generation as int,
            ));
        }
    }

    /// Append records to an `EventRing` resource.
    ///
    /// Writes the records into the ring (with wrap-around if they cross the
    /// end), advances the logical head, and queues one or two uploads covering
    /// the affected byte range(s). When more records arrive than the ring
    /// holds, only the most recent ones are kept and the drop is warned as
    /// `SyncWarning::EventRingOverflow`.
    ///
    /// Fails, in this order, for unknown resources, resources that are not
    /// event rings, record types that differ from the ring's (raw bytes match
    /// any), a denied upload policy (also warned), an `InitialOnly` ring whose
    /// single upload an earlier append consumed (also warned), and logical
    /// head or byte arithmetic that does not fit.
    #[verifier::rlimit(40)]
    pub fn submit_event_append<T: PodElement>(&mut self, resource: ResourceId, records: Vec<T>) -> (r: Result<Generation, SubmitEventError>)
        requires
            old(self)@.wf(),
            old(self)@.event_safe(resource@, T::spec_element_type(), records@.len() as int),
        ensures
            final(self)@.wf(),
            exists|enc: Seq<u8>, big: bool|
                #[trigger] encodes::<T>(enc, records@, big) && (final(self)@, r)
                    == old(self)@.event_outcome(resource, T::spec_element_type(), records@.len() as int, enc),
    {
        let ghost g0 = self@;
        let ghost n = records@.len() as int;
        let ghost element = T::spec_element_type();
        proof {
            T::lemma_encodable(records@);
        }
        let ghost (zeros, zbig) = choose|bytes: Seq<u8>, big: bool| encodes_words(
            bytes,
            T::spec_words(records@),
            T::spec_element_type().spec_size_bytes() as int,
            big,
        );
        assert(encodes::<T>(zeros, records@, zbig));
        let idx = match self.find(&resource) {
            None => {
                proof {
                    assert((self@, Err::<Generation, SubmitEventError>(SubmitEventError::UnknownResource { id: resource })) == g0.event_outcome(resource, element, n, zeros));
                }
                return Err(SubmitEventError::UnknownResource { id: resource });
            },
            Some(i) => i,
        };
        proof {
            reveal_view(self);
        }
        let ghost e = g0.entry(resource@);
        assert(self.resources@[idx as int]@ == e);
        assert(e.layout_ok());
        let (record_size, record_count) = match self.resources[idx].layout.event_ring_info() {
            None => {
                proof {
                    assert((self@, Err::<Generation, SubmitEventError>(SubmitEventError::NotEventRing { id: resource })) == g0.event_outcome(resource, element, n, zeros));
                }
                return Err(SubmitEventError::NotEventRing { id: resource });
            },
            Some(info) => info,
        };
        let expected = self.resources[idx].layout.element_type();
        let actual = T::element_type();
        if !type_compatible(expected, actual) {
            proof {
                assert((self@, Err::<Generation, SubmitEventError>(SubmitEventError::ElementTypeMismatch { id: resource, expected, actual })) == g0.event_outcome(resource, element, n, zeros));
            }
            return Err(SubmitEventError::ElementTypeMismatch { id: resource, expected, actual });
        }
        let upload_policy = self.resources[idx].contract.upload;
        if upload_policy == UploadPolicy::Deny {
            self.push_warning(SyncWarning::UploadPolicyViolation { resource: resource.clone_id() });
            proof {
                assert((self@, Err::<Generation, SubmitEventError>(SubmitEventError::UploadDenied { id: resource })) == g0.event_outcome(resource, element, n, zeros));
            }
            return Err(SubmitEventError::UploadDenied { id: resource });
        }
        if upload_policy == UploadPolicy::InitialOnly && self.resources[idx].has_initial_upload {
            self.push_warning(SyncWarning::UploadPolicyViolation { resource: resource.clone_id() });
            proof {
                assert((self@, Err::<Generation, SubmitEventError>(SubmitEventError::InitialUploadConsumed { id: resource })) == g0.event_outcome(resource, element, n, zeros));
            }
            return Err(SubmitEventError::InitialUploadConsumed { id: resource });
        }
        let head_now = self.resources[idx].event_head;
        let generation = self.resources[idx].current_generation.0;
        let capacity = self.resources[idx].capacity_bytes;
        let now_initial = self.resources[idx].has_initial_upload || upload_policy == UploadPolicy::InitialOnly;
        let mut bytes = T::encode(records.as_slice());
        let ghost enc = bytes@;
        assert(enc.len() == n * element.spec_size_bytes());
        let ghost ebig = choose|big: bool| encodes_words(
            enc,
            T::spec_words(records@),
            T::spec_element_type().spec_size_bytes() as int,
            big,
        );
        assert(encodes::<T>(enc, records@, ebig));
        let mut n_records = records.len() as u64;
        let mut dropped: u64 = 0;
        if n_records > record_count {
            dropped = n_records - record_count;
            let trim = match dropped.checked_mul(record_size) {
                None => {
                    proof {
                        assert((self@, Err::<Generation, SubmitEventError>(SubmitEventError::EventHeadOverflow { id: resource, head: dropped, increment: record_size })) == g0.event_outcome(resource, element, n, enc));
                    }
                    return Err(
                        SubmitEventError::EventHeadOverflow { id: resource, head: dropped, increment: record_size },
                    );
                },
                Some(t) => t,
            };
            if trim > usize::MAX as u64 {
                proof {
                    assert((self@, Err::<Generation, SubmitEventError>(SubmitEventError::EventHeadOverflow { id: resource, head: dropped, increment: record_size })) == g0.event_outcome(resource, element, n, enc));
                }
                return Err(
                    SubmitEventError::EventHeadOverflow { id: resource, head: dropped, increment: record_size },
                );
            }
            let tail = bytes.split_off(trim as usize);
            bytes = tail;
            n_records = record_count;
        }
        assert(bytes@ == enc.skip(dropped * record_size));
        let head_after_dropped = match head_now.checked_add(dropped) {
            None => {
                proof {
                    assert((self@, Err::<Generation, SubmitEventError>(SubmitEventError::EventHeadOverflow { id: resource, head: head_now, increment: dropped })) == g0.event_outcome(resource, element, n, enc));
                }
                return Err(SubmitEventError::EventHeadOverflow { id: resource, head: head_now, increment: dropped });
            },
            Some(h) => h,
        };
        let new_head = match head_after_dropped.checked_add(n_records) {
            None => {
                proof {
                    assert((self@, Err::<Generation, SubmitEventError>(SubmitEventError::EventHeadOverflow { id: resource, head: head_after_dropped, increment: n_records })) == g0.event_outcome(resource, element, n, enc));
                }
                return Err(
                    SubmitEventError::EventHeadOverflow {
                        id: resource,
                        head: head_after_dropped,
                        increment: n_records,
                    },
                );
            },
            Some(h) => h,
        };
        let start = head_after_dropped % record_count;
        let end = match start.checked_add(n_records) {
            None => {
                proof {
                    assert((self@, Err::<Generation, SubmitEventError>(SubmitEventError::EventHeadOverflow { id: resource, head: start, increment: n_records })) == g0.event_outcome(resource, element, n, enc));
                }
                return Err(SubmitEventError::EventHeadOverflow { id: resource, head: start, increment: n_records });
            },
            Some(x) => x,
        };
        proof {
            assert(start * record_size <= record_count * record_size) by (nonlinear_arith)
                requires
                    start < record_count,
            ;
        }
        let first_offset = start * record_size;
        let mut rest: Vec<u8> = Vec::new();
        if end > record_count {
            let first_records = record_count - start;
            let split = match first_records.checked_mul(record_size) {
                None => {
                    proof {
                        assert((self@, Err::<Generation, SubmitEventError>(SubmitEventError::EventHeadOverflow { id: resource, head: first_records, increment: record_size })) == g0.event_outcome(resource, element, n, enc));
                    }
                    return Err(
                        SubmitEventError::EventHeadOverflow {
                            id: resource,
                            head: first_records,
                            increment: record_size,
                        },
                    );
                },
                Some(x) => x,
            };
            if split > usize::MAX as u64 {
                proof {
                    assert((self@, Err::<Generation, SubmitEventError>(SubmitEventError::EventHeadOverflow { id: resource, head: first_records, increment: record_size })) == g0.event_outcome(resource, element, n, enc));
                }
                return Err(
                    SubmitEventError::EventHeadOverflow {
                        id: resource,
                        head: first_records,
                        increment: record_size,
                    },
                );
            }
            rest = bytes.split_off(split as usize);
        }
        let ghost kept_bytes = enc.skip(dropped * record_size);
        let new_generation = generation + 1;
        self.update_entry(idx, new_generation, capacity, now_initial, new_head);
        let ghost v1 = self@;
        proof {
            let new_e = ResourceEntry {
                generation: new_generation as int,
                event_head: new_head as int,
                has_initial_upload: now_initial,
                ..e
            };
            assert(v1 == g0.set_entry(resource@, new_e));
        }
        self.push_upload_if_nonempty(&resource, first_offset, bytes, new_generation);
        if end > record_count {
            self.push_upload_if_nonempty(&resource, 0, rest, new_generation);
        }
        proof {
            let split = (record_count - start) * record_size;
            if end > record_count {
                assert(self@.pending_uploads =~= v1.pending_uploads + (upload_if_nonempty(resource@, start * record_size, kept_bytes.take(split), new_generation as int)
                    + upload_if_nonempty(resource@, 0, kept_bytes.skip(split), new_generation as int)));
            } else {
                assert(self@.pending_uploads =~= v1.pending_uploads + upload_if_nonempty(resource@, start * record_size, kept_bytes, new_generation as int));
            }
        }
        if dropped > 0 {
            self.push_warning(SyncWarning::EventRingOverflow { resource: resource.clone_id(), dropped });
        }
        proof {
            reveal_view(self);
            assert forall|i: int, j: int|
                0 <= i < j < self@.resources.len() implies self@.resources[i].id != self@.resources[j].id by {
                assert(self@.resources[i].id == g0.resources[i].id);
                assert(self@.resources[j].id == g0.resources[j].id);
            }
            assert forall|i: int| 0 <= i < self@.resources.len() implies (#[trigger] self@.resources[i]).layout_ok() by {
                assert(self@.resources[i].layout == g0.resources[i].layout);
                assert(g0.resources[i].layout_ok());
            }
            assert((self@, Ok::<Generation, SubmitEventError>(Generation(new_generation))) == g0.event_outcome(resource, element, n, enc));
        }
        Ok(Generation(new_generation))
    }
}

} // verus!
