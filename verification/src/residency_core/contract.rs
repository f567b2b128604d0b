//! Sync contracts: residency, authority, and upload/readback/resize policies.

use vstd::prelude::*;

verus! {

/// Where the resource normally lives.
///
/// Residency only describes physical location; it does not imply freshness or
/// mutation authority.
#[derive(Clone, Copy, Debug, PartialEq, Eq, Structural, Hash)]
pub enum Residency {
    /// Resource storage normally resides in CPU memory.
    Cpu,
    /// Resource storage normally resides in GPU/backend memory.
    Gpu,
    /// Resource storage is expected to be mirrored between CPU and backend.
    Mirrored,
}

/// Which side is allowed to mutate the resource.
#[derive(Clone, Copy, Debug, PartialEq, Eq, Structural, Hash)]
pub enum Authority {
    /// CPU-side data is the authoritative source for resource mutations.
    CpuAuthoritative,
    /// Backend/GPU-side data is the authoritative source for resource mutations.
    GpuAuthoritative,
}

/// Whether the CPU may push data into the resource.
#[derive(Clone, Copy, Debug, PartialEq, Eq, Structural, Hash)]
pub enum UploadPolicy {
    /// CPU cannot upload data.
    Deny,
    /// CPU may upload initial contents once; subsequent patches are denied.
    InitialOnly,
    /// CPU may submit validated patches at any time.
    PatchesAllowed,
}

/// Whether the CPU may request data from the resource.
#[derive(Clone, Copy, Debug, PartialEq, Eq, Structural, Hash)]
pub enum ReadbackPolicy {
    /// CPU cannot request readback at all.
    Deny,
    /// CPU may only read declared diagnostics.
    DiagnosticsOnly,
    /// CPU may request normal views.
    ViewsAllowed,
    /// Full readback allowed only as an explicit `Snapshot`.
    SnapshotOnly,
}

/// How the resource may grow at runtime.
#[derive(Clone, Copy, Debug, PartialEq, Eq, Structural, Hash)]
pub enum ResizePolicy {
    /// Reject writes or views beyond bounds.
    Fixed,
    /// Framework may request backend reallocation, rounded up to the next
    /// power of two. Optional cap in bytes.
    GrowPowerOfTwo {
        /// Optional maximum byte capacity allowed after growth.
        max_bytes: Option<u64>,
    },
    /// Framework detects resize need but refuses to reallocate automatically.
    ExternalManaged,
}

/// The full sync contract attached to a resource.
#[derive(Clone, Copy, Debug, PartialEq, Eq, Structural, Hash)]
pub struct SyncContract {
    /// Preferred physical residency for the resource.
    pub residency: Residency,
    /// Side that is allowed to authoritatively mutate the resource.
    pub authority: Authority,
    /// Policy controlling CPU-to-backend uploads.
    pub upload: UploadPolicy,
    /// Policy controlling backend-to-CPU readbacks.
    pub readback: ReadbackPolicy,
    /// Policy controlling backend storage growth.
    pub resize: ResizePolicy,
}

/// Errors produced by `SyncContract::validate`.
#[derive(Clone, Copy, Debug, PartialEq, Eq, Structural)]
pub enum ContractError {
    /// CPU-authoritative resources must allow some CPU upload path.
    CpuAuthoritativeWithoutUploads,
}

/// Legal-but-surprising combinations surfaced by `SyncContract::lint`.
#[derive(Clone, Copy, Debug, PartialEq, Eq, Structural, Hash)]
pub enum ContractLint {
    /// GPU-authoritative resource that also accepts CPU patches; the CPU may
    /// overwrite GPU writes.
    GpuAuthoritativeWithCpuPatches,
    /// CPU-resident resource exposed only via `Snapshot` views; routine reads
    /// are denied.
    CpuResidentSnapshotOnly,
}

impl SyncContract {
    /// A contract is contradictory when the CPU is the authority but may not
    /// upload anything: then no side can author the resource.
    pub open spec fn contradictory(self) -> bool {
        self.authority == Authority::CpuAuthoritative && self.upload == UploadPolicy::Deny
    }

    /// The soft lints of a contract, in the order they are reported.
    pub open spec fn lints(self) -> Seq<ContractLint> {
        let first = if self.authority == Authority::GpuAuthoritative
            && self.upload == UploadPolicy::PatchesAllowed {
            seq![ContractLint::GpuAuthoritativeWithCpuPatches]
        } else {
            Seq::empty()
        };
        let second = if self.residency == Residency::Cpu && self.readback
            == ReadbackPolicy::SnapshotOnly {
            seq![ContractLint::CpuResidentSnapshotOnly]
        } else {
            Seq::empty()
        };
        first + second
    }

    /// Hard-reject contradictory combinations. `SyncGraph::register`
    /// short-circuits on `Err`.
    pub fn validate(&self) -> (r: Result<(), ContractError>)
        ensures
            r is Err <==> self.contradictory(),
            r is Err ==> r == Err::<(), ContractError>(ContractError::CpuAuthoritativeWithoutUploads),
    {
        if self.authority == Authority::CpuAuthoritative && self.upload == UploadPolicy::Deny {
            return Err(ContractError::CpuAuthoritativeWithoutUploads);
        }
        Ok(())
    }

    /// Soft lints — combinations that are legal but surprising. `SyncGraph`
    /// surfaces these as `SyncWarning::ContractLint` at registration time.
    pub fn lint(&self) -> (lints: Vec<ContractLint>)
        ensures
            lints@ == self.lints(),
    {
        let mut lints = Vec::new();
        if self.authority == Authority::GpuAuthoritative && self.upload
            == UploadPolicy::PatchesAllowed {
            lints.push(ContractLint::GpuAuthoritativeWithCpuPatches);
        }
        if self.residency == Residency::Cpu && self.readback == ReadbackPolicy::SnapshotOnly {
            lints.push(ContractLint::CpuResidentSnapshotOnly);
        }
        proof {
            assert(lints@ =~= self.lints());
        }
        lints
    }
}

} // verus!
