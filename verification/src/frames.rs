//! Physical frames, their classifications, and the rules by which a frame
//! passes from one classification to another.
//!
//! The classifications are the nodes of a directed graph. Two tables make up
//! the policy: [`SptmFrameKind::owner`] says which domain may act on a frame
//! of a kind, [`SptmFrameKind::may_become`] which kinds it may turn into.
//! [`SptmFrame::retype`] is the only way a frame's kind changes.

use vstd::prelude::*;

use crate::dispatch::GxfDomain;
use crate::errors::SptmRetypeError;
use crate::errors::SptmRetypeErrorKind;

verus! {

/// The classification of a physical frame.
#[derive(Debug, Clone, Copy, PartialEq, Eq, Structural)]
pub enum SptmFrameKind {
    Untyped,
    SptmUnused,
    SptmDefault,
    SptmReadOnly,
    SptmCode,
    SptmTxmCode,
    SptmXnuCode,
    SptmXnuCodeDebug,
    SptmKernelRootTable,
    SptmPageTable,
    SptmIommuBootstrap,
    XnuDefault,
    XnuReadOnly,
    XnuReadOnlyDebug,
    XnuUserExec,
    XnuUserDebug,
    XnuUserJit,
    XnuUserRootTable,
    XnuSharedRootTable,
    XnuPageTable,
    XnuPageTableShared,
    XnuPageTableROZone,
    XnuPageTableCommPage,
    XnuIommu,
    XnuROZone,
    XnuIO,
    XnuProtectedIO,
    XnuCommPageReadWrite,
    XnuCommPageReadOnly,
    XnuCommPageReadExec,
    XnuTagStorage,
    XnuStage2RootTable,
    XnuStage2PageTable,
    XnuKernelRestricted,
    XnuReserved1,
    XnuReserved2,
    XnuRestrictedIO,
    XnuRestrictedIOTelemetry,
    TxmDefault,
    TxmReadOnly,
    TxmReadWrite,
    TxmCpuStack,
    TxmThreadStack,
    TxmAddressSpaceTable,
    TxmMallocPage,
    TxmFreeList,
    TxmSlabTrustCache,
    TxmSlabProfile,
    TxmSlabCodeSignature,
    TxmSlabCodeRegion,
    TxmSlabAddressSpace,
    TxmBucket1024,
    TxmBucket2048,
    TxmBucket4096,
    TxmBucket8192,
    TxmBulkData,
    TxmBulkDataReadOnly,
    TxmLog,
    TxmSepSecureChannel,
    SkDefault,
    SkSharedReadOnly,
    SkSharedReadWrite,
    SkIo,
}

impl SptmFrameKind {
    /// The one domain that may act on a frame of this kind; `None` for an
    /// untyped frame, which any domain may claim.
    pub open spec fn spec_owner(self) -> Option<GxfDomain> {
        match self {
            SptmFrameKind::Untyped => None,
            SptmFrameKind::SptmUnused | SptmFrameKind::SptmDefault | SptmFrameKind::SptmReadOnly
            | SptmFrameKind::SptmCode | SptmFrameKind::SptmTxmCode | SptmFrameKind::SptmXnuCode
            | SptmFrameKind::SptmXnuCodeDebug | SptmFrameKind::SptmKernelRootTable
            | SptmFrameKind::SptmPageTable | SptmFrameKind::SptmIommuBootstrap
            | SptmFrameKind::XnuTagStorage => Some(GxfDomain::Sptm),
            SptmFrameKind::XnuDefault | SptmFrameKind::XnuReadOnly
            | SptmFrameKind::XnuReadOnlyDebug | SptmFrameKind::XnuUserExec
            | SptmFrameKind::XnuUserDebug | SptmFrameKind::XnuUserJit
            | SptmFrameKind::XnuUserRootTable | SptmFrameKind::XnuSharedRootTable
            | SptmFrameKind::XnuPageTable | SptmFrameKind::XnuPageTableShared
            | SptmFrameKind::XnuPageTableROZone | SptmFrameKind::XnuPageTableCommPage
            | SptmFrameKind::XnuIommu | SptmFrameKind::XnuROZone | SptmFrameKind::XnuIO
            | SptmFrameKind::XnuProtectedIO | SptmFrameKind::XnuCommPageReadWrite
            | SptmFrameKind::XnuCommPageReadOnly | SptmFrameKind::XnuCommPageReadExec
            | SptmFrameKind::XnuStage2RootTable | SptmFrameKind::XnuStage2PageTable
            | SptmFrameKind::XnuKernelRestricted | SptmFrameKind::XnuReserved1
            | SptmFrameKind::XnuReserved2 | SptmFrameKind::XnuRestrictedIO
            | SptmFrameKind::XnuRestrictedIOTelemetry => Some(GxfDomain::Xnu),
            SptmFrameKind::TxmDefault | SptmFrameKind::TxmReadOnly | SptmFrameKind::TxmReadWrite
            | SptmFrameKind::TxmCpuStack | SptmFrameKind::TxmThreadStack
            | SptmFrameKind::TxmAddressSpaceTable | SptmFrameKind::TxmMallocPage
            | SptmFrameKind::TxmFreeList | SptmFrameKind::TxmSlabTrustCache
            | SptmFrameKind::TxmSlabProfile | SptmFrameKind::TxmSlabCodeSignature
            | SptmFrameKind::TxmSlabCodeRegion | SptmFrameKind::TxmSlabAddressSpace
            | SptmFrameKind::TxmBucket1024 | SptmFrameKind::TxmBucket2048
            | SptmFrameKind::TxmBucket4096 | SptmFrameKind::TxmBucket8192
            | SptmFrameKind::TxmBulkData | SptmFrameKind::TxmBulkDataReadOnly
            | SptmFrameKind::TxmLog | SptmFrameKind::TxmSepSecureChannel => Some(GxfDomain::Txm),
            SptmFrameKind::SkDefault | SptmFrameKind::SkSharedReadOnly
            | SptmFrameKind::SkSharedReadWrite | SptmFrameKind::SkIo => Some(GxfDomain::Sk),
        }
    }

    /// Whether `by` may act on a frame of this kind.
    pub open spec fn admits(self, by: GxfDomain) -> bool {
        match self.spec_owner() {
            None => true,
            Some(owner) => owner == by,
        }
    }

    /// Whether a frame of this kind may become a frame of kind `to`.
    ///
    /// An untyped frame may become anything. The working kind of the OS
    /// domain fans out to that domain's special kinds and to the working
    /// kinds of the other domains; most special kinds lead back to it and
    /// nowhere else; a kind that is not named has no way out.
    pub open spec fn spec_may_become(self, to: SptmFrameKind) -> bool {
        match self {
            SptmFrameKind::Untyped => true,
            SptmFrameKind::XnuUserExec | SptmFrameKind::XnuUserDebug | SptmFrameKind::XnuUserJit
            | SptmFrameKind::XnuSharedRootTable | SptmFrameKind::XnuPageTable
            | SptmFrameKind::XnuPageTableShared | SptmFrameKind::XnuIommu
            | SptmFrameKind::XnuROZone | SptmFrameKind::XnuStage2RootTable
            | SptmFrameKind::XnuStage2PageTable | SptmFrameKind::XnuReserved2
            | SptmFrameKind::TxmBulkDataReadOnly => to == SptmFrameKind::XnuDefault,
            SptmFrameKind::XnuDefault => match to {
                SptmFrameKind::SptmUnused | SptmFrameKind::XnuDefault
                | SptmFrameKind::XnuUserExec | SptmFrameKind::XnuUserDebug
                | SptmFrameKind::XnuUserJit | SptmFrameKind::XnuUserRootTable
                | SptmFrameKind::XnuPageTable | SptmFrameKind::XnuPageTableShared
                | SptmFrameKind::XnuPageTableROZone | SptmFrameKind::XnuPageTableCommPage
                | SptmFrameKind::XnuIommu | SptmFrameKind::XnuROZone
                | SptmFrameKind::XnuCommPageReadExec | SptmFrameKind::XnuCommPageReadOnly
                | SptmFrameKind::XnuCommPageReadWrite | SptmFrameKind::XnuStage2RootTable
                | SptmFrameKind::XnuStage2PageTable | SptmFrameKind::XnuKernelRestricted
                | SptmFrameKind::XnuReserved2 | SptmFrameKind::TxmDefault
                | SptmFrameKind::SkDefault => true,
                _ => false,
            },
            SptmFrameKind::XnuUserRootTable => match to {
                SptmFrameKind::XnuDefault | SptmFrameKind::XnuSharedRootTable => true,
                _ => false,
            },
            SptmFrameKind::XnuKernelRestricted => match to {
                SptmFrameKind::XnuDefault | SptmFrameKind::XnuKernelRestricted => true,
                _ => false,
            },
            SptmFrameKind::TxmDefault => match to {
                SptmFrameKind::TxmFreeList | SptmFrameKind::TxmBulkData
                | SptmFrameKind::TxmBulkDataReadOnly => true,
                _ => false,
            },
            SptmFrameKind::TxmFreeList => match to {
                SptmFrameKind::XnuDefault | SptmFrameKind::TxmSlabTrustCache
                | SptmFrameKind::TxmSlabProfile | SptmFrameKind::TxmSlabCodeSignature
                | SptmFrameKind::TxmSlabCodeRegion | SptmFrameKind::TxmSlabAddressSpace
                | SptmFrameKind::TxmBucket1024 | SptmFrameKind::TxmBucket2048
                | SptmFrameKind::TxmBucket4096 | SptmFrameKind::TxmBucket8192 => true,
                _ => false,
            },
            SptmFrameKind::TxmBulkData => match to {
                SptmFrameKind::XnuDefault | SptmFrameKind::TxmBulkDataReadOnly => true,
                _ => false,
            },
            SptmFrameKind::SkDefault => match to {
                SptmFrameKind::XnuDefault | SptmFrameKind::SkSharedReadOnly
                | SptmFrameKind::SkSharedReadWrite => true,
                _ => false,
            },
            SptmFrameKind::SkSharedReadOnly => match to {
                SptmFrameKind::SkDefault | SptmFrameKind::SkSharedReadWrite => true,
                _ => false,
            },
            SptmFrameKind::SkSharedReadWrite => match to {
                SptmFrameKind::SkDefault | SptmFrameKind::SkSharedReadOnly => true,
                _ => false,
            },
            _ => false,
        }
    }

    /// The outcome of asking whether `by` may turn a frame of this kind into
    /// one of kind `to`: authority is looked at first, the transition second,
    /// and only the first failure is reported.
    pub open spec fn spec_retypable(self, by: GxfDomain, to: SptmFrameKind) -> Option<
        SptmRetypeErrorKind,
    > {
        if !self.admits(by) {
            Some(SptmRetypeErrorKind::InvalidDomain(by, self))
        } else if !self.spec_may_become(to) {
            Some(SptmRetypeErrorKind::InvalidRetype(to, self))
        } else {
            None
        }
    }

    /// Looks up the owner of this kind in the ownership table.
    pub fn owner(&self) -> (owner: Option<GxfDomain>)
        ensures
            owner == self.spec_owner(),
    {
        match *self {
            SptmFrameKind::Untyped => None,
            SptmFrameKind::SptmUnused | SptmFrameKind::SptmDefault | SptmFrameKind::SptmReadOnly
            | SptmFrameKind::SptmCode | SptmFrameKind::SptmTxmCode | SptmFrameKind::SptmXnuCode
            | SptmFrameKind::SptmXnuCodeDebug | SptmFrameKind::SptmKernelRootTable
            | SptmFrameKind::SptmPageTable | SptmFrameKind::SptmIommuBootstrap
            | SptmFrameKind::XnuTagStorage => Some(GxfDomain::Sptm),
            SptmFrameKind::XnuDefault | SptmFrameKind::XnuReadOnly
            | SptmFrameKind::XnuReadOnlyDebug | SptmFrameKind::XnuUserExec
            | SptmFrameKind::XnuUserDebug | SptmFrameKind::XnuUserJit
            | SptmFrameKind::XnuUserRootTable | SptmFrameKind::XnuSharedRootTable
            | SptmFrameKind::XnuPageTable | SptmFrameKind::XnuPageTableShared
            | SptmFrameKind::XnuPageTableROZone | SptmFrameKind::XnuPageTableCommPage
            | SptmFrameKind::XnuIommu | SptmFrameKind::XnuROZone | SptmFrameKind::XnuIO
            | SptmFrameKind::XnuProtectedIO | SptmFrameKind::XnuCommPageReadWrite
            | SptmFrameKind::XnuCommPageReadOnly | SptmFrameKind::XnuCommPageReadExec
            | SptmFrameKind::XnuStage2RootTable | SptmFrameKind::XnuStage2PageTable
            | SptmFrameKind::XnuKernelRestricted | SptmFrameKind::XnuReserved1
            | SptmFrameKind::XnuReserved2 | SptmFrameKind::XnuRestrictedIO
            | SptmFrameKind::XnuRestrictedIOTelemetry => Some(GxfDomain::Xnu),
            SptmFrameKind::TxmDefault | SptmFrameKind::TxmReadOnly | SptmFrameKind::TxmReadWrite
            | SptmFrameKind::TxmCpuStack | SptmFrameKind::TxmThreadStack
            | SptmFrameKind::TxmAddressSpaceTable | SptmFrameKind::TxmMallocPage
            | SptmFrameKind::TxmFreeList | SptmFrameKind::TxmSlabTrustCache
            | SptmFrameKind::TxmSlabProfile | SptmFrameKind::TxmSlabCodeSignature
            | SptmFrameKind::TxmSlabCodeRegion | SptmFrameKind::TxmSlabAddressSpace
            | SptmFrameKind::TxmBucket1024 | SptmFrameKind::TxmBucket2048
            | SptmFrameKind::TxmBucket4096 | SptmFrameKind::TxmBucket8192
            | SptmFrameKind::TxmBulkData | SptmFrameKind::TxmBulkDataReadOnly
            | SptmFrameKind::TxmLog | SptmFrameKind::TxmSepSecureChannel => Some(GxfDomain::Txm),
            SptmFrameKind::SkDefault | SptmFrameKind::SkSharedReadOnly
            | SptmFrameKind::SkSharedReadWrite | SptmFrameKind::SkIo => Some(GxfDomain::Sk),
        }
    }

    /// Looks up `to` among the successors of this kind in the transition
    /// table.
    pub fn may_become(&self, to: SptmFrameKind) -> (legal: bool)
        ensures
            legal == self.spec_may_become(to),
    {
        match (*self, to) {
            (SptmFrameKind::Untyped, _) => true,
            (
                SptmFrameKind::XnuDefault,
                SptmFrameKind::SptmUnused | SptmFrameKind::XnuDefault
                | SptmFrameKind::XnuUserExec | SptmFrameKind::XnuUserDebug
                | SptmFrameKind::XnuUserJit | SptmFrameKind::XnuUserRootTable
                | SptmFrameKind::XnuPageTable | SptmFrameKind::XnuPageTableShared
                | SptmFrameKind::XnuPageTableROZone | SptmFrameKind::XnuPageTableCommPage
                | SptmFrameKind::XnuIommu | SptmFrameKind::XnuROZone
                | SptmFrameKind::XnuCommPageReadExec | SptmFrameKind::XnuCommPageReadOnly
                | SptmFrameKind::XnuCommPageReadWrite | SptmFrameKind::XnuStage2RootTable
                | SptmFrameKind::XnuStage2PageTable | SptmFrameKind::XnuKernelRestricted
                | SptmFrameKind::XnuReserved2 | SptmFrameKind::TxmDefault
                | SptmFrameKind::SkDefault,
            ) => true,
            (SptmFrameKind::XnuUserExec, SptmFrameKind::XnuDefault) => true,
            (SptmFrameKind::XnuUserDebug, SptmFrameKind::XnuDefault) => true,
            (SptmFrameKind::XnuUserJit, SptmFrameKind::XnuDefault) => true,
            (
                SptmFrameKind::XnuUserRootTable,
                SptmFrameKind::XnuDefault | SptmFrameKind::XnuSharedRootTable,
            ) => true,
            (SptmFrameKind::XnuSharedRootTable, SptmFrameKind::XnuDefault) => true,
            (SptmFrameKind::XnuPageTable, SptmFrameKind::XnuDefault) => true,
            (SptmFrameKind::XnuPageTableShared, SptmFrameKind::XnuDefault) => true,
            (SptmFrameKind::XnuIommu, SptmFrameKind::XnuDefault) => true,
            (SptmFrameKind::XnuROZone, SptmFrameKind::XnuDefault) => true,
            (SptmFrameKind::XnuStage2RootTable, SptmFrameKind::XnuDefault) => true,
            (SptmFrameKind::XnuStage2PageTable, SptmFrameKind::XnuDefault) => true,
            (
                SptmFrameKind::XnuKernelRestricted,
                SptmFrameKind::XnuDefault | SptmFrameKind::XnuKernelRestricted,
            ) => true,
            (SptmFrameKind::XnuReserved2, SptmFrameKind::XnuDefault) => true,
            (
                SptmFrameKind::TxmDefault,
                SptmFrameKind::TxmFreeList | SptmFrameKind::TxmBulkData
                | SptmFrameKind::TxmBulkDataReadOnly,
            ) => true,
            (
                SptmFrameKind::TxmFreeList,
                SptmFrameKind::XnuDefault | SptmFrameKind::TxmSlabTrustCache
                | SptmFrameKind::TxmSlabProfile | SptmFrameKind::TxmSlabCodeSignature
                | SptmFrameKind::TxmSlabCodeRegion | SptmFrameKind::TxmSlabAddressSpace
                | SptmFrameKind::TxmBucket1024 | SptmFrameKind::TxmBucket2048
                | SptmFrameKind::TxmBucket4096 | SptmFrameKind::TxmBucket8192,
            ) => true,
            (
                SptmFrameKind::TxmBulkData,
                SptmFrameKind::XnuDefault | SptmFrameKind::TxmBulkDataReadOnly,
            ) => true,
            (SptmFrameKind::TxmBulkDataReadOnly, SptmFrameKind::XnuDefault) => true,
            (
                SptmFrameKind::SkDefault,
                SptmFrameKind::XnuDefault | SptmFrameKind::SkSharedReadOnly
                | SptmFrameKind::SkSharedReadWrite,
            ) => true,
            (
                SptmFrameKind::SkSharedReadOnly,
                SptmFrameKind::SkDefault | SptmFrameKind::SkSharedReadWrite,
            ) => true,
            (
                SptmFrameKind::SkSharedReadWrite,
                SptmFrameKind::SkDefault | SptmFrameKind::SkSharedReadOnly,
            ) => true,
            _ => false,
        }
    }

    /// Decides whether `by` may turn a frame of this kind into one of kind
    /// `to`, and says why not where it may not: the ownership table is
    /// consulted first, the transition table second.
    pub fn retypable(&self, by: GxfDomain, to: SptmFrameKind) -> (denial: Option<
        SptmRetypeErrorKind,
    >)
        ensures
            denial == self.spec_retypable(by, to),
    {
        if let Some(owner) = self.owner() {
            if owner != by {
                return Some(SptmRetypeErrorKind::InvalidDomain(by, *self));
            }
        }
        if !self.may_become(to) {
            return Some(SptmRetypeErrorKind::InvalidRetype(to, *self));
        }
        None
    }

    /// The name by which this kind is written in messages.
    pub open spec fn spec_name(self) -> Seq<char> {
        match self {
            SptmFrameKind::Untyped => "Untyped"@,
            SptmFrameKind::SptmUnused => "SptmUnused"@,
            SptmFrameKind::SptmDefault => "SptmDefault"@,
            SptmFrameKind::SptmReadOnly => "SptmReadOnly"@,
            SptmFrameKind::SptmCode => "SptmCode"@,
            SptmFrameKind::SptmTxmCode => "SptmTxmCode"@,
            SptmFrameKind::SptmXnuCode => "SptmXnuCode"@,
            SptmFrameKind::SptmXnuCodeDebug => "SptmXnuCodeDebug"@,
            SptmFrameKind::SptmKernelRootTable => "SptmKernelRootTable"@,
            SptmFrameKind::SptmPageTable => "SptmPageTable"@,
            SptmFrameKind::SptmIommuBootstrap => "SptmIommuBootstrap"@,
            SptmFrameKind::XnuDefault => "XnuDefault"@,
            SptmFrameKind::XnuReadOnly => "XnuReadOnly"@,
            SptmFrameKind::XnuReadOnlyDebug => "XnuReadOnlyDebug"@,
            SptmFrameKind::XnuUserExec => "XnuUserExec"@,
            SptmFrameKind::XnuUserDebug => "XnuUserDebug"@,
            SptmFrameKind::XnuUserJit => "XnuUserJit"@,
            SptmFrameKind::XnuUserRootTable => "XnuUserRootTable"@,
            SptmFrameKind::XnuSharedRootTable => "XnuSharedRootTable"@,
            SptmFrameKind::XnuPageTable => "XnuPageTable"@,
            SptmFrameKind::XnuPageTableShared => "XnuPageTableShared"@,
            SptmFrameKind::XnuPageTableROZone => "XnuPageTableROZone"@,
            SptmFrameKind::XnuPageTableCommPage => "XnuPageTableCommPage"@,
            SptmFrameKind::XnuIommu => "XnuIommu"@,
            SptmFrameKind::XnuROZone => "XnuROZone"@,
            SptmFrameKind::XnuIO => "XnuIO"@,
            SptmFrameKind::XnuProtectedIO => "XnuProtectedIO"@,
            SptmFrameKind::XnuCommPageReadWrite => "XnuCommPageReadWrite"@,
            SptmFrameKind::XnuCommPageReadOnly => "XnuCommPageReadOnly"@,
            SptmFrameKind::XnuCommPageReadExec => "XnuCommPageReadExec"@,
            SptmFrameKind::XnuTagStorage => "XnuTagStorage"@,
            SptmFrameKind::XnuStage2RootTable => "XnuStage2RootTable"@,
            SptmFrameKind::XnuStage2PageTable => "XnuStage2PageTable"@,
            SptmFrameKind::XnuKernelRestricted => "XnuKernelRestricted"@,
            SptmFrameKind::XnuReserved1 => "XnuReserved1"@,
            SptmFrameKind::XnuReserved2 => "XnuReserved2"@,
            SptmFrameKind::XnuRestrictedIO => "XnuRestrictedIO"@,
            SptmFrameKind::XnuRestrictedIOTelemetry => "XnuRestrictedIOTelemetry"@,
            SptmFrameKind::TxmDefault => "TxmDefault"@,
            SptmFrameKind::TxmReadOnly => "TxmReadOnly"@,
            SptmFrameKind::TxmReadWrite => "TxmReadWrite"@,
            SptmFrameKind::TxmCpuStack => "TxmCpuStack"@,
            SptmFrameKind::TxmThreadStack => "TxmThreadStack"@,
            SptmFrameKind::TxmAddressSpaceTable => "TxmAddressSpaceTable"@,
            SptmFrameKind::TxmMallocPage => "TxmMallocPage"@,
            SptmFrameKind::TxmFreeList => "TxmFreeList"@,
            SptmFrameKind::TxmSlabTrustCache => "TxmSlabTrustCache"@,
            SptmFrameKind::TxmSlabProfile => "TxmSlabProfile"@,
            SptmFrameKind::TxmSlabCodeSignature => "TxmSlabCodeSignature"@,
            SptmFrameKind::TxmSlabCodeRegion => "TxmSlabCodeRegion"@,
            SptmFrameKind::TxmSlabAddressSpace => "TxmSlabAddressSpace"@,
            SptmFrameKind::TxmBucket1024 => "TxmBucket1024"@,
            SptmFrameKind::TxmBucket2048 => "TxmBucket2048"@,
            SptmFrameKind::TxmBucket4096 => "TxmBucket4096"@,
            SptmFrameKind::TxmBucket8192 => "TxmBucket8192"@,
            SptmFrameKind::TxmBulkData => "TxmBulkData"@,
            SptmFrameKind::TxmBulkDataReadOnly => "TxmBulkDataReadOnly"@,
            SptmFrameKind::TxmLog => "TxmLog"@,
            SptmFrameKind::TxmSepSecureChannel => "TxmSepSecureChannel"@,
            SptmFrameKind::SkDefault => "SkDefault"@,
            SptmFrameKind::SkSharedReadOnly => "SkSharedReadOnly"@,
            SptmFrameKind::SkSharedReadWrite => "SkSharedReadWrite"@,
            SptmFrameKind::SkIo => "SkIo"@,
        }
    }

    /// The name of this kind, as it is written in messages.
    pub fn name(&self) -> (name: &'static str)
        ensures
            name@ == self.spec_name(),
    {
        match self {
            SptmFrameKind::Untyped => "Untyped",
            SptmFrameKind::SptmUnused => "SptmUnused",
            SptmFrameKind::SptmDefault => "SptmDefault",
            SptmFrameKind::SptmReadOnly => "SptmReadOnly",
            SptmFrameKind::SptmCode => "SptmCode",
            SptmFrameKind::SptmTxmCode => "SptmTxmCode",
            SptmFrameKind::SptmXnuCode => "SptmXnuCode",
            SptmFrameKind::SptmXnuCodeDebug => "SptmXnuCodeDebug",
            SptmFrameKind::SptmKernelRootTable => "SptmKernelRootTable",
            SptmFrameKind::SptmPageTable => "SptmPageTable",
            SptmFrameKind::SptmIommuBootstrap => "SptmIommuBootstrap",
            SptmFrameKind::XnuDefault => "XnuDefault",
            SptmFrameKind::XnuReadOnly => "XnuReadOnly",
            SptmFrameKind::XnuReadOnlyDebug => "XnuReadOnlyDebug",
            SptmFrameKind::XnuUserExec => "XnuUserExec",
            SptmFrameKind::XnuUserDebug => "XnuUserDebug",
            SptmFrameKind::XnuUserJit => "XnuUserJit",
            SptmFrameKind::XnuUserRootTable => "XnuUserRootTable",
            SptmFrameKind::XnuSharedRootTable => "XnuSharedRootTable",
            SptmFrameKind::XnuPageTable => "XnuPageTable",
            SptmFrameKind::XnuPageTableShared => "XnuPageTableShared",
            SptmFrameKind::XnuPageTableROZone => "XnuPageTableROZone",
            SptmFrameKind::XnuPageTableCommPage => "XnuPageTableCommPage",
            SptmFrameKind::XnuIommu => "XnuIommu",
            SptmFrameKind::XnuROZone => "XnuROZone",
            SptmFrameKind::XnuIO => "XnuIO",
            SptmFrameKind::XnuProtectedIO => "XnuProtectedIO",
            SptmFrameKind::XnuCommPageReadWrite => "XnuCommPageReadWrite",
            SptmFrameKind::XnuCommPageReadOnly => "XnuCommPageReadOnly",
            SptmFrameKind::XnuCommPageReadExec => "XnuCommPageReadExec",
            SptmFrameKind::XnuTagStorage => "XnuTagStorage",
            SptmFrameKind::XnuStage2RootTable => "XnuStage2RootTable",
            SptmFrameKind::XnuStage2PageTable => "XnuStage2PageTable",
            SptmFrameKind::XnuKernelRestricted => "XnuKernelRestricted",
            SptmFrameKind::XnuReserved1 => "XnuReserved1",
            SptmFrameKind::XnuReserved2 => "XnuReserved2",
            SptmFrameKind::XnuRestrictedIO => "XnuRestrictedIO",
            SptmFrameKind::XnuRestrictedIOTelemetry => "XnuRestrictedIOTelemetry",
            SptmFrameKind::TxmDefault => "TxmDefault",
            SptmFrameKind::TxmReadOnly => "TxmReadOnly",
            SptmFrameKind::TxmReadWrite => "TxmReadWrite",
            SptmFrameKind::TxmCpuStack => "TxmCpuStack",
            SptmFrameKind::TxmThreadStack => "TxmThreadStack",
            SptmFrameKind::TxmAddressSpaceTable => "TxmAddressSpaceTable",
            SptmFrameKind::TxmMallocPage => "TxmMallocPage",
            SptmFrameKind::TxmFreeList => "TxmFreeList",
            SptmFrameKind::TxmSlabTrustCache => "TxmSlabTrustCache",
            SptmFrameKind::TxmSlabProfile => "TxmSlabProfile",
            SptmFrameKind::TxmSlabCodeSignature => "TxmSlabCodeSignature",
            SptmFrameKind::TxmSlabCodeRegion => "TxmSlabCodeRegion",
            SptmFrameKind::TxmSlabAddressSpace => "TxmSlabAddressSpace",
            SptmFrameKind::TxmBucket1024 => "TxmBucket1024",
            SptmFrameKind::TxmBucket2048 => "TxmBucket2048",
            SptmFrameKind::TxmBucket4096 => "TxmBucket4096",
            SptmFrameKind::TxmBucket8192 => "TxmBucket8192",
            SptmFrameKind::TxmBulkData => "TxmBulkData",
            SptmFrameKind::TxmBulkDataReadOnly => "TxmBulkDataReadOnly",
            SptmFrameKind::TxmLog => "TxmLog",
            SptmFrameKind::TxmSepSecureChannel => "TxmSepSecureChannel",
            SptmFrameKind::SkDefault => "SkDefault",
            SptmFrameKind::SkSharedReadOnly => "SkSharedReadOnly",
            SptmFrameKind::SkSharedReadWrite => "SkSharedReadWrite",
            SptmFrameKind::SkIo => "SkIo",
        }
    }

    /// Every kind but `Untyped` has exactly one domain that may act on it,
    /// and `Untyped` admits them all.
    pub proof fn lemma_single_owner(self, by: GxfDomain)
        ensures
            self == SptmFrameKind::Untyped ==> self.admits(by),
            self != SptmFrameKind::Untyped ==> self.spec_owner() is Some && (self.admits(by) <==> by
                == self.spec_owner()->Some_0),
    {
    }
}

/// A physical frame: where it lies and how it is classified.
///
/// The kind is set when the frame is made and from then on changes through
/// [`SptmFrame::retype`] alone.
#[derive(Debug)]
pub struct SptmFrame {
    address: u64,
    kind: SptmFrameKind,
}

impl SptmFrame {
    /// The physical address of the frame.
    pub closed spec fn spec_address(&self) -> u64 {
        self.address
    }

    /// The frame's present classification.
    pub closed spec fn spec_kind(&self) -> SptmFrameKind {
        self.kind
    }

    /// Why a retype of this frame is denied, if it is: a stale claim about
    /// the frame's kind comes before a lack of authority, and that before a
    /// transition that the table does not hold.
    pub open spec fn denial(&self, from: SptmFrameKind, to: SptmFrameKind, by: GxfDomain) -> Option<
        SptmRetypeError,
    > {
        if self.spec_kind() != from {
            Some(
                SptmRetypeError {
                    address: self.spec_address(),
                    kind: SptmRetypeErrorKind::InvalidFromKind(from),
                },
            )
        } else {
            match self.spec_kind().spec_retypable(by, to) {
                Some(kind) => Some(SptmRetypeError { address: self.spec_address(), kind }),
                None => None,
            }
        }
    }

    /// A frame at `address`, classified as `kind`.
    pub fn new(address: u64, kind: SptmFrameKind) -> (frame: Self)
        ensures
            frame.spec_address() == address,
            frame.spec_kind() == kind,
    {
        Self { address, kind }
    }

    /// Where the frame lies.
    #[verifier::when_used_as_spec(spec_address)]
    pub fn address(&self) -> (address: u64)
        ensures
            address == self.spec_address(),
    {
        self.address
    }

    /// How the frame is classified at present.
    #[verifier::when_used_as_spec(spec_kind)]
    pub fn kind(&self) -> (kind: SptmFrameKind)
        ensures
            kind == self.spec_kind(),
    {
        self.kind
    }

    /// Reclassifies the frame as `to` on behalf of `domain`, which claims
    /// that the frame is of kind `from`.
    ///
    /// The frame becomes `to` exactly when nothing is returned. A denial
    /// leaves the frame as it was.
    pub fn retype(&mut self, from: SptmFrameKind, to: SptmFrameKind, domain: GxfDomain) -> (denial:
        Option<SptmRetypeError>)
        ensures
            denial == old(self).denial(from, to, domain),
            final(self).spec_address() == old(self).spec_address(),
            denial is Some ==> final(self).spec_kind() == old(self).spec_kind(),
            denial is None ==> final(self).spec_kind() == to,
    {
        if self.kind != from {
            return Some(SptmRetypeError::new(self.address, SptmRetypeErrorKind::InvalidFromKind(from)));
        }
        if let Some(kind) = self.kind.retypable(domain, to) {
            return Some(SptmRetypeError::new(self.address, kind));
        }
        self.kind = to;

        None
    }

    /// A retype whose claim is right, whose domain has authority over the
    /// frame, and whose target is not a successor of the frame's kind is
    /// denied as an invalid retype.
    pub proof fn lemma_illegal_transition_denied(&self, to: SptmFrameKind, by: GxfDomain)
        requires
            !self.spec_kind().spec_may_become(to),
            self.spec_kind().admits(by),
        ensures
            self.denial(self.spec_kind(), to, by) == Some(
                SptmRetypeError {
                    address: self.spec_address(),
                    kind: SptmRetypeErrorKind::InvalidRetype(to, self.spec_kind()),
                },
            ),
    {
    }

    /// A retype whose target is not a successor of the frame's kind is
    /// denied, whoever asks.
    pub proof fn lemma_illegal_transition_never_succeeds(
        &self,
        from: SptmFrameKind,
        to: SptmFrameKind,
        by: GxfDomain,
    )
        requires
            !self.spec_kind().spec_may_become(to),
        ensures
            self.denial(from, to, by) is Some,
    {
    }

    /// An untyped frame can be claimed by any domain as any kind.
    pub proof fn lemma_untyped_retype_succeeds(&self, to: SptmFrameKind, by: GxfDomain)
        requires
            self.spec_kind() == SptmFrameKind::Untyped,
        ensures
            self.denial(SptmFrameKind::Untyped, to, by) is None,
    {
    }
}

} // verus!
