//! The call descriptor and its three fields.
//!
//! A descriptor is one 64-bit word: bits 48 to 55 name the calling domain,
//! bits 32 to 39 the dispatch table, bits 0 to 31 the endpoint. Bits 40 to 47
//! and 56 to 63 carry nothing and are ignored.

use vstd::prelude::*;
use vstd::std_specs::convert::TryFromSpecImpl;

use crate::errors::GxfDispatchError;

verus! {

/// The privilege domain that makes a call.
#[derive(Debug, Clone, Copy, PartialEq, Eq, Structural)]
pub enum GxfDomain {
    Sptm,
    Xnu,
    Txm,
    Sk,
    Hib,
}

impl GxfDomain {
    /// The number that stands for this domain in a call descriptor.
    pub open spec fn spec_id(self) -> u8 {
        match self {
            GxfDomain::Sptm => 0,
            GxfDomain::Xnu => 1,
            GxfDomain::Txm => 2,
            GxfDomain::Sk => 3,
            GxfDomain::Hib => 4,
        }
    }

    /// The domain that `value` stands for, or the error where it stands for
    /// none.
    pub open spec fn spec_try_from(value: u8) -> Result<Self, GxfDispatchError> {
        if value == 0 {
            Ok(GxfDomain::Sptm)
        } else if value == 1 {
            Ok(GxfDomain::Xnu)
        } else if value == 2 {
            Ok(GxfDomain::Txm)
        } else if value == 3 {
            Ok(GxfDomain::Sk)
        } else if value == 4 {
            Ok(GxfDomain::Hib)
        } else {
            Err(GxfDispatchError::UnknownDomain)
        }
    }

    /// The name by which this domain is written in messages.
    pub open spec fn spec_name(self) -> Seq<char> {
        match self {
            GxfDomain::Sptm => "Sptm"@,
            GxfDomain::Xnu => "Xnu"@,
            GxfDomain::Txm => "Txm"@,
            GxfDomain::Sk => "Sk"@,
            GxfDomain::Hib => "Hib"@,
        }
    }

    /// Encodes this identifier as the number that a descriptor carries.
    #[verifier::when_used_as_spec(spec_id)]
    pub fn id(self) -> (raw: u8)
        ensures
            raw == self.spec_id(),
    {
        match self {
            GxfDomain::Sptm => 0,
            GxfDomain::Xnu => 1,
            GxfDomain::Txm => 2,
            GxfDomain::Sk => 3,
            GxfDomain::Hib => 4,
        }
    }

    /// The name of this domain, as it is written in messages.
    pub fn name(&self) -> (name: &'static str)
        ensures
            name@ == self.spec_name(),
    {
        match self {
            GxfDomain::Sptm => "Sptm",
            GxfDomain::Xnu => "Xnu",
            GxfDomain::Txm => "Txm",
            GxfDomain::Sk => "Sk",
            GxfDomain::Hib => "Hib",
        }
    }

    /// Every domain decodes from its own number, which is below 5.
    pub proof fn lemma_id_decodes(self)
        ensures
            self.id() < 5,
            GxfDomain::spec_try_from(self.id()) == Ok::<GxfDomain, GxfDispatchError>(self),
    {
    }

    /// A number decodes exactly when it is below 5, and then to the domain
    /// that it stands for.
    pub proof fn lemma_decode_inverts_id(value: u8)
        ensures
            GxfDomain::spec_try_from(value) is Ok <==> value < 5,
            match GxfDomain::spec_try_from(value) {
                Ok(decoded) => decoded.id() == value,
                Err(error) => error == GxfDispatchError::UnknownDomain,
            },
    {
    }
}

impl TryFrom<u8> for GxfDomain {
    type Error = GxfDispatchError;

    fn try_from(value: u8) -> (decoded: Result<Self, GxfDispatchError>)
        ensures
            decoded == GxfDomain::spec_try_from(value),
    {
        match value {
            0 => Ok(GxfDomain::Sptm),
            1 => Ok(GxfDomain::Xnu),
            2 => Ok(GxfDomain::Txm),
            3 => Ok(GxfDomain::Sk),
            4 => Ok(GxfDomain::Hib),
            _ => Err(GxfDispatchError::UnknownDomain),
        }
    }
}

impl TryFromSpecImpl<u8> for GxfDomain {
    open spec fn obeys_try_from_spec() -> bool {
        true
    }

    open spec fn try_from_spec(value: u8) -> Result<Self, GxfDispatchError> {
        GxfDomain::spec_try_from(value)
    }
}

/// The subsystem whose dispatch table a call goes through.
#[derive(Debug, Clone, Copy, PartialEq, Eq, Structural)]
pub enum GxfDispatchTable {
    XnuBootstrap,
    TxmBootstrap,
    SkBootstrap,
    T8110DartXnu,
    T8110DartSk,
    Sart,
    Nvme,
    Uat,
    Shart,
    Reserved,
    Hib,
    Invalid,
}

impl GxfDispatchTable {
    /// The number that stands for this table in a call descriptor.
    pub open spec fn spec_id(self) -> u8 {
        match self {
            GxfDispatchTable::XnuBootstrap => 0,
            GxfDispatchTable::TxmBootstrap => 1,
            GxfDispatchTable::SkBootstrap => 2,
            GxfDispatchTable::T8110DartXnu => 3,
            GxfDispatchTable::T8110DartSk => 4,
            GxfDispatchTable::Sart => 5,
            GxfDispatchTable::Nvme => 6,
            GxfDispatchTable::Uat => 7,
            GxfDispatchTable::Shart => 8,
            GxfDispatchTable::Reserved => 9,
            GxfDispatchTable::Hib => 10,
            GxfDispatchTable::Invalid => 11,
        }
    }

    /// The table that `value` stands for, or the error where it stands for
    /// none.
    pub open spec fn spec_try_from(value: u8) -> Result<Self, GxfDispatchError> {
        if value == 0 {
            Ok(GxfDispatchTable::XnuBootstrap)
        } else if value == 1 {
            Ok(GxfDispatchTable::TxmBootstrap)
        } else if value == 2 {
            Ok(GxfDispatchTable::SkBootstrap)
        } else if value == 3 {
            Ok(GxfDispatchTable::T8110DartXnu)
        } else if value == 4 {
            Ok(GxfDispatchTable::T8110DartSk)
        } else if value == 5 {
            Ok(GxfDispatchTable::Sart)
        } else if value == 6 {
            Ok(GxfDispatchTable::Nvme)
        } else if value == 7 {
            Ok(GxfDispatchTable::Uat)
        } else if value == 8 {
            Ok(GxfDispatchTable::Shart)
        } else if value == 9 {
            Ok(GxfDispatchTable::Reserved)
        } else if value == 10 {
            Ok(GxfDispatchTable::Hib)
        } else if value == 11 {
            Ok(GxfDispatchTable::Invalid)
        } else {
            Err(GxfDispatchError::UnknownTable)
        }
    }

    /// Encodes this identifier as the number that a descriptor carries.
    #[verifier::when_used_as_spec(spec_id)]
    pub fn id(self) -> (raw: u8)
        ensures
            raw == self.spec_id(),
    {
        match self {
            GxfDispatchTable::XnuBootstrap => 0,
            GxfDispatchTable::TxmBootstrap => 1,
            GxfDispatchTable::SkBootstrap => 2,
            GxfDispatchTable::T8110DartXnu => 3,
            GxfDispatchTable::T8110DartSk => 4,
            GxfDispatchTable::Sart => 5,
            GxfDispatchTable::Nvme => 6,
            GxfDispatchTable::Uat => 7,
            GxfDispatchTable::Shart => 8,
            GxfDispatchTable::Reserved => 9,
            GxfDispatchTable::Hib => 10,
            GxfDispatchTable::Invalid => 11,
        }
    }

    /// Every table decodes from its own number, which is below 12.
    pub proof fn lemma_id_decodes(self)
        ensures
            self.id() < 12,
            GxfDispatchTable::spec_try_from(self.id()) == Ok::<GxfDispatchTable, GxfDispatchError>(self),
    {
    }

    /// A number decodes exactly when it is below 12, and then to the table
    /// that it stands for.
    pub proof fn lemma_decode_inverts_id(value: u8)
        ensures
            GxfDispatchTable::spec_try_from(value) is Ok <==> value < 12,
            match GxfDispatchTable::spec_try_from(value) {
                Ok(decoded) => decoded.id() == value,
                Err(error) => error == GxfDispatchError::UnknownTable,
            },
    {
    }
}

impl TryFrom<u8> for GxfDispatchTable {
    type Error = GxfDispatchError;

    fn try_from(value: u8) -> (decoded: Result<Self, GxfDispatchError>)
        ensures
            decoded == GxfDispatchTable::spec_try_from(value),
    {
        match value {
            0 => Ok(GxfDispatchTable::XnuBootstrap),
            1 => Ok(GxfDispatchTable::TxmBootstrap),
            2 => Ok(GxfDispatchTable::SkBootstrap),
            3 => Ok(GxfDispatchTable::T8110DartXnu),
            4 => Ok(GxfDispatchTable::T8110DartSk),
            5 => Ok(GxfDispatchTable::Sart),
            6 => Ok(GxfDispatchTable::Nvme),
            7 => Ok(GxfDispatchTable::Uat),
            8 => Ok(GxfDispatchTable::Shart),
            9 => Ok(GxfDispatchTable::Reserved),
            10 => Ok(GxfDispatchTable::Hib),
            11 => Ok(GxfDispatchTable::Invalid),
            _ => Err(GxfDispatchError::UnknownTable),
        }
    }
}

impl TryFromSpecImpl<u8> for GxfDispatchTable {
    open spec fn obeys_try_from_spec() -> bool {
        true
    }

    open spec fn try_from_spec(value: u8) -> Result<Self, GxfDispatchError> {
        GxfDispatchTable::spec_try_from(value)
    }
}

/// The operation that a call asks for.
#[derive(Debug, Clone, Copy, PartialEq, Eq, Structural)]
pub enum GxfEndpoint {
    LockDown,
    Retype,
    MapPage,
    MapTable,
    UnmapTable,
    UpdateRegion,
    UpdateDisjoint,
    UnmapRegion,
    UnmapDisjoint,
    ConfigureSharedRegion,
    NestRegion,
    UnnestRegion,
    ConfigureRoot,
    SwitchRoot,
    RegisterCpu,
    FixUpsComplete,
    SignUserPointer,
    AuthUserPointer,
    RegisterExcReturn,
    CpuId,
    SlideRegion,
    UpdateDisjointMultipage,
    RegRead,
    RegWrite,
    GuestVaToIpa,
    GuestStage1TlbOp,
    GuestStage2TlbOp,
    GuestDispatch,
    GuestExit,
    MapSkDomain,
    HibBegin,
    HibVerifyHashNonWired,
    HibFinalizeNonWired,
    IoFilterProtectedWrite,
}

impl GxfEndpoint {
    /// The number that stands for this endpoint in a call descriptor.
    pub open spec fn spec_id(self) -> u32 {
        match self {
            GxfEndpoint::LockDown => 0,
            GxfEndpoint::Retype => 1,
            GxfEndpoint::MapPage => 2,
            GxfEndpoint::MapTable => 3,
            GxfEndpoint::UnmapTable => 4,
            GxfEndpoint::UpdateRegion => 5,
            GxfEndpoint::UpdateDisjoint => 6,
            GxfEndpoint::UnmapRegion => 7,
            GxfEndpoint::UnmapDisjoint => 8,
            GxfEndpoint::ConfigureSharedRegion => 9,
            GxfEndpoint::NestRegion => 10,
            GxfEndpoint::UnnestRegion => 11,
            GxfEndpoint::ConfigureRoot => 12,
            GxfEndpoint::SwitchRoot => 13,
            GxfEndpoint::RegisterCpu => 14,
            GxfEndpoint::FixUpsComplete => 15,
            GxfEndpoint::SignUserPointer => 16,
            GxfEndpoint::AuthUserPointer => 17,
            GxfEndpoint::RegisterExcReturn => 18,
            GxfEndpoint::CpuId => 19,
            GxfEndpoint::SlideRegion => 20,
            GxfEndpoint::UpdateDisjointMultipage => 21,
            GxfEndpoint::RegRead => 22,
            GxfEndpoint::RegWrite => 23,
            GxfEndpoint::GuestVaToIpa => 24,
            GxfEndpoint::GuestStage1TlbOp => 25,
            GxfEndpoint::GuestStage2TlbOp => 26,
            GxfEndpoint::GuestDispatch => 27,
            GxfEndpoint::GuestExit => 28,
            GxfEndpoint::MapSkDomain => 29,
            GxfEndpoint::HibBegin => 30,
            GxfEndpoint::HibVerifyHashNonWired => 31,
            GxfEndpoint::HibFinalizeNonWired => 32,
            GxfEndpoint::IoFilterProtectedWrite => 33,
        }
    }

    /// The endpoint that `value` stands for, or the error where it stands for
    /// none.
    pub open spec fn spec_try_from(value: u32) -> Result<Self, GxfDispatchError> {
        if value == 0 {
            Ok(GxfEndpoint::LockDown)
        } else if value == 1 {
            Ok(GxfEndpoint::Retype)
        } else if value == 2 {
            Ok(GxfEndpoint::MapPage)
        } else if value == 3 {
            Ok(GxfEndpoint::MapTable)
        } else if value == 4 {
            Ok(GxfEndpoint::UnmapTable)
        } else if value == 5 {
            Ok(GxfEndpoint::UpdateRegion)
        } else if value == 6 {
            Ok(GxfEndpoint::UpdateDisjoint)
        } else if value == 7 {
            Ok(GxfEndpoint::UnmapRegion)
        } else if value == 8 {
            Ok(GxfEndpoint::UnmapDisjoint)
        } else if value == 9 {
            Ok(GxfEndpoint::ConfigureSharedRegion)
        } else if value == 10 {
            Ok(GxfEndpoint::NestRegion)
        } else if value == 11 {
            Ok(GxfEndpoint::UnnestRegion)
        } else if value == 12 {
            Ok(GxfEndpoint::ConfigureRoot)
        } else if value == 13 {
            Ok(GxfEndpoint::SwitchRoot)
        } else if value == 14 {
            Ok(GxfEndpoint::RegisterCpu)
        } else if value == 15 {
            Ok(GxfEndpoint::FixUpsComplete)
        } else if value == 16 {
            Ok(GxfEndpoint::SignUserPointer)
        } else if value == 17 {
            Ok(GxfEndpoint::AuthUserPointer)
        } else if value == 18 {
            Ok(GxfEndpoint::RegisterExcReturn)
        } else if value == 19 {
            Ok(GxfEndpoint::CpuId)
        } else if value == 20 {
            Ok(GxfEndpoint::SlideRegion)
        } else if value == 21 {
            Ok(GxfEndpoint::UpdateDisjointMultipage)
        } else if value == 22 {
            Ok(GxfEndpoint::RegRead)
        } else if value == 23 {
            Ok(GxfEndpoint::RegWrite)
        } else if value == 24 {
            Ok(GxfEndpoint::GuestVaToIpa)
        } else if value == 25 {
            Ok(GxfEndpoint::GuestStage1TlbOp)
        } else if value == 26 {
            Ok(GxfEndpoint::GuestStage2TlbOp)
        } else if value == 27 {
            Ok(GxfEndpoint::GuestDispatch)
        } else if value == 28 {
            Ok(GxfEndpoint::GuestExit)
        } else if value == 29 {
            Ok(GxfEndpoint::MapSkDomain)
        } else if value == 30 {
            Ok(GxfEndpoint::HibBegin)
        } else if value == 31 {
            Ok(GxfEndpoint::HibVerifyHashNonWired)
        } else if value == 32 {
            Ok(GxfEndpoint::HibFinalizeNonWired)
        } else if value == 33 {
            Ok(GxfEndpoint::IoFilterProtectedWrite)
        } else {
            Err(GxfDispatchError::UnknownEndpoint)
        }
    }

    /// Encodes this identifier as the number that a descriptor carries.
    #[verifier::when_used_as_spec(spec_id)]
    pub fn id(self) -> (raw: u32)
        ensures
            raw == self.spec_id(),
    {
        match self {
            GxfEndpoint::LockDown => 0,
            GxfEndpoint::Retype => 1,
            GxfEndpoint::MapPage => 2,
            GxfEndpoint::MapTable => 3,
            GxfEndpoint::UnmapTable => 4,
            GxfEndpoint::UpdateRegion => 5,
            GxfEndpoint::UpdateDisjoint => 6,
            GxfEndpoint::UnmapRegion => 7,
            GxfEndpoint::UnmapDisjoint => 8,
            GxfEndpoint::ConfigureSharedRegion => 9,
            GxfEndpoint::NestRegion => 10,
            GxfEndpoint::UnnestRegion => 11,
            GxfEndpoint::ConfigureRoot => 12,
            GxfEndpoint::SwitchRoot => 13,
            GxfEndpoint::RegisterCpu => 14,
            GxfEndpoint::FixUpsComplete => 15,
            GxfEndpoint::SignUserPointer => 16,
            GxfEndpoint::AuthUserPointer => 17,
            GxfEndpoint::RegisterExcReturn => 18,
            GxfEndpoint::CpuId => 19,
            GxfEndpoint::SlideRegion => 20,
            GxfEndpoint::UpdateDisjointMultipage => 21,
            GxfEndpoint::RegRead => 22,
            GxfEndpoint::RegWrite => 23,
            GxfEndpoint::GuestVaToIpa => 24,
            GxfEndpoint::GuestStage1TlbOp => 25,
            GxfEndpoint::GuestStage2TlbOp => 26,
            GxfEndpoint::GuestDispatch => 27,
            GxfEndpoint::GuestExit => 28,
            GxfEndpoint::MapSkDomain => 29,
            GxfEndpoint::HibBegin => 30,
            GxfEndpoint::HibVerifyHashNonWired => 31,
            GxfEndpoint::HibFinalizeNonWired => 32,
            GxfEndpoint::IoFilterProtectedWrite => 33,
        }
    }

    /// Every endpoint decodes from its own number, which is below 34.
    pub proof fn lemma_id_decodes(self)
        ensures
            self.id() < 34,
            GxfEndpoint::spec_try_from(self.id()) == Ok::<GxfEndpoint, GxfDispatchError>(self),
    {
    }

    /// A number decodes exactly when it is below 34, and then to the endpoint
    /// that it stands for.
    pub proof fn lemma_decode_inverts_id(value: u32)
        ensures
            GxfEndpoint::spec_try_from(value) is Ok <==> value < 34,
            match GxfEndpoint::spec_try_from(value) {
                Ok(decoded) => decoded.id() == value,
                Err(error) => error == GxfDispatchError::UnknownEndpoint,
            },
    {
    }
}

impl TryFrom<u32> for GxfEndpoint {
    type Error = GxfDispatchError;

    fn try_from(value: u32) -> (decoded: Result<Self, GxfDispatchError>)
        ensures
            decoded == GxfEndpoint::spec_try_from(value),
    {
        match value {
            0 => Ok(GxfEndpoint::LockDown),
            1 => Ok(GxfEndpoint::Retype),
            2 => Ok(GxfEndpoint::MapPage),
            3 => Ok(GxfEndpoint::MapTable),
            4 => Ok(GxfEndpoint::UnmapTable),
            5 => Ok(GxfEndpoint::UpdateRegion),
            6 => Ok(GxfEndpoint::UpdateDisjoint),
            7 => Ok(GxfEndpoint::UnmapRegion),
            8 => Ok(GxfEndpoint::UnmapDisjoint),
            9 => Ok(GxfEndpoint::ConfigureSharedRegion),
            10 => Ok(GxfEndpoint::NestRegion),
            11 => Ok(GxfEndpoint::UnnestRegion),
            12 => Ok(GxfEndpoint::ConfigureRoot),
            13 => Ok(GxfEndpoint::SwitchRoot),
            14 => Ok(GxfEndpoint::RegisterCpu),
            15 => Ok(GxfEndpoint::FixUpsComplete),
            16 => Ok(GxfEndpoint::SignUserPointer),
            17 => Ok(GxfEndpoint::AuthUserPointer),
            18 => Ok(GxfEndpoint::RegisterExcReturn),
            19 => Ok(GxfEndpoint::CpuId),
            20 => Ok(GxfEndpoint::SlideRegion),
            21 => Ok(GxfEndpoint::UpdateDisjointMultipage),
            22 => Ok(GxfEndpoint::RegRead),
            23 => Ok(GxfEndpoint::RegWrite),
            24 => Ok(GxfEndpoint::GuestVaToIpa),
            25 => Ok(GxfEndpoint::GuestStage1TlbOp),
            26 => Ok(GxfEndpoint::GuestStage2TlbOp),
            27 => Ok(GxfEndpoint::GuestDispatch),
            28 => Ok(GxfEndpoint::GuestExit),
            29 => Ok(GxfEndpoint::MapSkDomain),
            30 => Ok(GxfEndpoint::HibBegin),
            31 => Ok(GxfEndpoint::HibVerifyHashNonWired),
            32 => Ok(GxfEndpoint::HibFinalizeNonWired),
            33 => Ok(GxfEndpoint::IoFilterProtectedWrite),
            _ => Err(GxfDispatchError::UnknownEndpoint),
        }
    }
}

impl TryFromSpecImpl<u32> for GxfEndpoint {
    open spec fn obeys_try_from_spec() -> bool {
        true
    }

    open spec fn try_from_spec(value: u32) -> Result<Self, GxfDispatchError> {
        GxfEndpoint::spec_try_from(value)
    }
}

/// A decoded call: which domain asks which table for which endpoint.
///
/// A request comes into being through a successful decode and in no other
/// way, and nothing changes it afterwards. Its view is the triple of its
/// fields.
#[derive(Debug, Clone, Copy, PartialEq, Eq, Structural)]
pub struct GxfDispatcher {
    domain: GxfDomain,
    table: GxfDispatchTable,
    endpoint: GxfEndpoint,
}

impl View for GxfDispatcher {
    type V = (GxfDomain, GxfDispatchTable, GxfEndpoint);

    closed spec fn view(&self) -> (GxfDomain, GxfDispatchTable, GxfEndpoint) {
        (self.domain, self.table, self.endpoint)
    }
}

impl GxfDispatcher {
    /// Bits 48 to 55 of a descriptor.
    pub open spec fn domain_field(descriptor: u64) -> u8 {
        ((descriptor >> 48) & 0xff) as u8
    }

    /// Bits 32 to 39 of a descriptor.
    pub open spec fn table_field(descriptor: u64) -> u8 {
        ((descriptor >> 32) & 0xff) as u8
    }

    /// Bits 0 to 31 of a descriptor.
    pub open spec fn endpoint_field(descriptor: u64) -> u32 {
        (descriptor & 0xffff_ffff) as u32
    }

    /// The triple that a descriptor holds, or the error for the first of its
    /// fields, in the order domain, table, endpoint, that holds no known
    /// identifier.
    pub open spec fn spec_try_from(value: u64) -> Result<
        (GxfDomain, GxfDispatchTable, GxfEndpoint),
        GxfDispatchError,
    > {
        let domain = GxfDomain::spec_try_from(Self::domain_field(value));
        let table = GxfDispatchTable::spec_try_from(Self::table_field(value));
        let endpoint = GxfEndpoint::spec_try_from(Self::endpoint_field(value));
        if domain is Err {
            Err(GxfDispatchError::UnknownDomain)
        } else if table is Err {
            Err(GxfDispatchError::UnknownTable)
        } else if endpoint is Err {
            Err(GxfDispatchError::UnknownEndpoint)
        } else {
            Ok((domain->Ok_0, table->Ok_0, endpoint->Ok_0))
        }
    }

    /// The descriptor with the three identifiers in their fields and every
    /// other bit clear.
    pub open spec fn compose(
        domain: GxfDomain,
        table: GxfDispatchTable,
        endpoint: GxfEndpoint,
    ) -> u64 {
        ((domain.id() as u64) << 48) | ((table.id() as u64) << 32) | (endpoint.id() as u64)
    }

    /// The domain that makes the call.
    pub fn domain(&self) -> (domain: GxfDomain)
        ensures
            domain == self@.0,
    {
        self.domain
    }

    /// The dispatch table that the call goes through.
    pub fn table(&self) -> (table: GxfDispatchTable)
        ensures
            table == self@.1,
    {
        self.table
    }

    /// The operation that the call asks for.
    pub fn endpoint(&self) -> (endpoint: GxfEndpoint)
        ensures
            endpoint == self@.2,
    {
        self.endpoint
    }

    /// Composes the descriptor that decodes to this request.
    pub fn descriptor(&self) -> (descriptor: u64)
        ensures
            descriptor == Self::compose(self@.0, self@.1, self@.2),
            Self::spec_try_from(descriptor) == Ok::<
                (GxfDomain, GxfDispatchTable, GxfEndpoint),
                GxfDispatchError,
            >(self@),
    {
        proof {
            Self::lemma_descriptor_roundtrip(self.domain, self.table, self.endpoint);
        }
        let domain: u64 = self.domain.id() as u64;
        let table: u64 = self.table.id() as u64;
        let endpoint: u64 = self.endpoint.id() as u64;
        (domain << 48) | (table << 32) | endpoint
    }

    /// Composing three identifiers into a descriptor puts each of them, and
    /// nothing else, into its field.
    pub proof fn lemma_fields_of_composed(domain: u8, table: u8, endpoint: u32)
        ensures
            Self::domain_field(
                ((domain as u64) << 48) | ((table as u64) << 32) | (endpoint as u64),
            ) == domain,
            Self::table_field(
                ((domain as u64) << 48) | ((table as u64) << 32) | (endpoint as u64),
            ) == table,
            Self::endpoint_field(
                ((domain as u64) << 48) | ((table as u64) << 32) | (endpoint as u64),
            ) == endpoint,
    {
        let composed: u64 = ((domain as u64) << 48) | ((table as u64) << 32) | (endpoint as u64);
        assert(((composed >> 48) & 0xff) as u8 == domain) by (bit_vector)
            requires
                composed == ((domain as u64) << 48) | ((table as u64) << 32) | (endpoint as u64),
        ;
        assert(((composed >> 32) & 0xff) as u8 == table) by (bit_vector)
            requires
                composed == ((domain as u64) << 48) | ((table as u64) << 32) | (endpoint as u64),
        ;
        assert((composed & 0xffff_ffff) as u32 == endpoint) by (bit_vector)
            requires
                composed == ((domain as u64) << 48) | ((table as u64) << 32) | (endpoint as u64),
        ;
    }

    /// Decoding the descriptor composed from a domain, a table and an
    /// endpoint gives back exactly those three.
    pub proof fn lemma_descriptor_roundtrip(
        domain: GxfDomain,
        table: GxfDispatchTable,
        endpoint: GxfEndpoint,
    )
        ensures
            Self::spec_try_from(Self::compose(domain, table, endpoint)) == Ok::<
                (GxfDomain, GxfDispatchTable, GxfEndpoint),
                GxfDispatchError,
            >((domain, table, endpoint)),
    {
        Self::lemma_fields_of_composed(domain.id(), table.id(), endpoint.id());
        domain.lemma_id_decodes();
        table.lemma_id_decodes();
        endpoint.lemma_id_decodes();
    }

    /// Every descriptor has exactly one outcome, and its fields decide which,
    /// in the order domain, table, endpoint: an unknown domain is reported
    /// whatever the other two hold, an unknown table whatever the endpoint
    /// holds, and a descriptor decodes exactly when all three are known.
    pub proof fn lemma_first_unknown_field_reported(descriptor: u64)
        ensures
            Self::spec_try_from(descriptor) == Err::<
                (GxfDomain, GxfDispatchTable, GxfEndpoint),
                GxfDispatchError,
            >(GxfDispatchError::UnknownDomain) <==> Self::domain_field(descriptor) >= 5,
            Self::spec_try_from(descriptor) == Err::<
                (GxfDomain, GxfDispatchTable, GxfEndpoint),
                GxfDispatchError,
            >(GxfDispatchError::UnknownTable) <==> Self::domain_field(descriptor) < 5
                && Self::table_field(descriptor) >= 12,
            Self::spec_try_from(descriptor) == Err::<
                (GxfDomain, GxfDispatchTable, GxfEndpoint),
                GxfDispatchError,
            >(GxfDispatchError::UnknownEndpoint) <==> Self::domain_field(descriptor) < 5
                && Self::table_field(descriptor) < 12 && Self::endpoint_field(descriptor) >= 34,
            Self::spec_try_from(descriptor) is Ok <==> Self::domain_field(descriptor) < 5
                && Self::table_field(descriptor) < 12 && Self::endpoint_field(descriptor) < 34,
            Self::spec_try_from(descriptor) is Ok ==> {
                let triple = Self::spec_try_from(descriptor)->Ok_0;
                &&& triple.0.id() == Self::domain_field(descriptor)
                &&& triple.1.id() == Self::table_field(descriptor)
                &&& triple.2.id() == Self::endpoint_field(descriptor)
            },
    {
        GxfDomain::lemma_decode_inverts_id(Self::domain_field(descriptor));
        GxfDispatchTable::lemma_decode_inverts_id(Self::table_field(descriptor));
        GxfEndpoint::lemma_decode_inverts_id(Self::endpoint_field(descriptor));
    }

    /// The bits outside the three fields have no say: two descriptors that
    /// agree on the fields have the same outcome.
    pub proof fn lemma_reserved_bits_ignored(descriptor: u64, other: u64)
        requires
            Self::domain_field(descriptor) == Self::domain_field(other),
            Self::table_field(descriptor) == Self::table_field(other),
            Self::endpoint_field(descriptor) == Self::endpoint_field(other),
        ensures
            Self::spec_try_from(descriptor) == Self::spec_try_from(other),
    {
    }
}

impl TryFrom<u64> for GxfDispatcher {
    type Error = GxfDispatchError;

    /// Decodes the three fields in the order domain, table, endpoint and
    /// stops at the first that holds no known identifier.
    fn try_from(value: u64) -> (decoded: Result<Self, GxfDispatchError>)
        ensures
            match GxfDispatcher::spec_try_from(value) {
                Ok(triple) => decoded is Ok && decoded->Ok_0@ == triple,
                Err(error) => decoded == Err::<GxfDispatcher, GxfDispatchError>(error),
            },
    {
        let domain_bits: u64 = (value >> 48) & 0xff;
        let table_bits: u64 = (value >> 32) & 0xff;
        let endpoint_bits: u64 = value & 0xffff_ffff;
        let domain = match GxfDomain::try_from(domain_bits as u8) {
            Ok(domain) => domain,
            Err(error) => {
                return Err(error);
            },
        };
        let table = match GxfDispatchTable::try_from(table_bits as u8) {
            Ok(table) => table,
            Err(error) => {
                return Err(error);
            },
        };
        let endpoint = match GxfEndpoint::try_from(endpoint_bits as u32) {
            Ok(endpoint) => endpoint,
            Err(error) => {
                return Err(error);
            },
        };
        Ok(Self { domain, table, endpoint })
    }
}

impl TryFromSpecImpl<u64> for GxfDispatcher {
    open spec fn obeys_try_from_spec() -> bool {
        true
    }

    closed spec fn try_from_spec(value: u64) -> Result<Self, GxfDispatchError> {
        match GxfDispatcher::spec_try_from(value) {
            Ok(triple) => Ok(GxfDispatcher { domain: triple.0, table: triple.1, endpoint: triple.2 }),
            Err(error) => Err(error),
        }
    }
}

} // verus!
