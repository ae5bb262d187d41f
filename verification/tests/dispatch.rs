use gxf_vm::dispatch::{GxfDispatchTable, GxfDispatcher, GxfDomain, GxfEndpoint};
use gxf_vm::errors::GxfDispatchError;

fn compose(domain: u8, table: u8, endpoint: u32) -> u64 {
    ((domain as u64) << 48) | ((table as u64) << 32) | (endpoint as u64)
}

fn fields(request: &GxfDispatcher) -> (GxfDomain, GxfDispatchTable, GxfEndpoint) {
    (request.domain(), request.table(), request.endpoint())
}

#[test]
fn domain_ids_zero_to_four_decode() {
    assert_eq!(GxfDomain::try_from(0u8), Ok(GxfDomain::Sptm));
    assert_eq!(GxfDomain::try_from(1u8), Ok(GxfDomain::Xnu));
    assert_eq!(GxfDomain::try_from(2u8), Ok(GxfDomain::Txm));
    assert_eq!(GxfDomain::try_from(3u8), Ok(GxfDomain::Sk));
    assert_eq!(GxfDomain::try_from(4u8), Ok(GxfDomain::Hib));
}

#[test]
fn domain_ids_from_five_are_unknown() {
    for raw in 5u8..=255 {
        assert_eq!(GxfDomain::try_from(raw), Err(GxfDispatchError::UnknownDomain));
    }
}

#[test]
fn table_ids_decode_in_order() {
    let expected = [
        GxfDispatchTable::XnuBootstrap,
        GxfDispatchTable::TxmBootstrap,
        GxfDispatchTable::SkBootstrap,
        GxfDispatchTable::T8110DartXnu,
        GxfDispatchTable::T8110DartSk,
        GxfDispatchTable::Sart,
        GxfDispatchTable::Nvme,
        GxfDispatchTable::Uat,
        GxfDispatchTable::Shart,
        GxfDispatchTable::Reserved,
        GxfDispatchTable::Hib,
        GxfDispatchTable::Invalid,
    ];
    for (raw, table) in expected.iter().enumerate() {
        assert_eq!(GxfDispatchTable::try_from(raw as u8), Ok(*table));
        assert_eq!(table.id(), raw as u8);
    }
}

#[test]
fn table_ids_from_twelve_are_unknown() {
    for raw in 12u8..=255 {
        assert_eq!(GxfDispatchTable::try_from(raw), Err(GxfDispatchError::UnknownTable));
    }
}

#[test]
fn endpoint_ids_decode_in_order() {
    let expected = [
        GxfEndpoint::LockDown,
        GxfEndpoint::Retype,
        GxfEndpoint::MapPage,
        GxfEndpoint::MapTable,
        GxfEndpoint::UnmapTable,
        GxfEndpoint::UpdateRegion,
        GxfEndpoint::UpdateDisjoint,
        GxfEndpoint::UnmapRegion,
        GxfEndpoint::UnmapDisjoint,
        GxfEndpoint::ConfigureSharedRegion,
        GxfEndpoint::NestRegion,
        GxfEndpoint::UnnestRegion,
        GxfEndpoint::ConfigureRoot,
        GxfEndpoint::SwitchRoot,
        GxfEndpoint::RegisterCpu,
        GxfEndpoint::FixUpsComplete,
        GxfEndpoint::SignUserPointer,
        GxfEndpoint::AuthUserPointer,
        GxfEndpoint::RegisterExcReturn,
        GxfEndpoint::CpuId,
        GxfEndpoint::SlideRegion,
        GxfEndpoint::UpdateDisjointMultipage,
        GxfEndpoint::RegRead,
        GxfEndpoint::RegWrite,
        GxfEndpoint::GuestVaToIpa,
        GxfEndpoint::GuestStage1TlbOp,
        GxfEndpoint::GuestStage2TlbOp,
        GxfEndpoint::GuestDispatch,
        GxfEndpoint::GuestExit,
        GxfEndpoint::MapSkDomain,
        GxfEndpoint::HibBegin,
        GxfEndpoint::HibVerifyHashNonWired,
        GxfEndpoint::HibFinalizeNonWired,
        GxfEndpoint::IoFilterProtectedWrite,
    ];
    assert_eq!(expected.len(), 34);
    for (raw, endpoint) in expected.iter().enumerate() {
        assert_eq!(GxfEndpoint::try_from(raw as u32), Ok(*endpoint));
        assert_eq!(endpoint.id(), raw as u32);
    }
}

#[test]
fn endpoint_ids_from_thirty_four_are_unknown() {
    for raw in [34u32, 35, 255, 256, 0x1_0000, 0x8000_0000, u32::MAX] {
        assert_eq!(GxfEndpoint::try_from(raw), Err(GxfDispatchError::UnknownEndpoint));
    }
}

#[test]
fn domain_ids_are_their_positions() {
    assert_eq!(GxfDomain::Sptm.id(), 0);
    assert_eq!(GxfDomain::Xnu.id(), 1);
    assert_eq!(GxfDomain::Txm.id(), 2);
    assert_eq!(GxfDomain::Sk.id(), 3);
    assert_eq!(GxfDomain::Hib.id(), 4);
}

#[test]
fn map_page_through_txm_bootstrap_decodes() {
    let decoded = GxfDispatcher::try_from(0x0000_0001_0000_0002u64).unwrap();
    assert_eq!(decoded.domain(), GxfDomain::Sptm);
    assert_eq!(decoded.table(), GxfDispatchTable::TxmBootstrap);
    assert_eq!(decoded.endpoint(), GxfEndpoint::MapPage);
}

#[test]
fn domain_field_ff_is_unknown_whatever_else() {
    assert_eq!(
        GxfDispatcher::try_from(0x00ff_0001_0000_0002u64),
        Err(GxfDispatchError::UnknownDomain)
    );
    assert_eq!(
        GxfDispatcher::try_from(0x00ff_0000_0000_0000u64),
        Err(GxfDispatchError::UnknownDomain)
    );
    assert_eq!(GxfDispatcher::try_from(u64::MAX), Err(GxfDispatchError::UnknownDomain));
}

#[test]
fn unknown_domain_shadows_unknown_table() {
    let descriptor = compose(5, 12, 0);
    assert_eq!(GxfDispatcher::try_from(descriptor), Err(GxfDispatchError::UnknownDomain));
    let descriptor = compose(200, 200, 200);
    assert_eq!(GxfDispatcher::try_from(descriptor), Err(GxfDispatchError::UnknownDomain));
}

#[test]
fn unknown_table_shadows_unknown_endpoint() {
    let descriptor = compose(4, 12, 34);
    assert_eq!(GxfDispatcher::try_from(descriptor), Err(GxfDispatchError::UnknownTable));
}

#[test]
fn unknown_endpoint_is_reported_last() {
    let descriptor = compose(4, 11, 34);
    assert_eq!(GxfDispatcher::try_from(descriptor), Err(GxfDispatchError::UnknownEndpoint));
    let descriptor = compose(0, 0, 0x0001_0000);
    assert_eq!(GxfDispatcher::try_from(descriptor), Err(GxfDispatchError::UnknownEndpoint));
}

#[test]
fn every_descriptor_field_combination_decodes_or_fails() {
    for domain in 0u8..=8 {
        for table in 0u8..=15 {
            for endpoint in 0u32..=40 {
                let decoded = GxfDispatcher::try_from(compose(domain, table, endpoint));
                if domain >= 5 {
                    assert_eq!(decoded, Err(GxfDispatchError::UnknownDomain));
                } else if table >= 12 {
                    assert_eq!(decoded, Err(GxfDispatchError::UnknownTable));
                } else if endpoint >= 34 {
                    assert_eq!(decoded, Err(GxfDispatchError::UnknownEndpoint));
                } else {
                    let request = decoded.unwrap();
                    assert_eq!(request.domain().id(), domain);
                    assert_eq!(request.table().id(), table);
                    assert_eq!(request.endpoint().id(), endpoint);
                }
            }
        }
    }
}

#[test]
fn every_valid_triple_round_trips() {
    for domain in 0u8..5 {
        for table in 0u8..12 {
            for endpoint in 0u32..34 {
                let triple = (
                    GxfDomain::try_from(domain).unwrap(),
                    GxfDispatchTable::try_from(table).unwrap(),
                    GxfEndpoint::try_from(endpoint).unwrap(),
                );
                let composed = compose(triple.0.id(), triple.1.id(), triple.2.id());
                let request = GxfDispatcher::try_from(composed).unwrap();
                assert_eq!(fields(&request), triple);
                assert_eq!(request.descriptor(), composed);
                assert_eq!(GxfDispatcher::try_from(request.descriptor()), Ok(request));
            }
        }
    }
}

#[test]
fn descriptor_of_hib_invalid_io_filter() {
    let request = GxfDispatcher::try_from(0x0004_000b_0000_0021u64).unwrap();
    assert_eq!(
        fields(&request),
        (GxfDomain::Hib, GxfDispatchTable::Invalid, GxfEndpoint::IoFilterProtectedWrite)
    );
    assert_eq!(request.descriptor(), 0x0004_000b_0000_0021u64);
}

#[test]
fn reserved_bits_are_ignored() {
    let plain = GxfDispatcher::try_from(0x0001_0003_0000_0001u64);
    assert_eq!(
        fields(&plain.unwrap()),
        (GxfDomain::Xnu, GxfDispatchTable::T8110DartXnu, GxfEndpoint::Retype)
    );
    assert_eq!(GxfDispatcher::try_from(0x0001_ff03_0000_0001u64), plain);
    assert_eq!(GxfDispatcher::try_from(0xff01_0003_0000_0001u64), plain);
    assert_eq!(GxfDispatcher::try_from(0xab01_cd03_0000_0001u64), plain);
    assert_eq!(
        GxfDispatcher::try_from(0xab01_cd03_0000_0001u64).unwrap().descriptor(),
        0x0001_0003_0000_0001u64
    );
}
