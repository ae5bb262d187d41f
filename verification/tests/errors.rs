use gxf_vm::dispatch::GxfDomain;
use gxf_vm::errors::{
    hex_digit, push_hex16, GxfDispatchError, SptmRetypeError, SptmRetypeErrorKind,
};
use gxf_vm::frames::SptmFrameKind;

#[test]
fn dispatch_error_messages() {
    assert_eq!(
        GxfDispatchError::UnknownDomain.message(),
        "Error decoding GxfDispatcher: Unknown domain"
    );
    assert_eq!(
        GxfDispatchError::UnknownEndpoint.message(),
        "Error decoding GxfDispatcher: Unknown endpoint"
    );
    assert_eq!(
        GxfDispatchError::UnknownTable.message(),
        "Error decoding GxfDispatcher: Unknown dispatch table"
    );
}

#[test]
fn hex_digits_are_lower_case() {
    let digits: Vec<char> = (0u8..16).map(hex_digit).collect();
    let text: String = digits.into_iter().collect();
    assert_eq!(text, "0123456789abcdef");
    assert_eq!(hex_digit(16), '0');
    assert_eq!(hex_digit(0xff), 'f');
}

#[test]
fn push_hex16_pads_to_sixteen_digits() {
    let mut text = String::from("0x");
    push_hex16(&mut text, 0x1000);
    assert_eq!(text, "0x0000000000001000");
    let mut text = String::new();
    push_hex16(&mut text, 0);
    assert_eq!(text, "0000000000000000");
    let mut text = String::new();
    push_hex16(&mut text, u64::MAX);
    assert_eq!(text, "ffffffffffffffff");
    let mut text = String::new();
    push_hex16(&mut text, 0x0123_4567_89ab_cdef);
    assert_eq!(text, "0123456789abcdef");
}

#[test]
fn push_hex16_agrees_with_std_formatting() {
    for value in [1u64, 0xdead_beef, 0x8000_0000_0000_0000, 0x0fed_cba9_8765_4321, 0x10] {
        let mut text = String::new();
        push_hex16(&mut text, value);
        assert_eq!(text, format!("{:016x}", value));
    }
}

#[test]
fn domain_names_are_their_variants() {
    for domain in [GxfDomain::Sptm, GxfDomain::Xnu, GxfDomain::Txm, GxfDomain::Sk, GxfDomain::Hib] {
        assert_eq!(domain.name(), format!("{:?}", domain));
    }
}

#[test]
fn kind_names_are_their_variants() {
    assert_eq!(SptmFrameKind::Untyped.name(), "Untyped");
    assert_eq!(SptmFrameKind::XnuPageTableROZone.name(), "XnuPageTableROZone");
    assert_eq!(SptmFrameKind::TxmBucket8192.name(), "TxmBucket8192");
    assert_eq!(SptmFrameKind::SkIo.name(), "SkIo");
}

#[test]
fn invalid_domain_message() {
    let kind = SptmRetypeErrorKind::InvalidDomain(GxfDomain::Sk, SptmFrameKind::XnuDefault);
    assert_eq!(
        kind.message(),
        "Domain 'Sk' is invalid for current frame type 'XnuDefault'."
    );
}

#[test]
fn invalid_from_kind_message() {
    let kind = SptmRetypeErrorKind::InvalidFromKind(SptmFrameKind::TxmLog);
    assert_eq!(kind.message(), "Specified \"from\" type 'TxmLog' does not match FTE.");
}

#[test]
fn invalid_retype_message() {
    let kind =
        SptmRetypeErrorKind::InvalidRetype(SptmFrameKind::XnuUserDebug, SptmFrameKind::XnuUserExec);
    assert_eq!(
        kind.message(),
        "Cannot retype frame from type 'XnuUserDebug' to 'XnuUserExec'."
    );
}

#[test]
fn retype_error_message_leads_with_the_address() {
    let error = SptmRetypeError::new(
        0x8_0000_4000,
        SptmRetypeErrorKind::InvalidDomain(GxfDomain::Hib, SptmFrameKind::SptmCode),
    );
    assert_eq!(
        error.message(),
        "Error retyping frame at 0x0000000800004000: Domain 'Hib' is invalid for current frame type 'SptmCode'."
    );
}
