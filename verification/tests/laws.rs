//! Concrete cases of what the library promises: report checks, the
//! certificate table, wire formats, status codes and the retry schedule.

use sev_snp::backend::configfs::{
    check_generation, check_provider, extended_from_blobs, parse_decimal, privlevel_floor_from,
    report_from_outblob, write_plan, writes_for, AttributeWrite,
};
use sev_snp::backend::ioctl::{
    cert_buffer_len, check_msg_version, derived_key_from_response, ext_report_req,
    ext_report_step, iowr, ExtReportStep,
    needs_cert_buffer, parse_response, report_from_response, report_req, requested_cert_len,
    set_cert_buffer,
};
use sev_snp::backend::select_transport;
use sev_snp::detect::{capabilities_from_cpuid, is_snp_guest_from, Capabilities};
use sev_snp::error::{from_exitinfo2, is_transient, IoErrorClass};
use sev_snp::retry::next_retry;
use sev_snp::{
    AttestationReport, CertKind, CertTable, DerivedKey, Error, FirmwareError, FirmwareVersion,
    Fms, GuestPolicy, KeyRequest, ParseError, PlatformInfo, Product, ReportRequest, RootKey,
    SignatureAlgo, SignerInfo, SigningKey, TcbLayout, TcbParts, TcbVersion, Transport, VmmError,
};

/// A report of the given version whose report data is `data` and whose VMPL
/// is `vmpl`.
fn report_bytes(version: u32, data: &[u8; 64], vmpl: u32) -> Vec<u8> {
    let mut r = vec![0u8; AttestationReport::SIZE];
    r[0..4].copy_from_slice(&version.to_le_bytes());
    r[0x30..0x34].copy_from_slice(&vmpl.to_le_bytes());
    r[0x50..0x90].copy_from_slice(data);
    r
}

/// A certificate table entry.
fn entry(guid: &[u8; 16], offset: u32, length: u32) -> Vec<u8> {
    let mut e = guid.to_vec();
    e.extend_from_slice(&offset.to_le_bytes());
    e.extend_from_slice(&length.to_le_bytes());
    e
}

#[test]
fn a_report_answering_another_request_is_refused() {
    let ours = [7u8; 64];
    let theirs = [9u8; 64];
    let request = ReportRequest::new().data(ours);

    let bytes = report_bytes(5, &ours, 0);
    let report = report_from_outblob(&request, &bytes).expect("answers our request");
    assert_eq!(report.report_data(), ours);

    let bytes = report_bytes(5, &theirs, 0);
    assert!(matches!(
        report_from_outblob(&request, &bytes),
        Err(Error::Mismatch)
    ));

    // An explicitly requested VMPL must be echoed too.
    let at_two = ReportRequest::new().data(ours).vmpl(2);
    let bytes = report_bytes(5, &ours, 0);
    assert!(matches!(
        report_from_outblob(&at_two, &bytes),
        Err(Error::Mismatch)
    ));
    let bytes = report_bytes(5, &ours, 2);
    assert!(report_from_outblob(&at_two, &bytes).is_ok());

    // Without an explicit VMPL, any level the kernel chose is accepted.
    let bytes = report_bytes(5, &ours, 3);
    assert!(report_from_outblob(&request, &bytes).is_ok());
}

#[test]
fn extended_reports_are_checked_and_carry_their_certificates() {
    let data = [1u8; 64];
    let request = ReportRequest::from(data);
    let outblob = report_bytes(3, &data, 0);
    let mut aux = entry(&[0x11; 16], 48, 4);
    aux.extend_from_slice(&[0u8; 24]);
    aux.extend_from_slice(&[1, 2, 3, 4]);
    let ext = extended_from_blobs(&request, &outblob, &aux).expect("well-formed");
    assert_eq!(ext.certificates.len(), 1);
    assert_eq!(ext.certificates.entries()[0].kind(), CertKind::Unknown);
    assert_eq!(ext.certificates.entries()[0].data(), &[1, 2, 3, 4]);

    let other = ReportRequest::from(&[2u8; 64]);
    assert!(matches!(
        extended_from_blobs(&other, &outblob, &aux),
        Err(Error::Mismatch)
    ));
}

#[test]
fn configfs_generation_detects_a_concurrent_writer() {
    let plain = ReportRequest::new();
    let with_vmpl = ReportRequest::new().vmpl(1);
    assert_eq!(writes_for(&plain), 1);
    assert_eq!(writes_for(&with_vmpl), 2);

    assert!(check_generation(&plain, b"1\n").is_ok());
    assert!(matches!(check_generation(&plain, b"2\n"), Err(Error::Raced)));
    assert!(check_generation(&with_vmpl, b" 2 ").is_ok());
    assert!(matches!(
        check_generation(&with_vmpl, b"1"),
        Err(Error::Raced)
    ));
    assert!(matches!(
        check_generation(&plain, b"garbage"),
        Err(Error::Raced)
    ));
}

#[test]
fn attribute_text_reads_as_a_decimal_number() {
    assert_eq!(parse_decimal(b"18446744073709551615"), Some(u64::MAX));
    assert_eq!(parse_decimal(b"18446744073709551616"), None);
    assert_eq!(parse_decimal(b"+7"), Some(7));
    assert_eq!(parse_decimal(b" 12\n"), Some(12));
    assert_eq!(parse_decimal(b""), None);
    assert_eq!(parse_decimal(b"+"), None);
    assert_eq!(parse_decimal(b"1 2"), None);
    assert_eq!(parse_decimal(b"-1"), None);

    assert_eq!(privlevel_floor_from(b"3\n").ok(), Some(3));
    assert!(matches!(
        privlevel_floor_from(b"4294967296"),
        Err(Error::InvalidArgument(_))
    ));
    assert!(matches!(
        privlevel_floor_from(b"abc"),
        Err(Error::InvalidArgument(_))
    ));

    // Unicode whitespace is trimmed as `str::trim` trims it.
    assert_eq!(parse_decimal("\u{A0}3\u{3000}".as_bytes()), Some(3));
    assert_eq!(parse_decimal("\u{2028}\u{85}+9\u{205F}\u{1680}".as_bytes()), Some(9));
    assert_eq!(parse_decimal("\u{200B}3".as_bytes()), None);
    assert!(check_provider("\u{2003}sev_guest\u{A0}".as_bytes()).is_ok());
}

#[test]
fn only_the_sev_guest_provider_is_accepted() {
    assert!(check_provider(b"sev_guest\n").is_ok());
    assert!(matches!(
        check_provider(b"tdx_guest\n"),
        Err(Error::WrongProvider)
    ));
    assert!(matches!(check_provider(b""), Err(Error::WrongProvider)));
}

#[test]
fn certificate_blobs_are_bounded_before_decoding() {
    let huge = vec![0u8; CertTable::MAX_LEN + 1];
    assert!(matches!(
        CertTable::parse(&huge),
        Err(Error::Parse(ParseError::CertTableTooLarge(0x4001)))
    ));

    // A table that never terminates is too short.
    let unterminated = entry(&[0x22; 16], 0, 0);
    assert!(matches!(
        CertTable::parse(&unterminated),
        Err(Error::Parse(ParseError::TooShort {
            what: "certificate table entry",
            need: 48,
            got: 24
        }))
    ));

    // A body that starts inside but ends outside the blob is out of bounds.
    let mut spill = entry(&[0x22; 16], 40, 16);
    spill.extend_from_slice(&[0u8; 24]);
    assert!(matches!(
        CertTable::parse(&spill),
        Err(Error::Parse(ParseError::CertTableOutOfBounds))
    ));
}

#[test]
fn certificate_kinds_follow_the_ghcb_guids() {
    let ark = [
        0xc0, 0xb4, 0x06, 0xa4, 0xa8, 0x03, 0x49, 0x52, 0x97, 0x43, 0x3f, 0xb6, 0x01, 0x4c, 0xd0,
        0xae,
    ];
    let ask = [
        0x4a, 0xb7, 0xb3, 0x79, 0xbb, 0xac, 0x4f, 0xe4, 0xa0, 0x2f, 0x05, 0xae, 0xf3, 0x27, 0xc7,
        0x82,
    ];
    let mut blob = entry(&ark, 72, 2);
    blob.extend(entry(&ask, 74, 3));
    blob.extend_from_slice(&[0u8; 24]);
    blob.extend_from_slice(&[0xA1, 0xA2, 0xB1, 0xB2, 0xB3]);

    let table = CertTable::parse(&blob).expect("two entries");
    assert_eq!(table.entries().len(), 2);
    assert_eq!(table.entries()[0].kind(), CertKind::Ark);
    assert_eq!(table.entries()[0].guid(), &ark);
    assert_eq!(table.get(CertKind::Ask).expect("ASK").data(), &[0xB1, 0xB2, 0xB3]);
    assert!(table.get(CertKind::Vcek).is_none());
    assert!(!table.is_empty());
    assert_eq!(CertKind::from_guid(&[0u8; 16]), CertKind::Asvk);
}

#[test]
fn exitinfo2_prefers_the_hypervisor_half() {
    assert!(from_exitinfo2(0).is_none());
    assert!(matches!(
        from_exitinfo2(0x15),
        Some(Error::Firmware(FirmwareError::Unsupported))
    ));
    assert!(matches!(
        from_exitinfo2((2 << 32) | 0x15),
        Some(Error::Vmm(VmmError::Busy))
    ));
    assert!(matches!(
        from_exitinfo2(7 << 32),
        Some(Error::Vmm(VmmError::Unknown(7)))
    ));
    assert_eq!(FirmwareError::from_raw(0x1E), FirmwareError::Unknown(0x1E));
    assert_eq!(FirmwareError::from_raw(0x3F), FirmwareError::ResponseTooLarge);
    assert_eq!(VmmError::from_raw(1), VmmError::InvalidLen);
}

#[test]
fn only_transient_failures_are_retried_and_briefly() {
    assert!(is_transient(&Error::Raced));
    assert!(is_transient(&Error::Vmm(VmmError::Busy)));
    assert!(!is_transient(&Error::Mismatch));
    assert!(!is_transient(&Error::Vmm(VmmError::InvalidLen)));
    assert!(is_transient(&Error::from(std::io::Error::from(
        std::io::ErrorKind::Interrupted
    ))));
    assert!(is_transient(&Error::from(std::io::Error::from(
        std::io::ErrorKind::WouldBlock
    ))));
    assert!(!is_transient(&Error::from(std::io::Error::from(
        std::io::ErrorKind::NotFound
    ))));

    assert_eq!(next_retry(0, true), Some(20));
    assert_eq!(next_retry(1, true), Some(80));
    assert_eq!(next_retry(2, true), None);
    assert_eq!(next_retry(0, false), None);
    let total: u64 = (0..10).filter_map(|n| next_retry(n, true)).sum();
    assert_eq!(total, 100);
}

#[test]
fn transports_prefer_configfs() {
    assert_eq!(select_transport(true, true).ok(), Some(Transport::ConfigFs));
    assert_eq!(select_transport(false, true).ok(), Some(Transport::Ioctl));
    assert!(matches!(select_transport(false, false), Err(Error::NoBackend)));
}

#[test]
fn ioctl_requests_have_the_driver_layout() {
    assert_eq!(iowr(0, 32), 0xC020_5300);
    assert_eq!(iowr(1, 32), 0xC020_5301);
    assert_eq!(iowr(2, 32), 0xC020_5302);

    let request = ReportRequest::new().data([0xAB; 64]).vmpl(0x0102_0304);
    let req = report_req(&request);
    assert_eq!(&req[..64], &[0xAB; 64]);
    assert_eq!(&req[64..68], &[4, 3, 2, 1]);
    assert_eq!(&req[68..], &[0u8; 28]);

    let mut ext = ext_report_req(&request);
    assert_eq!(&ext[..96], &req[..]);
    assert_eq!(&ext[96..], &[0u8; 16]);
    set_cert_buffer(&mut ext, 0x1122_3344_5566_7788, 0x2000);
    assert_eq!(&ext[96..104], &0x1122_3344_5566_7788u64.to_le_bytes());
    assert_eq!(requested_cert_len(&ext), 0x2000);
    assert_eq!(&ext[108..], &[0u8; 4]);
}

#[test]
fn certificate_buffer_sizes_are_checked() {
    assert_eq!(cert_buffer_len(4096).ok(), Some(4096));
    assert_eq!(cert_buffer_len(0x4000).ok(), Some(0x4000));
    for bad in [0, 100, 0x5000, 4097] {
        assert!(matches!(
            cert_buffer_len(bad),
            Err(Error::InvalidArgument(
                "kernel asked for an implausible certificate buffer size"
            ))
        ));
    }
    assert!(needs_cert_buffer(&Error::Vmm(VmmError::InvalidLen)));
    assert!(!needs_cert_buffer(&Error::Vmm(VmmError::Busy)));
}

#[test]
fn report_responses_are_unwrapped() {
    let data = [5u8; 64];
    let mut resp = vec![0u8; 0x20];
    resp.extend(report_bytes(4, &data, 1));
    let request = ReportRequest::new().data(data);
    let report = report_from_response(&request, &resp).expect("status 0");
    assert_eq!(report.version(), 4);
    assert_eq!(report.vmpl(), 1);

    resp[0..4].copy_from_slice(&0x16u32.to_le_bytes());
    assert!(matches!(
        parse_response(&resp),
        Err(Error::Firmware(FirmwareError::InvalidParam))
    ));
    assert!(matches!(
        parse_response(&[0, 0]),
        Err(Error::Parse(ParseError::TooShort {
            what: "report response",
            need: 4,
            got: 2
        }))
    ));
}

#[test]
fn derived_key_responses_are_unwrapped_and_wiped() {
    let mut resp = [0u8; 64];
    for (i, b) in resp[0x20..0x40].iter_mut().enumerate() {
        *b = i as u8 + 1;
    }
    let key = derived_key_from_response(&mut resp).expect("status 0");
    let expected: Vec<u8> = (1..=32).collect();
    assert_eq!(&key.as_bytes()[..], &expected[..]);
    assert_eq!(resp, [0u8; 64], "response copy of the key is wiped");
    assert_eq!(key.clone().as_bytes(), key.as_bytes());

    let mut refused = [0u8; 64];
    refused[0] = 0x27;
    refused[0x20] = 0xEE;
    assert!(matches!(
        derived_key_from_response(&mut refused),
        Err(Error::Firmware(FirmwareError::InvalidKey))
    ));
    assert_eq!(refused[0x20], 0xEE);

    assert!(matches!(
        check_msg_version(0),
        Err(Error::InvalidArgument("message version must be non-zero"))
    ));
    assert_eq!(check_msg_version(2).ok(), Some(2));
}

#[test]
fn key_requests_serialise_exactly() {
    let wire = KeyRequest::default().to_wire();
    assert_eq!(wire, [0u8; 40]);
    let r = KeyRequest::new().bind_image_id().bind_family_id();
    assert_eq!(r.fields().raw(), 0b110);
    assert_eq!(r.selected_root_key(), RootKey::Vcek);
    assert_eq!(KeyRequest::new().root_key(RootKey::Vmrk).to_wire()[0], 1);
    assert_eq!(RootKey::default(), RootKey::Vcek);
}

#[test]
fn capabilities_decode_cpuid() {
    let eax = 0b1_0000_0001_0101_1011; // SME, SEV, SEV-ES, SEV-SNP, RMPQUERY, secure TSC, VTE
    let ebx = 0x33 | (5 << 6) | (4 << 12);
    let caps = capabilities_from_cpuid(0x8000_0028, [eax, ebx, 509, 100]).expect("leaf present");
    assert!(caps.sme() && caps.sev() && !caps.page_flush_msr() && caps.sev_es());
    assert!(caps.sev_snp() && !caps.vmpl() && caps.rmpquery() && caps.secure_tsc() && caps.vte());
    assert_eq!(caps.c_bit_position(), 51);
    assert_eq!(caps.phys_addr_reduction(), 5);
    assert_eq!(caps.num_vmpls(), 4);
    assert_eq!(caps.max_encrypted_guests(), 509);
    assert_eq!(caps.min_sev_no_es_asid(), 100);
    assert_eq!(caps.registers(), [eax, ebx, 509, 100]);

    assert!(capabilities_from_cpuid(0x8000_001E, [eax, ebx, 0, 0]).is_none());
    assert!(is_snp_guest_from(Some(caps), true));
    assert!(!is_snp_guest_from(Some(caps), false));
    assert!(!is_snp_guest_from(
        Some(Capabilities::from_registers([0b1011, 0, 0, 0])),
        true
    ));
    assert!(!is_snp_guest_from(None, true));
}

#[test]
fn bitfields_name_known_bits_and_keep_the_rest() {
    let policy = GuestPolicy::from_raw((1 << 26) | (1 << 19) | 0x0105);
    assert_eq!(policy.raw(), (1 << 26) | (1 << 19) | 0x0105);
    assert_eq!(policy.abi_major(), 1);
    assert_eq!(policy.abi_minor(), 5);
    assert!(policy.debug_allowed() && !policy.smt_allowed());
    assert_eq!(policy.unknown_bits(), 1 << 26);

    let info = PlatformInfo::from_raw(0x40 | 0x80 | 0x2);
    assert!(info.tio_enabled() && info.tsme_enabled() && !info.ecc_enabled());
    assert_eq!(info.unknown_bits(), 0x40);

    assert_eq!(SignerInfo::from_raw(1 << 2).signing_key(), SigningKey::Vlek);
    assert_eq!(SignerInfo::from_raw(7 << 2).signing_key(), SigningKey::Unsigned);
    assert_eq!(SignerInfo::from_raw(3 << 2).signing_key(), SigningKey::Unknown(3));
    let signer = SignerInfo::from_raw(0b11);
    assert!(signer.author_key_enabled() && signer.chip_key_masked());
    assert_eq!(SignatureAlgo::from_raw(0), SignatureAlgo::Unsigned);
    assert_eq!(SignatureAlgo::from_raw(2), SignatureAlgo::Unknown(2));
}

#[test]
fn products_and_layouts_follow_the_family() {
    assert_eq!(Product::from_fms(Fms::new(0x19, 0x11, 0)), Product::Genoa);
    assert_eq!(Product::from_fms(Fms::new(0x19, 0xA3, 0)), Product::Bergamo);
    let later = Fms::new(0x1B, 0x00, 0);
    assert_eq!(Product::from_fms(later), Product::Unknown(later));
    assert_eq!(Product::from_fms(later).tcb_layout(), TcbLayout::Turin);
    assert_eq!(
        Product::from_fms(Fms::new(0x17, 0x31, 0)).tcb_layout(),
        TcbLayout::Legacy
    );
    assert_eq!(Product::Turin.kds_name(), Some("Turin"));
    assert_eq!(Product::Unknown(later).kds_name(), None);

    // A legacy part has no FMC slot: a value given for it is dropped.
    let parts = TcbParts {
        fmc: Some(9),
        bootloader: 1,
        tee: 2,
        snp: 3,
        microcode: 4,
    };
    assert_eq!(
        parts.encode(Product::Milan),
        TcbParts { fmc: None, ..parts }.encode(Product::Milan)
    );
    assert_eq!(
        parts.encode(Product::Milan).raw(),
        u64::from_le_bytes([1, 2, 0, 0, 0, 0, 3, 4])
    );
    assert_eq!(
        parts.encode(Product::Turin).raw(),
        u64::from_le_bytes([9, 1, 2, 3, 0, 0, 0, 4])
    );
    assert_eq!(TcbVersion::default().raw(), 0);
    assert_eq!(Fms::new(0x1A, 0x02, 0x00).to_cpuid_1_eax(), 0x00B0_0F20);
    assert_eq!(Fms::new(0x19, 0x01, 0x01).to_cpuid_1_eax(), 0x00A0_0F11);
}

#[test]
fn report_versions_are_bounded_on_both_sides() {
    let data = [0u8; 64];
    let v2 = AttestationReport::parse(&report_bytes(2, &data, 0)).expect("v2");
    assert_eq!(v2.cpuid_fms(), None);
    assert_eq!(v2.product(), None);
    assert_eq!(v2.reported_tcb_parts(), None);
    assert_eq!(v2.launch_mit_vector(), None);
    assert!(v2.ecdsa_signature().is_none());

    assert!(AttestationReport::parse(&report_bytes(16, &data, 0)).is_ok());
    assert!(matches!(
        AttestationReport::parse(&report_bytes(17, &data, 0)),
        Err(Error::Parse(ParseError::UnsupportedReportVersion(17)))
    ));
    // A TDX quote header reads as version 131076.
    assert!(matches!(
        AttestationReport::parse(&report_bytes(131076, &data, 0)),
        Err(Error::Parse(ParseError::UnsupportedReportVersion(131076)))
    ));
    assert!(matches!(
        AttestationReport::parse(&[0u8; 10]),
        Err(Error::Parse(ParseError::TooShort {
            what: "attestation report",
            need: 0x4A0,
            got: 10
        }))
    ));

    let mut bytes = report_bytes(5, &data, 0);
    bytes[0x1E8..0x1EB].copy_from_slice(&[7, 58, 1]);
    bytes.extend_from_slice(&[0xFF; 16]);
    let report = AttestationReport::parse(&bytes).expect("trailing bytes are ignored");
    assert_eq!(&report.as_bytes()[..], &bytes[..AttestationReport::SIZE]);
    assert_eq!(
        report.current_firmware(),
        FirmwareVersion {
            major: 1,
            minor: 58,
            build: 7
        }
    );
    assert_eq!(report.clone().as_bytes(), report.as_bytes());
}

#[test]
fn errors_convert_from_their_sources() {
    let e: Error = ParseError::CertTableOutOfBounds.into();
    assert!(matches!(e, Error::Parse(ParseError::CertTableOutOfBounds)));
    let e: Error = std::io::Error::from(std::io::ErrorKind::NotFound).into();
    assert!(matches!(e, Error::Io(_, IoErrorClass::Other)));
    let e: Error = std::io::Error::from(std::io::ErrorKind::ResourceBusy).into();
    assert!(matches!(e, Error::Io(_, IoErrorClass::ResourceBusy)));
    let r = ReportRequest::default();
    assert_eq!(r.report_data(), &[0u8; 64]);
    assert_eq!(r.requested_vmpl(), None);
}

#[test]
fn response_errors_are_the_ones_their_cause_gives() {
    let data = [5u8; 64];
    let request = ReportRequest::new().data(data);

    // A malformed outblob is a parse error, never a race or a mismatch.
    assert!(matches!(
        report_from_outblob(&request, &[0u8; 10]),
        Err(Error::Parse(ParseError::TooShort {
            what: "attestation report",
            need: 0x4A0,
            got: 10
        }))
    ));
    assert!(matches!(
        report_from_outblob(&request, &report_bytes(1, &data, 0)),
        Err(Error::Parse(ParseError::UnsupportedReportVersion(1)))
    ));

    // The ioctl transport passes the firmware's own status through, even when
    // the payload would not answer the request.
    let mut resp = vec![0u8; 0x20];
    resp.extend(report_bytes(5, &[6u8; 64], 0));
    resp[0..4].copy_from_slice(&0x16u32.to_le_bytes());
    assert!(matches!(
        report_from_response(&request, &resp),
        Err(Error::Firmware(FirmwareError::InvalidParam))
    ));
    resp[0..4].copy_from_slice(&0u32.to_le_bytes());
    assert!(matches!(
        report_from_response(&request, &resp),
        Err(Error::Mismatch)
    ));

    // A report that answers, with a certificate blob that does not parse,
    // gives the certificate table's error.
    let outblob = report_bytes(5, &data, 0);
    let bad_aux = entry(&[0x11; 16], 9999, 4);
    let mut with_terminator = bad_aux.clone();
    with_terminator.extend_from_slice(&[0u8; 24]);
    assert!(matches!(
        extended_from_blobs(&request, &outblob, &with_terminator),
        Err(Error::Parse(ParseError::CertTableOutOfBounds))
    ));
}

#[test]
fn configfs_writes_follow_the_plan() {
    let data = [3u8; 64];
    let plain = ReportRequest::new().data(data);
    let plan = write_plan(&plain);
    assert_eq!(plan.len() as u64, writes_for(&plain));
    assert!(matches!(plan[0], AttributeWrite::Inblob(d) if d == data));
    assert_eq!(plan[0].attribute(), "inblob");

    let at_one = plain.vmpl(1);
    let plan = write_plan(&at_one);
    assert_eq!(plan.len() as u64, writes_for(&at_one));
    assert!(matches!(plan[0], AttributeWrite::Privlevel(1)));
    assert_eq!(plan[0].attribute(), "privlevel");
    assert!(matches!(plan[1], AttributeWrite::Inblob(d) if d == data));
}

#[test]
fn the_extended_report_exchange_asks_at_most_twice() {
    let mut req = ext_report_req(&ReportRequest::new());
    assert!(matches!(
        ext_report_step(false, Ok(()), &req),
        ExtReportStep::Finish
    ));

    set_cert_buffer(&mut req, 0, 0x2000);
    assert!(matches!(
        ext_report_step(false, Err(Error::Vmm(VmmError::InvalidLen)), &req),
        ExtReportStep::RetryWithCertBuffer(0x2000)
    ));
    // A second refusal ends the exchange.
    assert!(matches!(
        ext_report_step(true, Err(Error::Vmm(VmmError::InvalidLen)), &req),
        ExtReportStep::Fail(Error::Vmm(VmmError::InvalidLen))
    ));
    assert!(matches!(
        ext_report_step(true, Ok(()), &req),
        ExtReportStep::Finish
    ));

    set_cert_buffer(&mut req, 0, 0x1234);
    assert!(matches!(
        ext_report_step(false, Err(Error::Vmm(VmmError::InvalidLen)), &req),
        ExtReportStep::Fail(Error::InvalidArgument(_))
    ));
    assert!(matches!(
        ext_report_step(false, Err(Error::Vmm(VmmError::Busy)), &req),
        ExtReportStep::Fail(Error::Vmm(VmmError::Busy))
    ));
}
