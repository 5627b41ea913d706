//! Parsing checks against a version 5 Milan report and against randomised
//! round-trips.

use rand::RngExt;
use sev_snp::{
    AttestationReport, CertKind, CertTable, Fms, Product, SignatureAlgo, SigningKey, TcbParts,
    TcbVersion,
};

/// A version 5 report as a Milan (Zen 3) guest emits it: the newest report
/// layout on the oldest supported silicon, which is exactly the case that
/// breaks if report version is inferred from the processor generation.
///
/// The fields the checks below read are set as the firmware sets them; the
/// measurement, IDs and signature are arbitrary non-zero bytes.
fn milan_v5() -> Vec<u8> {
    let mut r = vec![0u8; AttestationReport::SIZE];
    let mut put = |offset: usize, bytes: &[u8]| {
        r[offset..offset + bytes.len()].copy_from_slice(bytes);
    };
    put(0x00, &5u32.to_le_bytes()); // version
    put(0x04, &0u32.to_le_bytes()); // guest SVN
    put(0x08, &0x3_0000u64.to_le_bytes()); // policy: SMT + reserved bit 17
    put(0x30, &0u32.to_le_bytes()); // VMPL
    put(0x34, &1u32.to_le_bytes()); // ECDSA P-384 with SHA-384
    put(0x38, &[4, 0, 0, 0, 0, 0, 29, 222]); // current TCB
    put(0x40, &0x21u64.to_le_bytes()); // platform info: SMT + alias check
    put(0x48, &0u32.to_le_bytes()); // signer info: VCEK
    for i in 0..48 {
        put(0x90 + i, &[(i as u8).wrapping_mul(7).wrapping_add(3)]); // measurement
    }
    put(0x180, &[4, 0, 0, 0, 0, 0, 29, 222]); // reported TCB
    put(0x188, &[0x19, 0x01, 0x01]); // CPUID family, model, stepping
    put(0x1E0, &[4, 0, 0, 0, 0, 0, 29, 222]); // committed TCB
    put(0x1E8, &[3, 55, 1]); // current firmware 1.55.3
    put(0x1EC, &[3, 55, 1]); // committed firmware 1.55.3
    put(0x1F0, &[4, 0, 0, 0, 0, 0, 29, 222]); // launch TCB
    put(0x1F8, &0x0bu64.to_le_bytes()); // launch mitigation vector
    put(0x200, &0x0bu64.to_le_bytes()); // current mitigation vector
    for i in 0..48 {
        put(0x2A0 + i, &[(i as u8).wrapping_add(0x41)]); // r, little-endian
        put(0x2E8 + i, &[(i as u8).wrapping_add(0x91)]); // s, little-endian
    }
    r
}

#[test]
fn parses_a_real_v5_report_from_a_zen3_machine() {
    let bytes = milan_v5();
    let report = AttestationReport::parse(&bytes).expect("golden report parses");

    assert_eq!(report.version(), 5);
    assert_eq!(report.vmpl(), 0);
    assert_eq!(report.signature_algo(), SignatureAlgo::EcdsaP384Sha384);
    assert_eq!(report.signer_info().signing_key(), SigningKey::Vcek);

    // Zen 3, and the version 5 layout still decodes the legacy TCB fields.
    assert_eq!(report.cpuid_fms(), Some(Fms::new(0x19, 0x01, 0x01)));
    assert_eq!(report.product(), Some(Product::Milan));
    let tcb = report.reported_tcb_parts().expect("v3+ carries CPUID");
    assert_eq!(tcb.fmc, None, "Zen 3 has no FMC field");
    assert_eq!(
        (tcb.bootloader, tcb.tee, tcb.snp, tcb.microcode),
        (4, 0, 29, 222)
    );

    // Fields that only exist from version 5.
    assert_eq!(report.launch_mit_vector(), Some(0x0b));
    assert_eq!(report.current_mit_vector(), Some(0x0b));

    // The policy has SMT allowed plus the mandatory reserved bit, nothing else.
    assert!(report.policy().smt_allowed());
    assert!(report.policy().reserved_bit_set());
    assert!(!report.policy().debug_allowed());
    assert_eq!(report.policy().unknown_bits(), 0);

    assert!(report.platform_info().smt_enabled());
    assert!(report.platform_info().alias_check_complete());
    assert_eq!(report.platform_info().unknown_bits(), 0);

    // The signature covers everything before it, and decodes to two P-384
    // scalars rather than the 72-byte little-endian fields on the wire.
    assert_eq!(report.signed_bytes().len(), 0x2A0);
    let sig = report.ecdsa_signature().expect("ECDSA report");
    assert_ne!(sig.r_be(), [0u8; 48]);
    assert_ne!(sig.s_be(), [0u8; 48]);
    assert_eq!(sig.r_be()[47], report.signature()[0], "r is byte-reversed");
}

#[test]
fn report_rejects_short_and_ancient_inputs() {
    let bytes = milan_v5();
    assert!(AttestationReport::parse(&bytes[..1183]).is_err());

    let mut v1 = bytes.to_vec();
    v1[0..4].copy_from_slice(&1u32.to_le_bytes());
    assert!(AttestationReport::parse(&v1).is_err());
}

#[test]
fn tcb_version_round_trips_on_every_generation() {
    let mut rng = rand::rng();
    let svns: [u8; 5] = rng.random();

    for product in [
        Product::Milan,
        Product::Genoa,
        Product::Bergamo,
        Product::Turin,
    ] {
        let has_fmc = product == Product::Turin;
        let parts = TcbParts {
            fmc: has_fmc.then_some(svns[0]),
            bootloader: svns[1],
            tee: svns[2],
            snp: svns[3],
            microcode: svns[4],
        };
        assert_eq!(
            parts.encode(product).decode(product),
            parts,
            "{}",
            product.to_string()
        );
    }

    // The same 64 bits mean different things on Zen 3 and Zen 5: what Milan
    // reads as the bootloader SVN, Turin reads as the FMC SVN.
    let raw = TcbVersion::from_raw(u64::from_le_bytes([1, 2, 3, 4, 0, 0, 5, 6]));
    assert_eq!(raw.decode(Product::Milan).bootloader, 1);
    assert_eq!(raw.decode(Product::Milan).snp, 5);
    assert_eq!(raw.decode(Product::Turin).fmc, Some(1));
    assert_eq!(raw.decode(Product::Turin).snp, 4);
}

#[test]
fn fms_round_trips_through_cpuid_encoding() {
    for fms in [
        Fms::new(0x19, 0x01, 0x01), // Milan
        Fms::new(0x19, 0x11, 0x02), // Genoa
        Fms::new(0x1A, 0x02, 0x00), // Turin
    ] {
        assert_eq!(Fms::from_cpuid_1_eax(fms.to_cpuid_1_eax()), fms);
    }
}

#[test]
fn cert_table_reads_entries_and_rejects_out_of_bounds_offsets() {
    const VCEK: [u8; 16] = [
        0x63, 0xda, 0x75, 0x8d, 0xe6, 0x64, 0x45, 0x64, 0xad, 0xc5, 0xf4, 0xb9, 0x3b, 0xe8, 0xac,
        0xcd,
    ];
    let mut rng = rand::rng();
    let body: [u8; 64] = rng.random();

    // One entry, a zero terminator, then the certificate body.
    let mut blob = Vec::new();
    blob.extend_from_slice(&VCEK);
    blob.extend_from_slice(&48u32.to_le_bytes()); // offset
    blob.extend_from_slice(&(body.len() as u32).to_le_bytes());
    blob.extend_from_slice(&[0u8; 24]);
    blob.extend_from_slice(&body);

    let table = CertTable::parse(&blob).expect("well-formed table");
    let vcek = table.get(CertKind::Vcek).expect("VCEK present");
    assert_eq!(vcek.data(), body);

    // An offset past the end of the blob must not be readable.
    let mut bad = blob.clone();
    bad[16..20].copy_from_slice(&9999u32.to_le_bytes());
    assert!(CertTable::parse(&bad).is_err());

    assert!(CertTable::parse(&[]).expect("empty is legal").is_empty());
}

#[test]
fn certificate_debug_shows_kind_and_length_only() {
    let mut blob = vec![0u8; 48];
    blob[..16].copy_from_slice(&[
        0x63, 0xda, 0x75, 0x8d, 0xe6, 0x64, 0x45, 0x64, 0xad, 0xc5, 0xf4, 0xb9, 0x3b, 0xe8, 0xac,
        0xcd,
    ]);
    blob[16..20].copy_from_slice(&48u32.to_le_bytes());
    blob[20..24].copy_from_slice(&3u32.to_le_bytes());
    blob.extend_from_slice(&[7, 8, 9]);
    let table = CertTable::parse(&blob).expect("well-formed table");
    let cert = table.get(CertKind::Vcek).expect("VCEK present");
    assert_eq!(format!("{cert:?}"), "Certificate { kind: Vcek, len: 3 }");
}
