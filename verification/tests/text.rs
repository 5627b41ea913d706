//! The human-readable text of the library's types.

use sev_snp::{
    Error, FirmwareError, FirmwareVersion, Fms, GuestPolicy, ParseError, PlatformInfo, Product,
    SignerInfo, TcbParts, TcbVersion, VmmError,
};

#[test]
fn versions_and_processors_read_naturally() {
    let v = FirmwareVersion {
        major: 1,
        minor: 55,
        build: 3,
    };
    assert_eq!(v.to_string(), "1.55.3");
    assert_eq!(
        Fms::new(0x19, 0x01, 0x01).to_string(),
        "family 0x19 model 0x01 stepping 1"
    );
    assert_eq!(Product::Milan.to_string(), "Milan");
    assert_eq!(
        Product::Unknown(Fms::new(0x1B, 0xA0, 12)).to_string(),
        "unknown product (family 0x1b model 0xa0 stepping 12)"
    );
    assert_eq!(
        TcbVersion::from_raw(0xDE1D_0000_0000_0004).to_string(),
        "0xde1d000000000004"
    );
    assert_eq!(TcbVersion::from_raw(0).to_string(), "0x0000000000000000");
    let legacy = TcbParts {
        fmc: None,
        bootloader: 4,
        tee: 0,
        snp: 29,
        microcode: 222,
    };
    assert_eq!(legacy.to_string(), "bootloader=4 tee=0 snp=29 microcode=222");
    let turin = TcbParts {
        fmc: Some(2),
        ..legacy
    };
    assert_eq!(
        turin.to_string(),
        "fmc=2 bootloader=4 tee=0 snp=29 microcode=222"
    );
}

#[test]
fn bitfields_read_as_their_names() {
    assert_eq!(GuestPolicy::from_raw(0x3_0000).to_string(), "abi=0.0 smt");
    assert_eq!(
        GuestPolicy::from_raw(0x0208_0103).to_string(),
        "abi=1.3 debug page-swap-dis"
    );
    assert_eq!(
        PlatformInfo::from_raw(0x21).to_string(),
        "smt alias-check-complete"
    );
    assert_eq!(PlatformInfo::from_raw(0x40).to_string(), "none");
    assert_eq!(
        SignerInfo::from_raw(0b11).to_string(),
        "Vcek author-key chip-key-masked"
    );
    assert_eq!(SignerInfo::from_raw(5 << 2).to_string(), "Unknown(5)");
    assert_eq!(SignerInfo::from_raw(7 << 2).to_string(), "None");
    assert_eq!(SignerInfo::from_raw((7 << 2) | 1).to_string(), "None author-key");
}

#[test]
fn errors_describe_themselves() {
    assert_eq!(FirmwareError::InvalidParam.to_string(), "InvalidParam");
    assert_eq!(
        FirmwareError::from_raw(0x1E).to_string(),
        "unknown firmware status 0x1E"
    );
    assert_eq!(
        FirmwareError::from_raw(0x4).to_string(),
        "InvalidLen"
    );
    assert_eq!(
        FirmwareError::Unknown(0xABC).to_string(),
        "unknown firmware status 0xABC"
    );
    assert_eq!(VmmError::Unknown(9).to_string(), "unknown VMM status 9");
    assert_eq!(
        Error::Firmware(FirmwareError::BadSvn).to_string(),
        "firmware error: BadSvn"
    );
    assert_eq!(
        Error::Vmm(VmmError::Busy).to_string(),
        "hypervisor error: hypervisor busy, retry"
    );
    assert_eq!(
        Error::Parse(ParseError::TooShort {
            what: "attestation report",
            need: 1184,
            got: 10
        })
        .to_string(),
        "malformed response: attestation report needs 1184 bytes, got 10"
    );
    assert_eq!(
        ParseError::UnsupportedReportVersion(17).to_string(),
        "attestation report version 17 is not supported"
    );
    assert_eq!(
        Error::InvalidArgument("vmpl must be 0..=3").to_string(),
        "invalid argument: vmpl must be 0..=3"
    );
    let io = Error::from(std::io::Error::from(std::io::ErrorKind::NotFound));
    assert!(io.to_string().starts_with("io error: "));
    assert_eq!(
        Error::Mismatch.to_string(),
        "response does not answer the request that was made"
    );
}
