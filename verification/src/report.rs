//! The SEV-SNP attestation report.
//!
//! One binary layout spans every report version AMD has shipped: the structure
//! is always [`AttestationReport::SIZE`] bytes and newer revisions only claim
//! space that older ones reserved. This module parses the fields common to all
//! versions unconditionally, and returns `Option` for the ones that only exist
//! from a given version onwards, so the same code path serves a Zen 3 machine
//! emitting a version 2 report and a Zen 5 machine emitting version 5.

use crate::bytes::{le_u32, le_u64};
use crate::error::{Error, ParseError, Result};
use crate::policy::{
    signature_algo_of, GuestPolicy, PlatformInfo, SignatureAlgo, SignerInfo,
};
use crate::tcb::{layout_of, product_of, tcb_parts_of, Fms, Product, TcbParts, TcbVersion};
use crate::text::{dec_text, push_dec};
use vstd::prelude::*;
use vstd::string::StringExecFns;
use vstd::slice::slice_subrange;

verus! {

/// Size of the report structure in bytes, identical for every version.
pub const REPORT_SIZE: usize = 0x4A0;

/// The version a report's bytes announce: the little-endian word at offset 0.
pub open spec fn report_version(s: Seq<u8>) -> int {
    le_u32(s.subrange(0, 4))
}

/// The little-endian 32-bit field at `offset` of a report's bytes.
pub open spec fn report_u32(s: Seq<u8>, offset: int) -> int {
    le_u32(s.subrange(offset, offset + 4))
}

/// The little-endian 64-bit field at `offset` of a report's bytes.
pub open spec fn report_u64(s: Seq<u8>, offset: int) -> int {
    le_u64(s.subrange(offset, offset + 8))
}

/// Whether a byte string is shaped like a report this crate accepts: long
/// enough, and announcing a version from `MIN_VERSION` to `MAX_VERSION`.
pub open spec fn is_acceptable_report(s: Seq<u8>) -> bool {
    &&& s.len() >= REPORT_SIZE
    &&& AttestationReport::MIN_VERSION <= report_version(s) <= AttestationReport::MAX_VERSION
}

/// The error [`AttestationReport::parse`] gives for bytes that are not an
/// acceptable report: too short, or announcing an unsupported version.
pub open spec fn report_parse_error(s: Seq<u8>) -> Error {
    if s.len() < REPORT_SIZE {
        Error::Parse(
            ParseError::TooShort { what: "attestation report", need: REPORT_SIZE, got: s.len() as usize },
        )
    } else {
        Error::Parse(ParseError::UnsupportedReportVersion(report_version(s) as u32))
    }
}

/// A parsed SEV-SNP attestation report.
///
/// The report is a signed statement by the AMD secure processor about the
/// launch measurement, policy and firmware state of this VM, plus 64 bytes of
/// caller-supplied [`report_data`](Self::report_data) that binds it to a
/// challenge.
#[derive(Debug)]
pub struct AttestationReport {
    raw: [u8; 0x4A0],
}

impl Clone for AttestationReport {
    fn clone(&self) -> (r: Self)
        ensures
            r@ == self@,
    {
        proof {
            use_type_invariant(self);
        }
        AttestationReport { raw: self.raw }
    }
}

impl View for AttestationReport {
    type V = Seq<u8>;

    /// The report's bytes, exactly as the firmware produced them.
    closed spec fn view(&self) -> Seq<u8> {
        self.raw@
    }
}

impl AttestationReport {
    /// Size of the report structure in bytes, identical for every version.
    pub const SIZE: usize = 0x4A0;

    /// Length of the region covered by the signature.
    ///
    /// The signature is computed over everything preceding it.
    pub const SIGNED_LEN: usize = 0x2A0;

    /// Lowest report version this crate can interpret.
    pub const MIN_VERSION: u32 = 2;

    /// Highest report version this crate will accept.
    ///
    /// Newer revisions only claim reserved space, so a version this crate has
    /// never heard of still parses correctly — but the field has to be bounded
    /// by *something*, or any 1184-byte blob whose first word happens to be
    /// large passes for a report. AMD is at version 5; the headroom here
    /// absorbs the next several revisions without pretending a TDX quote
    /// (whose header reads as version 131076) is an SEV-SNP report.
    pub const MAX_VERSION: u32 = 16;

    /// Every report holds exactly `SIZE` bytes and announces a supported
    /// version.
    #[verifier::type_invariant]
    spec fn well_formed(self) -> bool {
        &&& self.raw@.len() == REPORT_SIZE
        &&& Self::MIN_VERSION <= report_version(self.raw@) <= Self::MAX_VERSION
    }

    /// Parses a report from its ABI representation.
    ///
    /// Newer versions than this crate knows about are accepted: unrecognised
    /// fields stay reachable through [`as_bytes`](Self::as_bytes). Bytes past
    /// [`Self::SIZE`] are ignored.
    ///
    /// # Errors
    ///
    /// Returns [`ParseError::TooShort`] if `bytes` is smaller than
    /// [`Self::SIZE`], or [`ParseError::UnsupportedReportVersion`] if the
    /// report announces a version outside
    /// [`Self::MIN_VERSION`] to [`Self::MAX_VERSION`] inclusive.
    pub fn parse(bytes: &[u8]) -> (r: Result<Self>)
        ensures
            bytes@.len() < REPORT_SIZE ==> r == Err::<Self, Error>(
                Error::Parse(
                    ParseError::TooShort {
                        what: "attestation report",
                        need: REPORT_SIZE,
                        got: bytes@.len() as usize,
                    },
                ),
            ),
            bytes@.len() >= REPORT_SIZE && !is_acceptable_report(bytes@) ==> r == Err::<Self, Error>(
                Error::Parse(ParseError::UnsupportedReportVersion(report_version(bytes@) as u32)),
            ),
            r is Ok <==> is_acceptable_report(bytes@),
            !is_acceptable_report(bytes@) ==> r == Err::<Self, Error>(report_parse_error(bytes@)),
            r matches Ok(rep) ==> rep@ == bytes@.subrange(0, REPORT_SIZE as int),
    {
        let raw = match crate::bytes::bytes_at::<0x4A0>(bytes, 0) {
            Some(raw) => raw,
            None => {
                return Err(
                    Error::Parse(
                        ParseError::TooShort {
                            what: "attestation report",
                            need: Self::SIZE,
                            got: bytes.len(),
                        },
                    ),
                );
            },
        };
        let version = match crate::bytes::u32_at(&raw, 0) {
            Some(v) => v,
            None => 0,
        };
        proof {
            assert(raw@.subrange(0, 4) =~= bytes@.subrange(0, 4));
        }
        if version < Self::MIN_VERSION || version > Self::MAX_VERSION {
            return Err(Error::Parse(ParseError::UnsupportedReportVersion(version)));
        }
        Ok(Self { raw })
    }

    /// The report exactly as the firmware produced it.
    pub fn as_bytes(&self) -> (r: &[u8; 0x4A0])
        ensures
            r@ == self@,
            r@.len() == REPORT_SIZE,
    {
        &self.raw
    }

    /// The bytes covered by [`signature`](Self::signature).
    ///
    /// Hash this with SHA-384 to verify the report against a VCEK or VLEK.
    pub fn signed_bytes(&self) -> (r: &[u8])
        ensures
            r@ == self@.subrange(0, Self::SIGNED_LEN as int),
    {
        proof {
            use_type_invariant(self);
        }
        slice_subrange(self.raw.as_slice(), 0, Self::SIGNED_LEN)
    }

    /// Report structure version, within
    /// [`Self::MIN_VERSION`] to [`Self::MAX_VERSION`] inclusive.
    pub fn version(&self) -> (r: u32)
        ensures
            r == report_version(self@),
            Self::MIN_VERSION <= r <= Self::MAX_VERSION,
    {
        proof {
            use_type_invariant(self);
        }
        self.u32_at(0x00)
    }

    /// Guest security version number supplied in the ID block at launch.
    pub fn guest_svn(&self) -> (r: u32)
        ensures
            r == report_u32(self@, 0x04),
    {
        self.u32_at(0x04)
    }

    /// The launch policy the guest owner pinned at VM start.
    pub fn policy(&self) -> (r: GuestPolicy)
        ensures
            r@ == report_u64(self@, 0x08),
    {
        GuestPolicy::from_raw(self.u64_at(0x08))
    }

    /// Family ID from the ID block, chosen by the guest owner.
    pub fn family_id(&self) -> (r: [u8; 16])
        ensures
            r@ == self@.subrange(0x10, 0x20),
    {
        self.field::<16>(0x10)
    }

    /// Image ID from the ID block, chosen by the guest owner.
    pub fn image_id(&self) -> (r: [u8; 16])
        ensures
            r@ == self@.subrange(0x20, 0x30),
    {
        self.field::<16>(0x20)
    }

    /// The VMPL the report was requested at.
    pub fn vmpl(&self) -> (r: u32)
        ensures
            r == report_u32(self@, 0x30),
    {
        self.u32_at(0x30)
    }

    /// Algorithm used to produce [`signature`](Self::signature).
    pub fn signature_algo(&self) -> (r: SignatureAlgo)
        ensures
            r == signature_algo_of(report_u32(self@, 0x34) as u32),
    {
        SignatureAlgo::from_raw(self.u32_at(0x34))
    }

    /// TCB version currently running on the platform.
    pub fn current_tcb(&self) -> (r: TcbVersion)
        ensures
            r@ == report_u64(self@, 0x38),
    {
        TcbVersion::from_raw(self.u64_at(0x38))
    }

    /// Host platform configuration.
    pub fn platform_info(&self) -> (r: PlatformInfo)
        ensures
            r@ == report_u64(self@, 0x40),
    {
        PlatformInfo::from_raw(self.u64_at(0x40))
    }

    /// How the report was signed and what the host chose to reveal.
    pub fn signer_info(&self) -> (r: SignerInfo)
        ensures
            r@ == report_u32(self@, 0x48),
    {
        SignerInfo::from_raw(self.u32_at(0x48))
    }

    /// The 64 bytes of caller-supplied data bound into this report.
    ///
    /// This is the field that makes a report fresh: put a verifier-supplied
    /// nonce, or a hash of a public key, here.
    pub fn report_data(&self) -> (r: [u8; 64])
        ensures
            r@ == self@.subrange(0x50, 0x90),
    {
        self.field::<64>(0x50)
    }

    /// SHA-384 launch measurement of the guest's initial memory image.
    pub fn measurement(&self) -> (r: [u8; 48])
        ensures
            r@ == self@.subrange(0x90, 0xC0),
    {
        self.field::<48>(0x90)
    }

    /// Data supplied by the host at launch. Not guest-controlled.
    pub fn host_data(&self) -> (r: [u8; 32])
        ensures
            r@ == self@.subrange(0xC0, 0xE0),
    {
        self.field::<32>(0xC0)
    }

    /// SHA-384 digest of the ID public key that signed the ID block.
    pub fn id_key_digest(&self) -> (r: [u8; 48])
        ensures
            r@ == self@.subrange(0xE0, 0x110),
    {
        self.field::<48>(0xE0)
    }

    /// SHA-384 digest of the author public key that signed the ID key.
    pub fn author_key_digest(&self) -> (r: [u8; 48])
        ensures
            r@ == self@.subrange(0x110, 0x140),
    {
        self.field::<48>(0x110)
    }

    /// Identifier for this guest, stable across reports from the same VM.
    pub fn report_id(&self) -> (r: [u8; 32])
        ensures
            r@ == self@.subrange(0x140, 0x160),
    {
        self.field::<32>(0x140)
    }

    /// Report ID of this guest's migration agent.
    pub fn report_id_ma(&self) -> (r: [u8; 32])
        ensures
            r@ == self@.subrange(0x160, 0x180),
    {
        self.field::<32>(0x160)
    }

    /// The TCB version the report was signed against.
    ///
    /// This, not [`current_tcb`](Self::current_tcb), selects the VCEK that
    /// verifies the signature.
    pub fn reported_tcb(&self) -> (r: TcbVersion)
        ensures
            r@ == report_u64(self@, 0x180),
    {
        TcbVersion::from_raw(self.u64_at(0x180))
    }

    /// Processor family, model and stepping. Present from report version 3.
    pub fn cpuid_fms(&self) -> (r: Option<Fms>)
        ensures
            r == (if report_version(self@) >= 3 {
                Some(Fms { family: self@[0x188], model: self@[0x189], stepping: self@[0x18A] })
            } else {
                None
            }),
    {
        proof {
            use_type_invariant(self);
        }
        if self.version() >= 3 {
            Some(Fms::new(self.raw[0x188], self.raw[0x189], self.raw[0x18A]))
        } else {
            None
        }
    }

    /// The processor product that produced this report.
    ///
    /// Present from report version 3, which is when AMD started including
    /// CPUID identification. On a version 2 report the product must come from
    /// somewhere else, such as the local CPU via [`crate::detect`].
    pub fn product(&self) -> (r: Option<Product>)
        ensures
            r == (if report_version(self@) >= 3 {
                Some(
                    product_of(
                        Fms { family: self@[0x188], model: self@[0x189], stepping: self@[0x18A] },
                    ),
                )
            } else {
                None
            }),
    {
        match self.cpuid_fms() {
            Some(fms) => Some(Product::from_fms(fms)),
            None => None,
        }
    }

    /// Unique identifier of the physical processor.
    ///
    /// Reads as all zeros when [`SignerInfo::chip_key_masked`] is set, or when
    /// the report was signed by a VLEK rather than a VCEK.
    pub fn chip_id(&self) -> (r: [u8; 64])
        ensures
            r@ == self@.subrange(0x1A0, 0x1E0),
    {
        self.field::<64>(0x1A0)
    }

    /// The lowest TCB version the platform can be rolled back to.
    pub fn committed_tcb(&self) -> (r: TcbVersion)
        ensures
            r@ == report_u64(self@, 0x1E0),
    {
        TcbVersion::from_raw(self.u64_at(0x1E0))
    }

    /// Firmware version currently running.
    pub fn current_firmware(&self) -> (r: FirmwareVersion)
        ensures
            r == (FirmwareVersion { major: self@[0x1EA], minor: self@[0x1E9], build: self@[0x1E8] }),
    {
        proof {
            use_type_invariant(self);
        }
        FirmwareVersion { major: self.raw[0x1EA], minor: self.raw[0x1E9], build: self.raw[0x1E8] }
    }

    /// Firmware version the platform has committed to.
    pub fn committed_firmware(&self) -> (r: FirmwareVersion)
        ensures
            r == (FirmwareVersion { major: self@[0x1EE], minor: self@[0x1ED], build: self@[0x1EC] }),
    {
        proof {
            use_type_invariant(self);
        }
        FirmwareVersion { major: self.raw[0x1EE], minor: self.raw[0x1ED], build: self.raw[0x1EC] }
    }

    /// The TCB version in effect when this guest was launched.
    pub fn launch_tcb(&self) -> (r: TcbVersion)
        ensures
            r@ == report_u64(self@, 0x1F0),
    {
        TcbVersion::from_raw(self.u64_at(0x1F0))
    }

    /// Mitigation vector in effect at launch. Present from report version 5.
    ///
    /// Each bit records a hardware mitigation that was active. Pass it to
    /// `KeyRequest::bind_launch_mit_vector` to make a derived key depend on the
    /// mitigation state.
    pub fn launch_mit_vector(&self) -> (r: Option<u64>)
        ensures
            r == (if report_version(self@) >= 5 {
                Some(report_u64(self@, 0x1F8) as u64)
            } else {
                None
            }),
    {
        if self.version() >= 5 {
            Some(self.u64_at(0x1F8))
        } else {
            None
        }
    }

    /// Mitigation vector currently in effect. Present from report version 5.
    pub fn current_mit_vector(&self) -> (r: Option<u64>)
        ensures
            r == (if report_version(self@) >= 5 {
                Some(report_u64(self@, 0x200) as u64)
            } else {
                None
            }),
    {
        if self.version() >= 5 {
            Some(self.u64_at(0x200))
        } else {
            None
        }
    }

    /// The raw 512-byte signature field.
    pub fn signature(&self) -> (r: [u8; 512])
        ensures
            r@ == self@.subrange(0x2A0, 0x4A0),
    {
        self.field::<512>(0x2A0)
    }

    /// The signature decoded as ECDSA P-384 components.
    ///
    /// Returns `None` unless [`signature_algo`](Self::signature_algo) is
    /// [`SignatureAlgo::EcdsaP384Sha384`].
    pub fn ecdsa_signature(&self) -> (r: Option<EcdsaP384Signature>)
        ensures
            r is Some <==> report_u32(self@, 0x34) == 1,
            r matches Some(sig) ==> sig.r@ == self@.subrange(0x2A0, 0x2E8) && sig.s@
                == self@.subrange(0x2E8, 0x330),
    {
        if self.signature_algo() == SignatureAlgo::EcdsaP384Sha384 {
            Some(EcdsaP384Signature { r: self.field::<72>(0x2A0), s: self.field::<72>(0x2E8) })
        } else {
            None
        }
    }

    /// Splits [`reported_tcb`](Self::reported_tcb) into named fields.
    ///
    /// Returns `None` on a version 2 report, which carries no CPUID
    /// identification; use [`TcbVersion::decode`] with an externally known
    /// product in that case.
    pub fn reported_tcb_parts(&self) -> (r: Option<TcbParts>)
        ensures
            r == (if report_version(self@) >= 3 {
                Some(
                    tcb_parts_of(
                        report_u64(self@, 0x180) as u64,
                        layout_of(
                            product_of(
                                Fms {
                                    family: self@[0x188],
                                    model: self@[0x189],
                                    stepping: self@[0x18A],
                                },
                            ),
                        ),
                    ),
                )
            } else {
                None
            }),
    {
        match self.product() {
            Some(p) => Some(self.reported_tcb().decode(p)),
            None => None,
        }
    }

    fn u32_at(&self, offset: usize) -> (r: u32)
        requires
            offset + 4 <= REPORT_SIZE,
        ensures
            r == report_u32(self@, offset as int),
    {
        proof {
            use_type_invariant(self);
        }
        match crate::bytes::u32_at(&self.raw, offset) {
            Some(v) => v,
            None => 0,
        }
    }

    fn u64_at(&self, offset: usize) -> (r: u64)
        requires
            offset + 8 <= REPORT_SIZE,
        ensures
            r == report_u64(self@, offset as int),
    {
        proof {
            use_type_invariant(self);
        }
        match crate::bytes::u64_at(&self.raw, offset) {
            Some(v) => v,
            None => 0,
        }
    }

    /// Copies a fixed-size field out of the report.
    fn field<const N: usize>(&self, offset: usize) -> (r: [u8; N])
        requires
            offset + N <= REPORT_SIZE,
        ensures
            r@ == self@.subrange(offset as int, offset + N),
    {
        proof {
            use_type_invariant(self);
        }
        match crate::bytes::bytes_at::<N>(&self.raw, offset) {
            Some(v) => v,
            None => [0u8; N],
        }
    }
}

/// A `major.minor.build` firmware version.
#[derive(Debug, Clone, Copy, PartialEq, Eq, PartialOrd, Ord, Hash, Structural)]
pub struct FirmwareVersion {
    /// Major version.
    pub major: u8,
    /// Minor version.
    pub minor: u8,
    /// Build number.
    pub build: u8,
}

impl FirmwareVersion {
    /// The version as `major.minor.build`.
    pub fn to_string(&self) -> (r: String)
        ensures
            r@ == dec_text(self.major as nat) + "."@ + dec_text(self.minor as nat) + "."@ + dec_text(
                self.build as nat,
            ),
    {
        let mut s = String::new();
        push_dec(&mut s, self.major as u64);
        s.append(".");
        push_dec(&mut s, self.minor as u64);
        s.append(".");
        push_dec(&mut s, self.build as u64);
        s
    }
}

/// An ECDSA P-384 signature in AMD's wire format.
///
/// Both components are 72-byte little-endian fields, which is not what most
/// signature verifiers want; [`r_be`](Self::r_be) and [`s_be`](Self::s_be)
/// convert to the 48-byte big-endian integers used by SEC1 and RFC 5480.
#[derive(Debug, Clone, Copy)]
pub struct EcdsaP384Signature {
    /// The `r` component, little-endian, zero-padded to 72 bytes.
    pub r: [u8; 72],
    /// The `s` component, little-endian, zero-padded to 72 bytes.
    pub s: [u8; 72],
}

impl EcdsaP384Signature {
    /// The `r` component as a 48-byte big-endian integer.
    pub fn r_be(&self) -> (out: [u8; 48])
        ensures
            out@ == self.r@.subrange(0, 48).reverse(),
    {
        to_be_48(&self.r)
    }

    /// The `s` component as a 48-byte big-endian integer.
    pub fn s_be(&self) -> (out: [u8; 48])
        ensures
            out@ == self.s@.subrange(0, 48).reverse(),
    {
        to_be_48(&self.s)
    }
}

/// Reverses the low 48 bytes of an AMD little-endian field component.
///
/// The upper 24 bytes are always zero for P-384; they are ignored rather than
/// checked, because a non-zero value there would already have failed signature
/// verification.
fn to_be_48(le: &[u8; 72]) -> (out: [u8; 48])
    ensures
        out@ == le@.subrange(0, 48).reverse(),
{
    let mut out = [0u8; 48];
    let mut i: usize = 0;
    while i < 48
        invariant
            i <= 48,
            out@.len() == 48,
            le@.len() == 72,
            forall|j: int| 0 <= j < i ==> out@[j] == le@[47 - j],
        decreases 48 - i,
    {
        out[i] = le[47 - i];
        i = i + 1;
    }
    assert(out@ =~= le@.subrange(0, 48).reverse());
    out
}

} // verus!
