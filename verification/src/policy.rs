//! Bitfields carried inside an attestation report.
//!
//! Every type here keeps the raw value it was built from and exposes named
//! accessors on top. Bits that AMD adds in a later ABI revision are therefore
//! never lost — [`GuestPolicy::raw`] and friends always round-trip, and the
//! `unknown_bits` helpers make forward-compatible checks explicit rather than
//! turning an unrecognised bit into a parse failure.

use crate::text::{text, dec_text, push_dec};
use vstd::prelude::*;
use vstd::string::StringExecFns;

verus! {

/// Whether bit `n` of `v` is set.
pub open spec fn bit_set(v: u64, n: u64) -> bool {
    (v >> n) & 1 == 1
}

/// The launch policy the guest owner pinned at VM start.
///
/// Bits 15:0 hold the minimum SEV-SNP ABI version the guest requires; the rest
/// are feature switches.
#[derive(Debug, Clone, Copy, PartialEq, Eq, Hash, Structural)]
pub struct GuestPolicy(u64);

/// The policy bits this crate names: 25:0.
pub const GUEST_POLICY_KNOWN: u64 = 0x03FF_FFFF;

impl View for GuestPolicy {
    type V = u64;

    closed spec fn view(&self) -> u64 {
        self.0
    }
}

impl GuestPolicy {
    /// Wraps a raw policy value.
    pub fn from_raw(raw: u64) -> (r: Self)
        ensures
            r@ == raw,
    {
        Self(raw)
    }

    /// The underlying 64-bit value.
    pub fn raw(self) -> (r: u64)
        ensures
            r == self@,
    {
        self.0
    }

    /// Minimum SEV-SNP ABI minor version required to run this guest.
    pub fn abi_minor(self) -> (r: u8)
        ensures
            r == self@ % 0x100,
    {
        (self.0 % 0x100) as u8
    }

    /// Minimum SEV-SNP ABI major version required to run this guest.
    pub fn abi_major(self) -> (r: u8)
        ensures
            r == (self@ / 0x100) % 0x100,
    {
        ((self.0 / 0x100) % 0x100) as u8
    }

    /// Simultaneous multithreading is permitted on the host.
    pub fn smt_allowed(self) -> (r: bool)
        ensures
            r == bit_set(self@, 16),
    {
        self.bit(16)
    }

    /// Reserved bit 17, which the ABI requires to be set on a valid policy.
    pub fn reserved_bit_set(self) -> (r: bool)
        ensures
            r == bit_set(self@, 17),
    {
        self.bit(17)
    }

    /// Association with a migration agent is permitted.
    pub fn migrate_ma_allowed(self) -> (r: bool)
        ensures
            r == bit_set(self@, 18),
    {
        self.bit(18)
    }

    /// Debugging is permitted, which lets the host read guest memory.
    ///
    /// A relying party should normally refuse a report with this set.
    pub fn debug_allowed(self) -> (r: bool)
        ensures
            r == bit_set(self@, 19),
    {
        self.bit(19)
    }

    /// The guest must run on a single socket.
    pub fn single_socket_required(self) -> (r: bool)
        ensures
            r == bit_set(self@, 20),
    {
        self.bit(20)
    }

    /// CXL memory may be attached to the guest.
    pub fn cxl_allowed(self) -> (r: bool)
        ensures
            r == bit_set(self@, 21),
    {
        self.bit(21)
    }

    /// The guest requires AES-256-XTS memory encryption.
    pub fn mem_aes_256_xts_required(self) -> (r: bool)
        ensures
            r == bit_set(self@, 22),
    {
        self.bit(22)
    }

    /// Running average power limit reporting must be disabled.
    pub fn rapl_disabled(self) -> (r: bool)
        ensures
            r == bit_set(self@, 23),
    {
        self.bit(23)
    }

    /// The guest requires ciphertext hiding for DRAM.
    pub fn ciphertext_hiding_dram_required(self) -> (r: bool)
        ensures
            r == bit_set(self@, 24),
    {
        self.bit(24)
    }

    /// Page swapping by the host is disabled for this guest.
    pub fn page_swap_disabled(self) -> (r: bool)
        ensures
            r == bit_set(self@, 25),
    {
        self.bit(25)
    }

    /// Policy bits set that this crate does not have a name for.
    ///
    /// Non-zero means the guest was launched under a policy from a newer ABI
    /// revision. Inspect it before treating an absent feature flag as "off".
    pub fn unknown_bits(self) -> (r: u64)
        ensures
            r == self@ & !GUEST_POLICY_KNOWN,
            r == 0 <==> self@ <= GUEST_POLICY_KNOWN,
    {
        let r = self.0 & !GUEST_POLICY_KNOWN;
        let v = self.0;
        assert(v & !0x03FF_FFFFu64 == 0 <==> v <= 0x03FF_FFFFu64) by (bit_vector);
        r
    }

    fn bit(self, n: u64) -> (r: bool)
        requires
            n < 64,
        ensures
            r == bit_set(self@, n),
    {
        (self.0 >> n) & 1 == 1
    }
}

/// Every bit of a policy is either one of the named switches (or the ABI
/// version below them) or one of [`GuestPolicy::unknown_bits`], never both:
/// the named part and the unknown part partition the raw value.
pub proof fn lemma_guest_policy_partition(raw: u64)
    ensures
        (raw & GUEST_POLICY_KNOWN) | (raw & !GUEST_POLICY_KNOWN) == raw,
        (raw & GUEST_POLICY_KNOWN) & (raw & !GUEST_POLICY_KNOWN) == 0,
{
    assert((raw & 0x03FF_FFFFu64) | (raw & !0x03FF_FFFFu64) == raw) by (bit_vector);
    assert((raw & 0x03FF_FFFFu64) & (raw & !0x03FF_FFFFu64) == 0) by (bit_vector);
}

/// Host platform configuration at the time the report was signed.
#[derive(Debug, Clone, Copy, PartialEq, Eq, Hash, Structural)]
pub struct PlatformInfo(u64);

/// The platform info bits this crate names: 5:0 and 7.
pub const PLATFORM_INFO_KNOWN: u64 = 0xBF;

impl View for PlatformInfo {
    type V = u64;

    closed spec fn view(&self) -> u64 {
        self.0
    }
}

impl PlatformInfo {
    /// Wraps a raw platform info value.
    pub fn from_raw(raw: u64) -> (r: Self)
        ensures
            r@ == raw,
    {
        Self(raw)
    }

    /// The underlying 64-bit value.
    pub fn raw(self) -> (r: u64)
        ensures
            r == self@,
    {
        self.0
    }

    /// Simultaneous multithreading is enabled on the host.
    pub fn smt_enabled(self) -> (r: bool)
        ensures
            r == bit_set(self@, 0),
    {
        self.bit(0)
    }

    /// Transparent secure memory encryption is enabled.
    pub fn tsme_enabled(self) -> (r: bool)
        ensures
            r == bit_set(self@, 1),
    {
        self.bit(1)
    }

    /// Memory is protected by error correcting codes.
    pub fn ecc_enabled(self) -> (r: bool)
        ensures
            r == bit_set(self@, 2),
    {
        self.bit(2)
    }

    /// Running average power limit reporting is disabled.
    pub fn rapl_disabled(self) -> (r: bool)
        ensures
            r == bit_set(self@, 3),
    {
        self.bit(3)
    }

    /// Ciphertext hiding is enabled for DRAM.
    pub fn ciphertext_hiding_dram_enabled(self) -> (r: bool)
        ensures
            r == bit_set(self@, 4),
    {
        self.bit(4)
    }

    /// Alias detection has completed since the last reset with no aliases found.
    ///
    /// This is the platform's attestable mitigation for the BadRAM class of
    /// attacks (AMD-SB-3015); a relying party that cares about physical memory
    /// aliasing should require it.
    pub fn alias_check_complete(self) -> (r: bool)
        ensures
            r == bit_set(self@, 5),
    {
        self.bit(5)
    }

    /// SEV-TIO (trusted I/O) is enabled.
    pub fn tio_enabled(self) -> (r: bool)
        ensures
            r == bit_set(self@, 7),
    {
        self.bit(7)
    }

    /// Platform info bits set that this crate does not have a name for.
    pub fn unknown_bits(self) -> (r: u64)
        ensures
            r == self@ & !PLATFORM_INFO_KNOWN,
            r == 0 <==> (self@ <= 0xFF && !bit_set(self@, 6)),
    {
        let r = self.0 & !PLATFORM_INFO_KNOWN;
        let v = self.0;
        assert(v & !0xBFu64 == 0 <==> (v <= 0xFF && !((v >> 6u64) & 1 == 1))) by (bit_vector);
        r
    }

    fn bit(self, n: u64) -> (r: bool)
        requires
            n < 64,
        ensures
            r == bit_set(self@, n),
    {
        (self.0 >> n) & 1 == 1
    }
}

/// Which key signed the attestation report.
#[derive(Debug, Clone, Copy, PartialEq, Eq, Hash, Structural)]
#[non_exhaustive]
pub enum SigningKey {
    /// Versioned Chip Endorsement Key: unique to this physical processor.
    Vcek,
    /// Versioned Loaded Endorsement Key: provisioned by the cloud provider.
    Vlek,
    /// No key; the report is unsigned.
    Unsigned,
    /// A signing key kind this crate does not recognise.
    Unknown(u8),
}

/// The signing key a signer info value names in bits 4:2.
pub open spec fn signing_key_of(raw: u32) -> SigningKey {
    let k = (raw / 4) % 8;
    if k == 0 {
        SigningKey::Vcek
    } else if k == 1 {
        SigningKey::Vlek
    } else if k == 7 {
        SigningKey::Unsigned
    } else {
        SigningKey::Unknown(k as u8)
    }
}

/// How the report was signed and what the host chose to reveal.
#[derive(Debug, Clone, Copy, PartialEq, Eq, Hash, Structural)]
pub struct SignerInfo(u32);

impl View for SignerInfo {
    type V = u32;

    closed spec fn view(&self) -> u32 {
        self.0
    }
}

impl SignerInfo {
    /// Wraps a raw signer info value.
    pub fn from_raw(raw: u32) -> (r: Self)
        ensures
            r@ == raw,
    {
        Self(raw)
    }

    /// The underlying 32-bit value.
    pub fn raw(self) -> (r: u32)
        ensures
            r == self@,
    {
        self.0
    }

    /// The guest was launched with an ID block that includes an author key.
    pub fn author_key_enabled(self) -> (r: bool)
        ensures
            r == (self@ % 2 == 1),
    {
        self.0 % 2 == 1
    }

    /// The host masked the chip ID, so `CHIP_ID` in the report reads as zeros.
    pub fn chip_key_masked(self) -> (r: bool)
        ensures
            r == ((self@ / 2) % 2 == 1),
    {
        (self.0 / 2) % 2 == 1
    }

    /// The key that signed the report.
    pub fn signing_key(self) -> (r: SigningKey)
        ensures
            r == signing_key_of(self@),
    {
        match ((self.0 / 4) % 8) as u8 {
            0 => SigningKey::Vcek,
            1 => SigningKey::Vlek,
            7 => SigningKey::Unsigned,
            other => SigningKey::Unknown(other),
        }
    }
}

/// The algorithm used to sign the report.
#[derive(Debug, Clone, Copy, PartialEq, Eq, Hash, Structural)]
#[non_exhaustive]
pub enum SignatureAlgo {
    /// The report is not signed.
    Unsigned,
    /// ECDSA over P-384 with SHA-384.
    EcdsaP384Sha384,
    /// An algorithm this crate does not recognise.
    Unknown(u32),
}

/// The algorithm a raw `SIGNATURE_ALGO` value names.
pub open spec fn signature_algo_of(raw: u32) -> SignatureAlgo {
    match raw {
        0 => SignatureAlgo::Unsigned,
        1 => SignatureAlgo::EcdsaP384Sha384,
        other => SignatureAlgo::Unknown(other),
    }
}

impl SignatureAlgo {
    /// Interprets a raw `SIGNATURE_ALGO` value.
    pub fn from_raw(raw: u32) -> (r: Self)
        ensures
            r == signature_algo_of(raw),
    {
        match raw {
            0 => Self::Unsigned,
            1 => Self::EcdsaP384Sha384,
            other => Self::Unknown(other),
        }
    }
}

/// `name` preceded by a space when `set`, else nothing.
#[verifier::opaque]
pub open spec fn flag_text(set: bool, name: Seq<char>) -> Seq<char> {
    if set {
        seq![' '] + name
    } else {
        Seq::empty()
    }
}

/// Words that each start with a space, joined by single spaces.
pub open spec fn joined(spaced: Seq<char>) -> Seq<char> {
    if spaced.len() == 0 {
        spaced
    } else {
        spaced.drop_first()
    }
}

/// Appends ` name` when `set`.
fn push_flag(s: &mut String, set: bool, name: &str)
    ensures
        final(s)@ == old(s)@ + flag_text(set, name@),
{
    proof {
        reveal(flag_text);
    }
    if set {
        proof {
            reveal_strlit(" ");
        }
        s.append(" ");
        s.append(name);
    }
}

/// Appends `name` when `set`, after a space unless nothing came before.
fn push_word(s: &mut String, any: bool, set: bool, name: &str, Ghost(spaced): Ghost<Seq<char>>) -> (r:
    bool)
    requires
        old(s)@ == joined(spaced),
        any == (spaced.len() > 0),
        name@.len() > 0,
    ensures
        final(s)@ == joined(spaced + flag_text(set, name@)),
        r == ((spaced + flag_text(set, name@)).len() > 0),
{
    proof {
        reveal_strlit(" ");
        reveal(flag_text);
    }
    if set {
        if any {
            s.append(" ");
        }
        s.append(name);
        assert(final(s)@ =~= joined(spaced + flag_text(set, name@)));
        true
    } else {
        assert(spaced + flag_text(set, name@) =~= spaced);
        any
    }
}

/// The names of the policy switches that are set, each after a space.
pub open spec fn guest_policy_flags(p: u64) -> Seq<char> {
    flag_text(bit_set(p, 16), "smt"@) + flag_text(bit_set(p, 18), "migrate-ma"@) + flag_text(
        bit_set(p, 19),
        "debug"@,
    ) + flag_text(bit_set(p, 20), "single-socket"@) + flag_text(bit_set(p, 21), "cxl"@)
        + flag_text(bit_set(p, 22), "aes-256-xts"@) + flag_text(bit_set(p, 23), "rapl-dis"@)
        + flag_text(bit_set(p, 24), "ciphertext-hiding"@) + flag_text(
        bit_set(p, 25),
        "page-swap-dis"@,
    )
}

impl GuestPolicy {
    /// A human-readable description: the minimum ABI version, then the name
    /// of every switch that is set.
    pub fn to_string(&self) -> (r: String)
        ensures
            r@ == "abi="@ + dec_text(((self@ / 0x100) % 0x100) as nat) + "."@ + dec_text((self@ % 0x100) as nat)
                + guest_policy_flags(self@),
    {
        let mut s = text("abi=");
        push_dec(&mut s, self.abi_major() as u64);
        s.append(".");
        push_dec(&mut s, self.abi_minor() as u64);
        let ghost head = s@;
        let v = self.0;
        push_flag(&mut s, self.smt_allowed(), "smt");
        push_flag(&mut s, self.migrate_ma_allowed(), "migrate-ma");
        push_flag(&mut s, self.debug_allowed(), "debug");
        let ghost a = flag_text(bit_set(v, 16), "smt"@) + flag_text(bit_set(v, 18), "migrate-ma"@)
            + flag_text(bit_set(v, 19), "debug"@);
        assert(s@ =~= head + a);
        let ghost mid = s@;
        push_flag(&mut s, self.single_socket_required(), "single-socket");
        push_flag(&mut s, self.cxl_allowed(), "cxl");
        push_flag(&mut s, self.mem_aes_256_xts_required(), "aes-256-xts");
        let ghost b = flag_text(bit_set(v, 20), "single-socket"@) + flag_text(bit_set(v, 21), "cxl"@)
            + flag_text(bit_set(v, 22), "aes-256-xts"@);
        assert(s@ =~= mid + b);
        let ghost mid2 = s@;
        push_flag(&mut s, self.rapl_disabled(), "rapl-dis");
        push_flag(&mut s, self.ciphertext_hiding_dram_required(), "ciphertext-hiding");
        push_flag(&mut s, self.page_swap_disabled(), "page-swap-dis");
        let ghost c = flag_text(bit_set(v, 23), "rapl-dis"@) + flag_text(
            bit_set(v, 24),
            "ciphertext-hiding"@,
        ) + flag_text(bit_set(v, 25), "page-swap-dis"@);
        assert(s@ =~= mid2 + c);
        assert(guest_policy_flags(v) =~= a + b + c);
        assert(s@ =~= head + guest_policy_flags(v));
        s
    }
}

/// The names of the platform features that are set, each after a space.
pub open spec fn platform_info_flags(p: u64) -> Seq<char> {
    flag_text(bit_set(p, 0), "smt"@) + flag_text(bit_set(p, 1), "tsme"@) + flag_text(
        bit_set(p, 2),
        "ecc"@,
    ) + flag_text(bit_set(p, 3), "rapl-dis"@) + flag_text(bit_set(p, 4), "ciphertext-hiding"@)
        + flag_text(bit_set(p, 5), "alias-check-complete"@) + flag_text(bit_set(p, 7), "tio"@)
}

impl PlatformInfo {
    /// A human-readable description: the names of the features that are
    /// set, separated by spaces, or `none`.
    pub fn to_string(&self) -> (r: String)
        ensures
            r@ == (if platform_info_flags(self@).len() == 0 {
                "none"@
            } else {
                platform_info_flags(self@).drop_first()
            }),
    {
        proof {
            reveal_strlit("smt");
            reveal_strlit("tsme");
            reveal_strlit("ecc");
            reveal_strlit("rapl-dis");
            reveal_strlit("ciphertext-hiding");
            reveal_strlit("alias-check-complete");
            reveal_strlit("tio");
        }
        let mut s = String::new();
        let ghost sp: Seq<char> = Seq::empty();
        let any = false;
        let any = push_word(&mut s, any, self.smt_enabled(), "smt", Ghost(sp));
        let ghost sp = sp + flag_text(bit_set(self@, 0), "smt"@);
        let any = push_word(&mut s, any, self.tsme_enabled(), "tsme", Ghost(sp));
        let ghost sp = sp + flag_text(bit_set(self@, 1), "tsme"@);
        let any = push_word(&mut s, any, self.ecc_enabled(), "ecc", Ghost(sp));
        let ghost sp = sp + flag_text(bit_set(self@, 2), "ecc"@);
        let any = push_word(&mut s, any, self.rapl_disabled(), "rapl-dis", Ghost(sp));
        let ghost sp = sp + flag_text(bit_set(self@, 3), "rapl-dis"@);
        let any = push_word(
            &mut s,
            any,
            self.ciphertext_hiding_dram_enabled(),
            "ciphertext-hiding",
            Ghost(sp),
        );
        let ghost sp = sp + flag_text(bit_set(self@, 4), "ciphertext-hiding"@);
        let any = push_word(
            &mut s,
            any,
            self.alias_check_complete(),
            "alias-check-complete",
            Ghost(sp),
        );
        let ghost sp = sp + flag_text(bit_set(self@, 5), "alias-check-complete"@);
        let any = push_word(&mut s, any, self.tio_enabled(), "tio", Ghost(sp));
        let ghost sp = sp + flag_text(bit_set(self@, 7), "tio"@);
        assert(sp =~= platform_info_flags(self@));
        if !any {
            return text("none");
        }
        s
    }
}

/// The name of a signing key: `None` for an unsigned report, else as its
/// variant reads.
pub open spec fn signing_key_text(k: SigningKey) -> Seq<char> {
    match k {
        SigningKey::Vcek => "Vcek"@,
        SigningKey::Vlek => "Vlek"@,
        SigningKey::Unsigned => "None"@,
        SigningKey::Unknown(v) => "Unknown("@ + dec_text(v as nat) + ")"@,
    }
}

impl SignerInfo {
    /// A human-readable description: the signing key, then `author-key` and
    /// `chip-key-masked` when those bits are set.
    pub fn to_string(&self) -> (r: String)
        ensures
            r@ == signing_key_text(signing_key_of(self@)) + flag_text(self@ % 2 == 1, "author-key"@)
                + flag_text((self@ / 2) % 2 == 1, "chip-key-masked"@),
    {
        let mut s = match self.signing_key() {
            SigningKey::Vcek => text("Vcek"),
            SigningKey::Vlek => text("Vlek"),
            SigningKey::Unsigned => text("None"),
            SigningKey::Unknown(v) => {
                let mut s = text("Unknown(");
                push_dec(&mut s, v as u64);
                s.append(")");
                s
            },
        };
        push_flag(&mut s, self.author_key_enabled(), "author-key");
        push_flag(&mut s, self.chip_key_masked(), "chip-key-masked");
        s
    }
}

} // verus!
