//! Detecting SEV, SEV-ES and SEV-SNP support from inside the guest.
//!
//! `CPUID(0x8000_001F)` reports what the processor exposes to this VM. Inside an
//! SNP guest the leaf is served from the guest CPUID table the firmware
//! validated at launch, so its answers are trustworthy — unlike most CPUID
//! results in a confidential VM.
//!
//! Executing `CPUID` is left to the caller; this module decides what the
//! registers it returns mean.
//!
//! What CPUID cannot tell you is whether encryption is *active* for this guest;
//! that lives in `MSR_AMD64_SEV`, which is ring 0 only. Use
//! [`is_snp_guest`] instead, which pairs the capability bits with the presence
//! of a working kernel guest interface.

use crate::bytes::low_byte;
use vstd::prelude::*;

verus! {

/// The extended CPUID leaf that describes memory encryption.
pub const ENCRYPTION_LEAF: u32 = 0x8000_001F;

/// Whether bit `n` of a 32-bit register is set.
pub open spec fn reg_bit(v: u32, n: u32) -> bool {
    (v >> n) & 1 == 1
}

/// The four registers of `CPUID(0x8000_001F)`, as plain values.
pub struct CapabilityRegisters {
    /// `EAX`: the feature bits.
    pub eax: u32,
    /// `EBX`: C-bit position, address reduction and VMPL count.
    pub ebx: u32,
    /// `ECX`: the number of encrypted guests.
    pub ecx: u32,
    /// `EDX`: the minimum SEV-only ASID.
    pub edx: u32,
}

/// What the processor reports about its memory encryption features.
///
/// Wraps the four registers of `CPUID(0x8000_001F)`. Feature bits are exposed
/// as accessors rather than fields so that a value read on newer silicon keeps
/// everything this crate does not yet name; [`Self::registers`] always returns
/// the untouched result.
#[derive(Debug, Clone, Copy, PartialEq, Eq, Hash, Structural)]
pub struct Capabilities {
    eax: u32,
    ebx: u32,
    ecx: u32,
    edx: u32,
}

impl View for Capabilities {
    type V = CapabilityRegisters;

    closed spec fn view(&self) -> CapabilityRegisters {
        CapabilityRegisters { eax: self.eax, ebx: self.ebx, ecx: self.ecx, edx: self.edx }
    }
}

impl Capabilities {
    /// Wraps the registers `CPUID(0x8000_001F)` returned, in the order `EAX`,
    /// `EBX`, `ECX`, `EDX`.
    pub fn from_registers(registers: [u32; 4]) -> (r: Self)
        ensures
            r@ == (CapabilityRegisters {
                eax: registers@[0],
                ebx: registers@[1],
                ecx: registers@[2],
                edx: registers@[3],
            }),
    {
        Capabilities { eax: registers[0], ebx: registers[1], ecx: registers[2], edx: registers[3] }
    }

    /// Secure Memory Encryption.
    ///
    /// A host feature; guests normally see this clear even when SEV is active.
    pub fn sme(self) -> (r: bool)
        ensures
            r == reg_bit(self@.eax, 0),
    {
        self.feature(0)
    }

    /// Secure Encrypted Virtualization.
    pub fn sev(self) -> (r: bool)
        ensures
            r == reg_bit(self@.eax, 1),
    {
        self.feature(1)
    }

    /// The page flush MSR is available.
    pub fn page_flush_msr(self) -> (r: bool)
        ensures
            r == reg_bit(self@.eax, 2),
    {
        self.feature(2)
    }

    /// SEV Encrypted State: register state is encrypted too.
    pub fn sev_es(self) -> (r: bool)
        ensures
            r == reg_bit(self@.eax, 3),
    {
        self.feature(3)
    }

    /// SEV Secure Nested Paging: memory integrity protection.
    pub fn sev_snp(self) -> (r: bool)
        ensures
            r == reg_bit(self@.eax, 4),
    {
        self.feature(4)
    }

    /// Virtual Machine Privilege Levels are supported.
    pub fn vmpl(self) -> (r: bool)
        ensures
            r == reg_bit(self@.eax, 5),
    {
        self.feature(5)
    }

    /// The `RMPQUERY` instruction is available.
    pub fn rmpquery(self) -> (r: bool)
        ensures
            r == reg_bit(self@.eax, 6),
    {
        self.feature(6)
    }

    /// Secure TSC is supported.
    pub fn secure_tsc(self) -> (r: bool)
        ensures
            r == reg_bit(self@.eax, 8),
    {
        self.feature(8)
    }

    /// Virtual Transparent Encryption.
    pub fn vte(self) -> (r: bool)
        ensures
            r == reg_bit(self@.eax, 16),
    {
        self.feature(16)
    }

    /// Bit position of the C-bit in a page table entry: `EBX` bits 5:0.
    pub fn c_bit_position(self) -> (r: u8)
        ensures
            r == self@.ebx % 0x40,
    {
        let v = self.ebx;
        assert(v & 0x3F == v % 0x40) by (bit_vector);
        low_byte(self.ebx & 0x3F)
    }

    /// Physical address bits lost to encryption metadata: `EBX` bits 11:6.
    pub fn phys_addr_reduction(self) -> (r: u8)
        ensures
            r == (self@.ebx / 0x40) % 0x40,
    {
        let v = self.ebx;
        assert((v >> 6u32) & 0x3F == (v / 0x40) % 0x40) by (bit_vector);
        low_byte((self.ebx >> 6u32) & 0x3F)
    }

    /// Number of VMPLs the processor supports: `EBX` bits 15:12.
    ///
    /// Reads as zero when the hypervisor did not populate the field in the
    /// guest CPUID table, which does not imply VMPLs are unavailable.
    pub fn num_vmpls(self) -> (r: u8)
        ensures
            r == (self@.ebx / 0x1000) % 0x10,
    {
        let v = self.ebx;
        assert((v >> 12u32) & 0xF == (v / 0x1000) % 0x10) by (bit_vector);
        low_byte((self.ebx >> 12u32) & 0xF)
    }

    /// Maximum number of simultaneously encrypted guests.
    pub fn max_encrypted_guests(self) -> (r: u32)
        ensures
            r == self@.ecx,
    {
        self.ecx
    }

    /// Minimum ASID usable by a SEV-enabled, SEV-ES-disabled guest.
    pub fn min_sev_no_es_asid(self) -> (r: u32)
        ensures
            r == self@.edx,
    {
        self.edx
    }

    /// The raw `EAX`, `EBX`, `ECX` and `EDX` values, in that order.
    pub fn registers(self) -> (r: [u32; 4])
        ensures
            r@ == seq![self@.eax, self@.ebx, self@.ecx, self@.edx],
    {
        let r = [self.eax, self.ebx, self.ecx, self.edx];
        assert(r@ =~= seq![self@.eax, self@.ebx, self@.ecx, self@.edx]);
        r
    }

    fn feature(self, bit: u32) -> (r: bool)
        requires
            bit < 32,
        ensures
            r == reg_bit(self@.eax, bit),
    {
        (self.eax >> bit) & 1 == 1
    }
}

/// The capabilities a `CPUID` probe found: `None` when the highest extended
/// leaf (`CPUID(0x8000_0000).EAX`) stops short of `0x8000_001F`, which is the
/// case on every non-AMD processor and on AMD parts predating SME; otherwise
/// the registers `CPUID(0x8000_001F)` returned.
pub fn capabilities_from_cpuid(highest_extended_leaf: u32, leaf: [u32; 4]) -> (r: Option<
    Capabilities,
>)
    ensures
        highest_extended_leaf < ENCRYPTION_LEAF <==> r is None,
        r matches Some(c) ==> c.registers_spec() == leaf@,
{
    if highest_extended_leaf < ENCRYPTION_LEAF {
        return None;
    }
    Some(Capabilities::from_registers(leaf))
}

impl Capabilities {
    /// The registers as a sequence, `EAX` first.
    pub open spec fn registers_spec(self) -> Seq<u32> {
        seq![self@.eax, self@.ebx, self@.ecx, self@.edx]
    }
}

/// Whether this process is running inside an SEV-SNP guest, given what
/// `CPUID` reported and whether a kernel guest interface is present.
///
/// True when the processor advertises SEV-SNP *and* the kernel exposes a guest
/// interface this crate can use. Both halves matter: the capability bit alone
/// is also set on a bare-metal host that merely supports SNP, and a kernel
/// interface can be present but unusable.
pub fn is_snp_guest_from(capabilities: Option<Capabilities>, interface_available: bool) -> (r:
    bool)
    ensures
        r == (capabilities matches Some(c) && reg_bit(c@.eax, 4) && interface_available),
{
    match capabilities {
        Some(c) => c.sev_snp() && interface_available,
        None => false,
    }
}

} // verus!
