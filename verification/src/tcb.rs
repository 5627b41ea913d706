//! Processor identification and TCB version decoding.
//!
//! `TCB_VERSION` is the one field in the SEV-SNP ABI whose *layout* depends on
//! the processor generation, so decoding it requires knowing the product. Zen 3
//! (Milan) and Zen 4 (Genoa, Bergamo, Siena) use the legacy layout; Zen 5
//! (Turin) and later insert an FMC security version number and shift the rest.

use crate::bytes::{le_bytes_u64, le_u64, lemma_le_bytes_of_u64, lemma_le_u64_of_bytes};
use crate::text::{text, dec_text, prefixed_hex, push_dec, push_prefixed_hex};
use vstd::prelude::*;
use vstd::string::StringExecFns;

verus! {

/// A processor family/model/stepping triple as reported by `CPUID(1).EAX`.
///
/// Attestation reports from version 3 onwards carry this directly, which is why
/// [`AttestationReport`](crate::AttestationReport) can decode its own TCB fields
/// without asking the caller which machine produced them.
#[derive(Debug, Clone, Copy, PartialEq, Eq, Hash, Structural)]
pub struct Fms {
    /// Combined base and extended family.
    pub family: u8,
    /// Combined base and extended model.
    pub model: u8,
    /// Stepping.
    pub stepping: u8,
}

/// The `CPUID(1).EAX` encoding of a family/model/stepping triple: stepping in
/// bits 3:0, the low model nibble in 7:4, the base family in 11:8, the high
/// model nibble in 19:16 and the extended family in 27:20. Families from `0xF`
/// up are split into base `0xF` plus an extended part.
pub open spec fn cpuid_1_eax_of(fms: Fms) -> int {
    let base_family: int = if fms.family >= 0xF {
        0xF
    } else {
        fms.family as int
    };
    let ext_family: int = if fms.family >= 0xF {
        fms.family - 0xF
    } else {
        0
    };
    (fms.stepping % 0x10) + 0x10 * (fms.model % 0x10) + 0x100 * base_family + 0x1_0000 * (fms.model
        / 0x10) + 0x10_0000 * ext_family
}

/// The family/model/stepping a `CPUID(1).EAX` value describes. The family is
/// the base family, plus the extended family (modulo 256) when the base reads
/// `0xF`; the model joins the extended model (bits 19:16) above the base model
/// (bits 7:4).
pub open spec fn fms_of_cpuid_1_eax(eax: u32) -> Fms {
    let base_family = (eax as int / 0x100) % 0x10;
    let ext_family = (eax as int / 0x10_0000) % 0x100;
    Fms {
        family: if base_family == 0xF {
            ((base_family + ext_family) % 0x100) as u8
        } else {
            base_family as u8
        },
        model: (0x10 * ((eax as int / 0x1_0000) % 0x10) + (eax as int / 0x10) % 0x10) as u8,
        stepping: (eax as int % 0x10) as u8,
    }
}

impl Fms {
    /// Builds an `Fms` from its parts.
    pub fn new(family: u8, model: u8, stepping: u8) -> (r: Self)
        ensures
            r == (Fms { family, model, stepping }),
    {
        Self { family, model, stepping }
    }

    /// Re-encodes into the `CPUID(1).EAX` representation.
    pub fn to_cpuid_1_eax(self) -> (r: u32)
        ensures
            r == cpuid_1_eax_of(self),
    {
        let family = self.family as u32;
        let model = self.model as u32;
        let stepping = self.stepping as u32;
        let (base_family, ext_family) = if family >= 0xF {
            (0xFu32, family - 0xF)
        } else {
            (family, 0u32)
        };
        let r = (ext_family << 20u32) | ((model >> 4u32) << 16u32) | (base_family << 8u32) | ((model
            & 0xF) << 4u32) | (stepping & 0xF);
        assert(r == (stepping % 0x10) + 0x10 * (model % 0x10) + 0x100 * base_family + 0x1_0000 * (
        model / 0x10) + 0x10_0000 * ext_family) by (bit_vector)
            requires
                ext_family < 0x100,
                base_family < 0x10,
                model < 0x100,
                stepping < 0x100,
                r == (ext_family << 20u32) | ((model >> 4u32) << 16u32) | (base_family << 8u32) | ((
                model & 0xF) << 4u32) | (stepping & 0xF),
        ;
        r
    }

    /// Decodes a `CPUID(1).EAX` value.
    pub fn from_cpuid_1_eax(eax: u32) -> (r: Self)
        ensures
            r == fms_of_cpuid_1_eax(eax),
    {
        let base_family = ((eax >> 8u32) & 0xF) as u8;
        let ext_family = ((eax >> 20u32) & 0xFF) as u8;
        assert(((eax >> 8u32) & 0xF) == (eax / 0x100) % 0x10 && ((eax >> 20u32) & 0xFF) == (eax
            / 0x10_0000) % 0x100) by (bit_vector);
        let family = if base_family == 0xF {
            base_family.wrapping_add(ext_family)
        } else {
            base_family
        };
        let model_bits = ((eax >> 12u32) & 0xF0) | ((eax >> 4u32) & 0xF);
        assert(model_bits == 0x10 * ((eax / 0x1_0000) % 0x10) + (eax / 0x10) % 0x10) by (bit_vector)
            requires
                model_bits == ((eax >> 12u32) & 0xF0) | ((eax >> 4u32) & 0xF),
        ;
        let model = model_bits as u8;
        let stepping = (eax & 0xF) as u8;
        assert((eax & 0xF) == eax % 0x10) by (bit_vector);
        Self::new(family, model, stepping)
    }
}

/// Where each part of a `CPUID(1).EAX` value lies, read with shifts and
/// masks: the stepping is bits 3:0, the model joins bits 19:16 (high nibble)
/// to bits 7:4 (low nibble), and the family is bits 11:8, plus bits 27:20
/// (modulo 256) exactly when bits 11:8 read `0xF`.
pub proof fn lemma_cpuid_1_eax_fields(eax: u32)
    ensures
        fms_of_cpuid_1_eax(eax).stepping == eax & 0xF,
        fms_of_cpuid_1_eax(eax).model == 0x10 * ((eax >> 16u32) & 0xF) + ((eax >> 4u32) & 0xF),
        (eax >> 8u32) & 0xF != 0xF ==> fms_of_cpuid_1_eax(eax).family == (eax >> 8u32) & 0xF,
        (eax >> 8u32) & 0xF == 0xF ==> fms_of_cpuid_1_eax(eax).family == (0xF + ((eax >> 20u32)
            & 0xFF)) % 0x100,
{
    assert((eax & 0xF) == eax % 0x10 && ((eax >> 4u32) & 0xF) == (eax / 0x10) % 0x10 && ((eax
        >> 8u32) & 0xF) == (eax / 0x100) % 0x10 && ((eax >> 16u32) & 0xF) == (eax / 0x1_0000)
        % 0x10 && ((eax >> 20u32) & 0xFF) == (eax / 0x10_0000) % 0x100) by (bit_vector);
}

/// How a family/model/stepping is laid out in `CPUID(1).EAX`, read back with
/// shifts and masks: the stepping's low nibble in bits 3:0, the model's low
/// nibble in bits 7:4 and high nibble in bits 19:16, a family below `0xF` in
/// bits 11:8, and a family from `0xF` up as `0xF` in bits 11:8 with the rest
/// in bits 27:20. Bits 15:12 and 31:28 stay clear.
pub proof fn lemma_cpuid_1_eax_layout(fms: Fms)
    ensures
        0 <= cpuid_1_eax_of(fms) <= u32::MAX,
        ({
            let eax = cpuid_1_eax_of(fms) as u32;
            &&& eax & 0xF == fms.stepping % 0x10
            &&& (eax >> 4u32) & 0xF == fms.model % 0x10
            &&& (eax >> 16u32) & 0xF == fms.model / 0x10
            &&& (eax >> 8u32) & 0xF == (if fms.family >= 0xF {
                0xF
            } else {
                fms.family
            })
            &&& (eax >> 20u32) & 0xFF == (if fms.family >= 0xF {
                fms.family - 0xF
            } else {
                0
            })
            &&& (eax >> 12u32) & 0xF == 0
            &&& eax >> 28u32 == 0
        }),
{
    let s = (fms.stepping % 0x10) as int;
    let m = fms.model as int;
    let f = fms.family as int;
    let base: int = if f >= 0xF {
        0xF
    } else {
        f
    };
    let ext: int = if f >= 0xF {
        f - 0xF
    } else {
        0
    };
    let mlo = m % 0x10;
    let mhi = m / 0x10;
    let v = cpuid_1_eax_of(fms);
    assert(v == s + 0x10 * mlo + 0x100 * base + 0x1_0000 * mhi + 0x10_0000 * ext);
    lemma_cpuid_digits(v, s, mlo, base, mhi, ext);
    let eax = v as u32;
    assert(eax as int == v);
    assert((eax & 0xF) == eax % 0x10 && ((eax >> 4u32) & 0xF) == (eax / 0x10) % 0x10 && ((eax
        >> 8u32) & 0xF) == (eax / 0x100) % 0x10 && ((eax >> 12u32) & 0xF) == (eax / 0x1000) % 0x10
        && ((eax >> 16u32) & 0xF) == (eax / 0x1_0000) % 0x10 && ((eax >> 20u32) & 0xFF) == (eax
        / 0x10_0000) % 0x100 && (eax >> 28u32) == eax / 0x1000_0000) by (bit_vector);
}

/// The digits of a number assembled from nibbles at the `CPUID(1).EAX`
/// positions read back by division.
proof fn lemma_cpuid_digits(v: int, s: int, mlo: int, base: int, mhi: int, ext: int)
    requires
        v == s + 0x10 * mlo + 0x100 * base + 0x1_0000 * mhi + 0x10_0000 * ext,
        0 <= s < 0x10,
        0 <= mlo < 0x10,
        0 <= base < 0x10,
        0 <= mhi < 0x10,
        0 <= ext < 0x100,
    ensures
        0 <= v < 0x1000_0000,
        v % 0x10 == s,
        (v / 0x10) % 0x10 == mlo,
        (v / 0x100) % 0x10 == base,
        (v / 0x1000) % 0x10 == 0,
        (v / 0x1_0000) % 0x10 == mhi,
        (v / 0x10_0000) % 0x100 == ext,
        v / 0x1000_0000 == 0,
{
    assert(v % 0x10 == s && (v / 0x10) % 0x10 == mlo && (v / 0x100) % 0x10 == base && (v
        / 0x1000) % 0x10 == 0 && (v / 0x1_0000) % 0x10 == mhi && (v / 0x10_0000) % 0x100 == ext
        && v / 0x1000_0000 == 0) by (nonlinear_arith)
        requires
            v == s + 0x10 * mlo + 0x100 * base + 0x1_0000 * mhi + 0x10_0000 * ext,
            0 <= s < 0x10,
            0 <= mlo < 0x10,
            0 <= base < 0x10,
            0 <= mhi < 0x10,
            0 <= ext < 0x100,
    ;
}

/// Encoding a family/model/stepping into `CPUID(1).EAX` and decoding it again
/// gives back the same triple, for every stepping the four-bit field can hold.
pub proof fn lemma_fms_cpuid_round_trip(fms: Fms)
    requires
        fms.stepping < 0x10,
    ensures
        fms_of_cpuid_1_eax(cpuid_1_eax_of(fms) as u32) == fms,
{
    let s = fms.stepping as int;
    let m = fms.model as int;
    let f = fms.family as int;
    let base: int = if f >= 0xF {
        0xF
    } else {
        f
    };
    let ext: int = if f >= 0xF {
        f - 0xF
    } else {
        0
    };
    let mlo = m % 0x10;
    let mhi = m / 0x10;
    let eax = cpuid_1_eax_of(fms);
    assert(eax == s + 0x10 * mlo + 0x100 * base + 0x1_0000 * mhi + 0x10_0000 * ext);
    assert(0 <= eax < 0x1_0000_0000);
    assert(eax as u32 as int == eax);
    assert((eax / 0x100) % 0x10 == base) by (nonlinear_arith)
        requires
            eax == s + 0x10 * mlo + 0x100 * base + 0x1_0000 * mhi + 0x10_0000 * ext,
            0 <= s < 0x10,
            0 <= mlo < 0x10,
            0 <= base < 0x10,
            0 <= mhi < 0x10,
            0 <= ext < 0x100,
    ;
    assert((eax / 0x10_0000) % 0x100 == ext) by (nonlinear_arith)
        requires
            eax == s + 0x10 * mlo + 0x100 * base + 0x1_0000 * mhi + 0x10_0000 * ext,
            0 <= s < 0x10,
            0 <= mlo < 0x10,
            0 <= base < 0x10,
            0 <= mhi < 0x10,
            0 <= ext < 0x100,
    ;
    assert((eax / 0x1_0000) % 0x10 == mhi) by (nonlinear_arith)
        requires
            eax == s + 0x10 * mlo + 0x100 * base + 0x1_0000 * mhi + 0x10_0000 * ext,
            0 <= s < 0x10,
            0 <= mlo < 0x10,
            0 <= base < 0x10,
            0 <= mhi < 0x10,
            0 <= ext < 0x100,
    ;
    assert((eax / 0x10) % 0x10 == mlo) by (nonlinear_arith)
        requires
            eax == s + 0x10 * mlo + 0x100 * base + 0x1_0000 * mhi + 0x10_0000 * ext,
            0 <= s < 0x10,
            0 <= mlo < 0x10,
            0 <= base < 0x10,
            0 <= mhi < 0x10,
            0 <= ext < 0x100,
    ;
    assert(eax % 0x10 == s) by (nonlinear_arith)
        requires
            eax == s + 0x10 * mlo + 0x100 * base + 0x1_0000 * mhi + 0x10_0000 * ext,
            0 <= s < 0x10,
            0 <= mlo < 0x10,
            0 <= base < 0x10,
            0 <= mhi < 0x10,
            0 <= ext < 0x100,
    ;
    assert(m == 0x10 * mhi + mlo);
}

/// An AMD EPYC generation, as far as the SEV-SNP ABI cares about it.
///
/// Only the distinction that changes wire layouts is load-bearing; the named
/// variants exist so callers can log something readable and so certificate
/// lookups can name the right product line.
#[derive(Debug, Clone, Copy, PartialEq, Eq, Hash, Structural)]
#[non_exhaustive]
pub enum Product {
    /// Zen 3, family 19h models 00h-0Fh.
    Milan,
    /// Zen 4, family 19h models 10h-1Fh.
    Genoa,
    /// Zen 4c, family 19h models A0h-AFh (Bergamo and Siena).
    Bergamo,
    /// Zen 5, family 1Ah.
    Turin,
    /// A part this crate does not have a name for.
    ///
    /// TCB decoding still works: the layout is chosen by family, so anything
    /// newer than Zen 5 is handled with the Turin layout.
    Unknown(Fms),
}

/// The product a family/model/stepping identifies.
pub open spec fn product_of(fms: Fms) -> Product {
    if fms.family == 0x19 && fms.model <= 0x0F {
        Product::Milan
    } else if fms.family == 0x19 && 0x10 <= fms.model <= 0x1F {
        Product::Genoa
    } else if fms.family == 0x19 && 0xA0 <= fms.model <= 0xAF {
        Product::Bergamo
    } else if fms.family == 0x1A {
        Product::Turin
    } else {
        Product::Unknown(fms)
    }
}

/// The `TCB_VERSION` layout a product uses: Milan, Genoa and Bergamo the
/// legacy one, Turin the Zen 5 one, and an unnamed part the Zen 5 one exactly
/// when its family is `1Ah` or later.
pub open spec fn layout_of(product: Product) -> TcbLayout {
    match product {
        Product::Milan | Product::Genoa | Product::Bergamo => TcbLayout::Legacy,
        Product::Turin => TcbLayout::Turin,
        Product::Unknown(fms) => if fms.family >= 0x1A {
            TcbLayout::Turin
        } else {
            TcbLayout::Legacy
        },
    }
}

impl Product {
    /// Identifies a product from its family/model/stepping.
    pub fn from_fms(fms: Fms) -> (r: Self)
        ensures
            r == product_of(fms),
    {
        if fms.family == 0x19 && fms.model <= 0x0F {
            Self::Milan
        } else if fms.family == 0x19 && 0x10 <= fms.model && fms.model <= 0x1F {
            Self::Genoa
        } else if fms.family == 0x19 && 0xA0 <= fms.model && fms.model <= 0xAF {
            Self::Bergamo
        } else if fms.family == 0x1A {
            Self::Turin
        } else {
            Self::Unknown(fms)
        }
    }

    /// The `TCB_VERSION` layout used by this product.
    pub fn tcb_layout(self) -> (r: TcbLayout)
        ensures
            r == layout_of(self),
    {
        match self {
            Self::Milan | Self::Genoa | Self::Bergamo => TcbLayout::Legacy,
            Self::Turin => TcbLayout::Turin,
            // Anything on family 1Ah or later uses the Turin layout; older
            // families are Zen 3/4 era and use the legacy one.
            Self::Unknown(fms) => {
                if fms.family >= 0x1A {
                    TcbLayout::Turin
                } else {
                    TcbLayout::Legacy
                }
            },
        }
    }

    /// The name AMD's Key Distribution Service uses for this product line.
    ///
    /// Returns `None` for parts this crate cannot name, since guessing a KDS
    /// path would produce a silently wrong certificate lookup.
    pub fn kds_name(self) -> (r: Option<&'static str>)
        ensures
            self is Unknown <==> r is None,
            self is Milan ==> r == Some("Milan"),
            self is Genoa ==> r == Some("Genoa"),
            self is Bergamo ==> r == Some("Bergamo"),
            self is Turin ==> r == Some("Turin"),
    {
        match self {
            Self::Milan => Some("Milan"),
            Self::Genoa => Some("Genoa"),
            Self::Bergamo => Some("Bergamo"),
            Self::Turin => Some("Turin"),
            Self::Unknown(_) => None,
        }
    }
}

/// Which product a processor is, by family and model: family `19h` models
/// `00h`-`0Fh` are Milan, `10h`-`1Fh` Genoa and `A0h`-`AFh` Bergamo, every
/// family `1Ah` part is Turin, and anything else is an unnamed part that
/// keeps its family/model/stepping. The stepping never matters.
pub proof fn lemma_products_by_family_and_model(fms: Fms, stepping: u8)
    ensures
        product_of(fms) == Product::Milan <==> fms.family == 0x19 && fms.model < 0x10,
        product_of(fms) == Product::Genoa <==> fms.family == 0x19 && 0x10 <= fms.model < 0x20,
        product_of(fms) == Product::Bergamo <==> fms.family == 0x19 && 0xA0 <= fms.model < 0xB0,
        product_of(fms) == Product::Turin <==> fms.family == 0x1A,
        product_of(fms) is Unknown <==> !(fms.family == 0x1A || (fms.family == 0x19 && (fms.model
            < 0x20 || 0xA0 <= fms.model < 0xB0))),
        product_of(fms) matches Product::Unknown(f) ==> f == fms,
        !(product_of(fms) is Unknown) ==> product_of(Fms { stepping, ..fms }) == product_of(fms),
{
}

/// Which layout a product uses depends only on its family: every part of
/// family `1Ah` or later, named or not, uses the Zen 5 layout, and every
/// earlier part the legacy one.
pub proof fn lemma_layout_follows_family(fms: Fms)
    ensures
        layout_of(product_of(fms)) == (if fms.family >= 0x1A {
            TcbLayout::Turin
        } else {
            TcbLayout::Legacy
        }),
{
}

/// Which byte order a `TCB_VERSION` uses.
#[derive(Debug, Clone, Copy, PartialEq, Eq, Hash, Structural)]
pub enum TcbLayout {
    /// Zen 3 and Zen 4: `{bootloader, tee, _, _, _, _, snp, microcode}`.
    Legacy,
    /// Zen 5 and later: `{fmc, bootloader, tee, snp, _, _, _, microcode}`.
    Turin,
}

/// A raw 64-bit `TCB_VERSION`.
///
/// Kept opaque because the same 64 bits mean different things on different
/// processors. Call [`decode`](Self::decode) with the product that produced it
/// to get named fields, or [`raw`](Self::raw) to pass it back to the firmware
/// unchanged — which is what key derivation wants.
#[derive(Debug, Clone, Copy, PartialEq, Eq, PartialOrd, Ord, Hash, Structural)]
pub struct TcbVersion(u64);

impl View for TcbVersion {
    type V = u64;

    closed spec fn view(&self) -> u64 {
        self.0
    }
}

impl core::default::Default for TcbVersion {
    fn default() -> (r: Self)
        ensures
            r@ == 0,
    {
        TcbVersion(0)
    }
}

/// The named fields of a raw `TCB_VERSION` under a layout. `b` are its eight
/// little-endian bytes.
pub open spec fn tcb_parts_of(raw: u64, layout: TcbLayout) -> TcbParts {
    let b = le_bytes_u64(raw);
    match layout {
        TcbLayout::Legacy => TcbParts {
            fmc: None,
            bootloader: b[0],
            tee: b[1],
            snp: b[6],
            microcode: b[7],
        },
        TcbLayout::Turin => TcbParts {
            fmc: Some(b[0]),
            bootloader: b[1],
            tee: b[2],
            snp: b[3],
            microcode: b[7],
        },
    }
}

/// The eight bytes a layout gives named fields, in little-endian order; the
/// bytes the layout reserves are zero, and so is a missing FMC value.
pub open spec fn tcb_bytes_of(parts: TcbParts, layout: TcbLayout) -> Seq<u8> {
    match layout {
        TcbLayout::Legacy => seq![parts.bootloader, parts.tee, 0, 0, 0, 0, parts.snp, parts.microcode],
        TcbLayout::Turin => seq![
            match parts.fmc {
                Some(v) => v,
                None => 0,
            },
            parts.bootloader,
            parts.tee,
            parts.snp,
            0,
            0,
            0,
            parts.microcode,
        ],
    }
}

impl TcbVersion {
    /// Wraps a raw `TCB_VERSION`.
    pub fn from_raw(raw: u64) -> (r: Self)
        ensures
            r@ == raw,
    {
        Self(raw)
    }

    /// The underlying 64-bit value.
    pub fn raw(self) -> (r: u64)
        ensures
            r == self@,
    {
        self.0
    }

    /// Splits the value into named security version numbers.
    pub fn decode(self, product: Product) -> (r: TcbParts)
        ensures
            r == tcb_parts_of(self@, layout_of(product)),
    {
        let mut b = [0u8; 8];
        crate::bytes::write_u64(&mut b, 0, self.0);
        assert(b@ =~= le_bytes_u64(self.0));
        match product.tcb_layout() {
            TcbLayout::Legacy => TcbParts {
                fmc: None,
                bootloader: b[0],
                tee: b[1],
                snp: b[6],
                microcode: b[7],
            },
            TcbLayout::Turin => TcbParts {
                fmc: Some(b[0]),
                bootloader: b[1],
                tee: b[2],
                snp: b[3],
                microcode: b[7],
            },
        }
    }
}

/// The named security version numbers inside a `TCB_VERSION`.
#[derive(Debug, Clone, Copy, PartialEq, Eq, Hash, Structural)]
pub struct TcbParts {
    /// FMC security version number. Only present on Zen 5 and later.
    pub fmc: Option<u8>,
    /// PSP bootloader security version number.
    pub bootloader: u8,
    /// PSP operating system security version number.
    pub tee: u8,
    /// SNP firmware security version number.
    pub snp: u8,
    /// Lowest microcode patch level across all cores.
    pub microcode: u8,
}

impl TcbParts {
    /// Re-encodes these fields into a raw `TCB_VERSION` for the given product.
    ///
    /// `fmc` is written only when the layout has a slot for it, so a value set
    /// on a legacy part is dropped rather than corrupting the bootloader field.
    pub fn encode(self, product: Product) -> (r: TcbVersion)
        ensures
            r@ == le_u64(tcb_bytes_of(self, layout_of(product))),
    {
        let bytes: [u8; 8] = match product.tcb_layout() {
            TcbLayout::Legacy => [self.bootloader, self.tee, 0, 0, 0, 0, self.snp, self.microcode],
            TcbLayout::Turin => {
                let fmc = match self.fmc {
                    Some(v) => v,
                    None => 0,
                };
                [fmc, self.bootloader, self.tee, self.snp, 0, 0, 0, self.microcode]
            },
        };
        let r = crate::bytes::u64_at(bytes.as_slice(), 0);
        assert(bytes@.subrange(0, 8) =~= tcb_bytes_of(self, layout_of(product)));
        match r {
            Some(v) => TcbVersion(v),
            None => TcbVersion(0),
        }
    }
}

/// Encoding named fields for a product and decoding them for the same product
/// gives the same fields back, provided an FMC value is present exactly when
/// the product's layout has a slot for one.
pub proof fn lemma_tcb_round_trip(parts: TcbParts, product: Product)
    requires
        parts.fmc is Some <==> layout_of(product) == TcbLayout::Turin,
    ensures
        ({
            let raw = le_u64(tcb_bytes_of(parts, layout_of(product)));
            tcb_parts_of(raw as u64, layout_of(product)) == parts
        }),
{
    let s = tcb_bytes_of(parts, layout_of(product));
    lemma_le_bytes_of_u64(s);
}

/// An FMC value is written only when the layout has a slot for it: on a
/// legacy part it is dropped rather than corrupting the bootloader field, so
/// the encoding is the same whatever FMC value the fields carry.
pub proof fn lemma_legacy_encoding_ignores_fmc(parts: TcbParts, fmc: Option<u8>)
    ensures
        tcb_bytes_of(parts, TcbLayout::Legacy) == tcb_bytes_of(
            TcbParts { fmc, ..parts },
            TcbLayout::Legacy,
        ),
{
}

/// Decoding and re-encoding a raw `TCB_VERSION` for the same product gives
/// back the raw value whenever the bytes that product's layout reserves are
/// zero: no named field is lost or moved.
pub proof fn lemma_tcb_raw_round_trip(raw: u64, product: Product)
    requires
        ({
            let b = le_bytes_u64(raw);
            match layout_of(product) {
                TcbLayout::Legacy => b[2] == 0 && b[3] == 0 && b[4] == 0 && b[5] == 0,
                TcbLayout::Turin => b[4] == 0 && b[5] == 0 && b[6] == 0,
            }
        }),
    ensures
        le_u64(tcb_bytes_of(tcb_parts_of(raw, layout_of(product)), layout_of(product))) == raw,
{
    let b = le_bytes_u64(raw);
    lemma_le_u64_of_bytes(raw);
    assert(tcb_bytes_of(tcb_parts_of(raw, layout_of(product)), layout_of(product)) =~= b);
}

/// The text of a family/model/stepping: family and model as two-digit
/// hexadecimal, stepping in decimal.
pub open spec fn fms_text(fms: Fms) -> Seq<char> {
    "family "@ + prefixed_hex(fms.family as nat, 4) + " model "@ + prefixed_hex(fms.model as nat, 4)
        + " stepping "@ + dec_text(fms.stepping as nat)
}

impl Fms {
    /// A human-readable description, such as `family 0x19 model 0x01 stepping 1`.
    pub fn to_string(&self) -> (r: String)
        ensures
            r@ == fms_text(*self),
    {
        let mut s = text("family ");
        push_prefixed_hex(&mut s, self.family as u64, 4);
        s.append(" model ");
        push_prefixed_hex(&mut s, self.model as u64, 4);
        s.append(" stepping ");
        push_dec(&mut s, self.stepping as u64);
        s
    }
}

/// The text of a product: its name, or the family/model/stepping of a part
/// this crate cannot name.
pub open spec fn product_text(p: Product) -> Seq<char> {
    match p {
        Product::Milan => "Milan"@,
        Product::Genoa => "Genoa"@,
        Product::Bergamo => "Bergamo"@,
        Product::Turin => "Turin"@,
        Product::Unknown(fms) => "unknown product ("@ + fms_text(fms) + ")"@,
    }
}

impl Product {
    /// A human-readable description.
    pub fn to_string(&self) -> (r: String)
        ensures
            r@ == product_text(*self),
    {
        match self {
            Product::Milan => text("Milan"),
            Product::Genoa => text("Genoa"),
            Product::Bergamo => text("Bergamo"),
            Product::Turin => text("Turin"),
            Product::Unknown(fms) => {
                let mut s = text("unknown product (");
                s.append(fms.to_string().as_str());
                s.append(")");
                s
            },
        }
    }
}

impl TcbVersion {
    /// The raw value as 16 hexadecimal digits after `0x`.
    pub fn to_string(&self) -> (r: String)
        ensures
            r@ == prefixed_hex(self@ as nat, 18),
    {
        let mut s = String::new();
        push_prefixed_hex(&mut s, self.0, 18);
        s
    }
}

/// The text of named TCB fields: the FMC value when there is one, then the
/// bootloader, TEE, SNP and microcode values, all in decimal.
pub open spec fn tcb_parts_text(p: TcbParts) -> Seq<char> {
    (match p.fmc {
        Some(v) => "fmc="@ + dec_text(v as nat) + " "@,
        None => Seq::empty(),
    }) + "bootloader="@ + dec_text(p.bootloader as nat) + " tee="@ + dec_text(p.tee as nat)
        + " snp="@ + dec_text(p.snp as nat) + " microcode="@ + dec_text(p.microcode as nat)
}

impl TcbParts {
    /// A human-readable description, such as `bootloader=4 tee=0 snp=29 microcode=222`.
    pub fn to_string(&self) -> (r: String)
        ensures
            r@ == tcb_parts_text(*self),
    {
        let mut s = String::new();
        match self.fmc {
            Some(v) => {
                s.append("fmc=");
                push_dec(&mut s, v as u64);
                s.append(" ");
            },
            None => {},
        }
        s.append("bootloader=");
        push_dec(&mut s, self.bootloader as u64);
        s.append(" tee=");
        push_dec(&mut s, self.tee as u64);
        s.append(" snp=");
        push_dec(&mut s, self.snp as u64);
        s.append(" microcode=");
        push_dec(&mut s, self.microcode as u64);
        s
    }
}

} // verus!
