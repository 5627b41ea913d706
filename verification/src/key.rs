//! Hardware-bound key derivation.
//!
//! The secure processor can derive a 32-byte key from a root secret that never
//! leaves the chip, mixed with any combination of facts about the running VM.
//! Nothing is stored: the same request on the same machine, under the same
//! firmware, running the same guest image, reproduces the same key — and any
//! change to a bound fact silently produces a different one.
//!
//! That is what makes it useful for sealing. Bind
//! [`measurement`](KeyRequest::bind_measurement) and a disk encryption key
//! becomes unreadable if the guest image is tampered with; add
//! [`bind_tcb`](KeyRequest::bind_tcb) and it also becomes unreadable after a
//! firmware rollback. Because the root secret is chip-unique (with
//! [`RootKey::Vcek`]), the sealed data is bound to that physical processor too.

use crate::bytes::{
    le_bytes_u32, le_bytes_u64, le_u32, le_u64, lemma_le_u32_of_bytes, lemma_le_u64_of_bytes,
    write_u32, write_u64,
};
use crate::error::{Error, Result};
use crate::policy::bit_set;
use crate::tcb::TcbVersion;
use vstd::prelude::*;
use zeroize::{Zeroize, Zeroizing};

verus! {

/// Which chip-held secret to derive from.
#[derive(Debug, Clone, Copy, PartialEq, Eq, Hash, Structural)]
pub enum RootKey {
    /// The Versioned Chip Endorsement Key, unique to this physical processor.
    ///
    /// Keys derived from it cannot be reproduced on any other machine, which
    /// is what you want for sealing data to this host.
    Vcek,
    /// The VM Root Key, installed by a migration agent.
    ///
    /// Survives migration to another host, so a key derived from it follows
    /// the VM. Only available when the guest was launched with a migration
    /// agent; otherwise the firmware rejects the request.
    Vmrk,
}

impl core::default::Default for RootKey {
    fn default() -> (r: Self)
        ensures
            r == RootKey::Vcek,
    {
        RootKey::Vcek
    }
}

/// The `ROOT_KEY_SELECT` value that names a root key.
pub open spec fn root_key_raw(root: RootKey) -> u32 {
    match root {
        RootKey::Vcek => 0,
        RootKey::Vmrk => 1,
    }
}

impl RootKey {
    fn as_raw(self) -> (r: u32)
        ensures
            r == root_key_raw(self),
    {
        match self {
            Self::Vcek => 0,
            Self::Vmrk => 1,
        }
    }
}

/// The value of a `GUEST_FIELD_SELECT` after setting bit `index`.
pub open spec fn with_bit(v: u64, index: u64) -> u64 {
    v | (1u64 << index)
}

/// The facts mixed into a derived key.
///
/// Each bit names a property of the running guest. A bit that is set makes the
/// derived key depend on that property; a bit that is clear leaves the key
/// insensitive to it.
#[derive(Debug, Clone, Copy, PartialEq, Eq, Hash, Structural)]
pub struct KeyFields(u64);

impl View for KeyFields {
    type V = u64;

    closed spec fn view(&self) -> u64 {
        self.0
    }
}

impl core::default::Default for KeyFields {
    fn default() -> (r: Self)
        ensures
            r@ == 0,
    {
        KeyFields(0)
    }
}

impl KeyFields {
    /// No fields mixed in.
    pub fn none() -> (r: Self)
        ensures
            r@ == 0,
    {
        KeyFields(0)
    }

    /// The raw `GUEST_FIELD_SELECT` value.
    pub fn raw(self) -> (r: u64)
        ensures
            r == self@,
    {
        self.0
    }

    /// The guest launch policy is mixed in.
    pub fn guest_policy(self) -> (r: bool)
        ensures
            r == bit_set(self@, 0),
    {
        self.bit(0)
    }

    /// The guest image ID is mixed in.
    pub fn image_id(self) -> (r: bool)
        ensures
            r == bit_set(self@, 1),
    {
        self.bit(1)
    }

    /// The guest family ID is mixed in.
    pub fn family_id(self) -> (r: bool)
        ensures
            r == bit_set(self@, 2),
    {
        self.bit(2)
    }

    /// The launch measurement is mixed in.
    pub fn measurement(self) -> (r: bool)
        ensures
            r == bit_set(self@, 3),
    {
        self.bit(3)
    }

    /// The guest security version number is mixed in.
    pub fn guest_svn(self) -> (r: bool)
        ensures
            r == bit_set(self@, 4),
    {
        self.bit(4)
    }

    /// The TCB version is mixed in.
    pub fn tcb_version(self) -> (r: bool)
        ensures
            r == bit_set(self@, 5),
    {
        self.bit(5)
    }

    /// The launch mitigation vector is mixed in.
    pub fn launch_mit_vector(self) -> (r: bool)
        ensures
            r == bit_set(self@, 6),
    {
        self.bit(6)
    }

    fn bit(self, index: u64) -> (r: bool)
        requires
            index < 64,
        ensures
            r == bit_set(self@, index),
    {
        (self.0 >> index) & 1 == 1
    }

    fn with(self, index: u64) -> (r: Self)
        requires
            index < 64,
        ensures
            r@ == with_bit(self@, index),
    {
        Self(self.0 | (1u64 << index))
    }
}

/// Setting one field bit sets that bit and leaves every other bit as it was,
/// so bindings accumulate and none undoes another.
pub proof fn lemma_with_bit(v: u64, index: u64, other: u64)
    requires
        index < 64,
        other < 64,
    ensures
        bit_set(with_bit(v, index), index),
        other != index ==> bit_set(with_bit(v, index), other) == bit_set(v, other),
{
    assert(bit_set(with_bit(v, index), index)) by (bit_vector)
        requires
            index < 64,
    ;
    assert(other != index ==> bit_set(with_bit(v, index), other) == bit_set(v, other))
        by (bit_vector)
        requires
            index < 64,
            other < 64,
    ;
}

/// What a key request asks for, as plain values.
pub struct KeyRequestModel {
    /// The root secret to derive from.
    pub root_key: RootKey,
    /// The `GUEST_FIELD_SELECT` bits.
    pub fields: u64,
    /// The VMPL mixed into the key.
    pub vmpl: u32,
    /// The guest SVN mixed in when bound.
    pub guest_svn: u32,
    /// The raw TCB version mixed in when bound.
    pub tcb_version: u64,
    /// The launch mitigation vector mixed in when bound.
    pub launch_mit_vector: u64,
}

/// A request for a hardware-derived key.
///
/// Build one with [`KeyRequest::new`] and the `bind_*` methods, then pass it to
/// `Firmware::derive_key`. An unmodified request derives a key bound to nothing
/// but the root secret and the VMPL, which is reproducible by any guest on the
/// same chip at the same privilege level — so bind at least
/// [`bind_measurement`](Self::bind_measurement) unless you know you want that.
#[derive(Debug, Clone, Copy, PartialEq, Eq, Structural)]
pub struct KeyRequest {
    root_key: RootKey,
    fields: KeyFields,
    vmpl: u32,
    guest_svn: u32,
    tcb_version: u64,
    launch_mit_vector: u64,
}

impl View for KeyRequest {
    type V = KeyRequestModel;

    closed spec fn view(&self) -> KeyRequestModel {
        KeyRequestModel {
            root_key: self.root_key,
            fields: self.fields@,
            vmpl: self.vmpl,
            guest_svn: self.guest_svn,
            tcb_version: self.tcb_version,
            launch_mit_vector: self.launch_mit_vector,
        }
    }
}

/// The request with nothing bound: VCEK, no fields, VMPL 0, all values zero.
pub open spec fn empty_key_request() -> KeyRequestModel {
    KeyRequestModel {
        root_key: RootKey::Vcek,
        fields: 0,
        vmpl: 0,
        guest_svn: 0,
        tcb_version: 0,
        launch_mit_vector: 0,
    }
}

/// The 40 bytes of `struct snp_derived_key_req` a request serialises to:
/// root key selector, a reserved word, the field selection, VMPL, guest SVN,
/// TCB version and launch mitigation vector, all little-endian.
pub open spec fn key_request_wire(m: KeyRequestModel) -> Seq<u8> {
    le_bytes_u32(root_key_raw(m.root_key)) + seq![0u8, 0u8, 0u8, 0u8] + le_bytes_u64(m.fields)
        + le_bytes_u32(m.vmpl) + le_bytes_u32(m.guest_svn) + le_bytes_u64(m.tcb_version)
        + le_bytes_u64(m.launch_mit_vector)
}

impl core::default::Default for KeyRequest {
    fn default() -> (r: Self)
        ensures
            r@ == empty_key_request(),
    {
        Self::new()
    }
}

impl KeyRequest {
    /// Highest VMPL the SEV-SNP architecture defines.
    pub const MAX_VMPL: u32 = 3;

    /// A request deriving from the chip-unique VCEK with nothing mixed in.
    pub fn new() -> (r: Self)
        ensures
            r@ == empty_key_request(),
    {
        Self {
            root_key: RootKey::Vcek,
            fields: KeyFields::none(),
            vmpl: 0,
            guest_svn: 0,
            tcb_version: 0,
            launch_mit_vector: 0,
        }
    }

    /// Selects the root secret. Defaults to [`RootKey::Vcek`].
    pub fn root_key(self, root: RootKey) -> (r: Self)
        ensures
            r@ == (KeyRequestModel { root_key: root, ..self@ }),
    {
        let mut s = self;
        s.root_key = root;
        s
    }

    /// Sets the VMPL mixed into the key. Defaults to 0.
    ///
    /// Must be at or below the caller's own privilege level; a guest running at
    /// VMPL 2 cannot derive the key a VMPL 0 component would get. Values above
    /// [`Self::MAX_VMPL`] are rejected when the request is issued.
    pub fn vmpl(self, vmpl: u32) -> (r: Self)
        ensures
            r@ == (KeyRequestModel { vmpl, ..self@ }),
    {
        let mut s = self;
        s.vmpl = vmpl;
        s
    }

    /// Binds the key to the guest launch policy.
    pub fn bind_guest_policy(self) -> (r: Self)
        ensures
            r@ == (KeyRequestModel { fields: with_bit(self@.fields, 0), ..self@ }),
    {
        let mut s = self;
        s.fields = s.fields.with(0);
        s
    }

    /// Binds the key to the guest image ID from the ID block.
    pub fn bind_image_id(self) -> (r: Self)
        ensures
            r@ == (KeyRequestModel { fields: with_bit(self@.fields, 1), ..self@ }),
    {
        let mut s = self;
        s.fields = s.fields.with(1);
        s
    }

    /// Binds the key to the guest family ID from the ID block.
    pub fn bind_family_id(self) -> (r: Self)
        ensures
            r@ == (KeyRequestModel { fields: with_bit(self@.fields, 2), ..self@ }),
    {
        let mut s = self;
        s.fields = s.fields.with(2);
        s
    }

    /// Binds the key to the SHA-384 launch measurement of the guest image.
    ///
    /// The single most useful binding: the key changes if anything in the
    /// initial memory image changes.
    pub fn bind_measurement(self) -> (r: Self)
        ensures
            r@ == (KeyRequestModel { fields: with_bit(self@.fields, 3), ..self@ }),
    {
        let mut s = self;
        s.fields = s.fields.with(3);
        s
    }

    /// Binds the key to a guest security version number.
    ///
    /// Must not exceed the SVN in the ID block the guest launched with, which
    /// is how it works as an anti-rollback ratchet.
    pub fn bind_guest_svn(self, svn: u32) -> (r: Self)
        ensures
            r@ == (KeyRequestModel {
                fields: with_bit(self@.fields, 4),
                guest_svn: svn,
                ..self@
            }),
    {
        let mut s = self;
        s.fields = s.fields.with(4);
        s.guest_svn = svn;
        s
    }

    /// Binds the key to a platform TCB version.
    ///
    /// Must not exceed [`AttestationReport::committed_tcb`](crate::AttestationReport::committed_tcb).
    /// Passing [`AttestationReport::reported_tcb`](crate::AttestationReport::reported_tcb)
    /// makes the key invalid after any firmware downgrade.
    pub fn bind_tcb(self, tcb: TcbVersion) -> (r: Self)
        ensures
            r@ == (KeyRequestModel {
                fields: with_bit(self@.fields, 5),
                tcb_version: tcb@,
                ..self@
            }),
    {
        let mut s = self;
        s.fields = s.fields.with(5);
        s.tcb_version = tcb.raw();
        s
    }

    /// Binds the key to the launch mitigation vector.
    ///
    /// Requires SEV-SNP firmware 1.58 or later, and a kernel whose
    /// `snp_derived_key_req` includes the field. On an older kernel the value
    /// is dropped before it reaches the firmware and a key derived against a
    /// zero vector comes back instead — with no error. Use
    /// [`AttestationReport::launch_mit_vector`](crate::AttestationReport::launch_mit_vector)
    /// to confirm the platform reports one at all before relying on this.
    pub fn bind_launch_mit_vector(self, vector: u64) -> (r: Self)
        ensures
            r@ == (KeyRequestModel {
                fields: with_bit(self@.fields, 6),
                launch_mit_vector: vector,
                ..self@
            }),
    {
        let mut s = self;
        s.fields = s.fields.with(6);
        s.launch_mit_vector = vector;
        s
    }

    /// The fields this request binds.
    pub fn fields(&self) -> (r: KeyFields)
        ensures
            r@ == self@.fields,
    {
        self.fields
    }

    /// The root secret this request derives from.
    pub fn selected_root_key(&self) -> (r: RootKey)
        ensures
            r == self@.root_key,
    {
        self.root_key
    }

    /// Checks the request before it is issued: a VMPL above
    /// [`Self::MAX_VMPL`] never reaches the firmware.
    pub fn validate(&self) -> (r: Result<()>)
        ensures
            r is Ok <==> self@.vmpl <= Self::MAX_VMPL,
            r is Err ==> r == Err::<(), Error>(Error::InvalidArgument("vmpl must be 0..=3")),
    {
        if self.vmpl > Self::MAX_VMPL {
            return Err(Error::InvalidArgument("vmpl must be 0..=3"));
        }
        Ok(())
    }

    /// Serialises to the layout the kernel's `snp_derived_key_req` expects.
    ///
    /// 40 bytes are produced: the 32 the first ABI revision defined, plus the
    /// mitigation vector appended in firmware 1.58. Kernels predating that
    /// field copy only the first 32 bytes and ignore the rest.
    pub fn to_wire(self) -> (r: [u8; 40])
        ensures
            r@ == key_request_wire(self@),
    {
        // Field order per `struct snp_derived_key_req`, with the reserved word
        // after the root key selector.
        let mut out = [0u8; 40];
        write_u32(&mut out, 0, self.root_key.as_raw());
        write_u64(&mut out, 8, self.fields.raw());
        write_u32(&mut out, 16, self.vmpl);
        write_u32(&mut out, 20, self.guest_svn);
        write_u64(&mut out, 24, self.tcb_version);
        write_u64(&mut out, 32, self.launch_mit_vector);
        assert(out@ =~= key_request_wire(self@));
        out
    }
}

/// Reading the serialised request back field by field gives the request:
/// what the firmware receives is exactly what was asked for.
pub proof fn lemma_key_request_wire_round_trip(m: KeyRequestModel)
    ensures
        key_request_wire(m).len() == 40,
        le_u32(key_request_wire(m).subrange(0, 4)) == root_key_raw(m.root_key),
        le_u32(key_request_wire(m).subrange(4, 8)) == 0,
        le_u64(key_request_wire(m).subrange(8, 16)) == m.fields,
        le_u32(key_request_wire(m).subrange(16, 20)) == m.vmpl,
        le_u32(key_request_wire(m).subrange(20, 24)) == m.guest_svn,
        le_u64(key_request_wire(m).subrange(24, 32)) == m.tcb_version,
        le_u64(key_request_wire(m).subrange(32, 40)) == m.launch_mit_vector,
{
    let w = key_request_wire(m);
    lemma_le_u32_of_bytes(root_key_raw(m.root_key));
    lemma_le_u64_of_bytes(m.fields);
    lemma_le_u32_of_bytes(m.vmpl);
    lemma_le_u32_of_bytes(m.guest_svn);
    lemma_le_u64_of_bytes(m.tcb_version);
    lemma_le_u64_of_bytes(m.launch_mit_vector);
    lemma_le_u64_of_bytes(0);
    assert(w.subrange(0, 4) =~= le_bytes_u32(root_key_raw(m.root_key)));
    assert(w.subrange(4, 8) =~= seq![0u8, 0u8, 0u8, 0u8]);
    assert(w.subrange(8, 16) =~= le_bytes_u64(m.fields));
    assert(w.subrange(16, 20) =~= le_bytes_u32(m.vmpl));
    assert(w.subrange(20, 24) =~= le_bytes_u32(m.guest_svn));
    assert(w.subrange(24, 32) =~= le_bytes_u64(m.tcb_version));
    assert(w.subrange(32, 40) =~= le_bytes_u64(m.launch_mit_vector));
}

/// A buffer holding 32 bytes of key material, wiped when dropped.
///
/// The bytes live in a `zeroize::Zeroizing<[u8; 32]>`, whose `Drop` zeroizes
/// them; Verus sees the buffer only through [`held_bytes`] and the three
/// functions below.
#[verifier::external_body]
pub struct KeyBuffer {
    bytes: Zeroizing<[u8; 32]>,
}

/// The bytes a key buffer currently holds.
pub uninterp spec fn held_bytes(z: KeyBuffer) -> Seq<u8>;

/// Moves key bytes into a buffer that wipes itself on drop.
///
/// Trusted: `Zeroizing::new` stores the value it is given unchanged.
#[verifier::external_body]
fn protect(bytes: [u8; 32]) -> (z: KeyBuffer)
    ensures
        held_bytes(z) == bytes@,
{
    KeyBuffer { bytes: Zeroizing::new(bytes) }
}

/// Borrows the bytes inside a wiping buffer.
///
/// Trusted: `Zeroizing`'s `Deref` hands out the stored value.
#[verifier::external_body]
fn held(z: &KeyBuffer) -> (r: &[u8; 32])
    ensures
        r@ == held_bytes(*z),
{
    &*z.bytes
}

/// Wipes a key buffer in place.
///
/// Trusted: `Zeroize::zeroize` on `Zeroizing<[u8; 32]>` zeroizes the inner
/// array, which writes `u8::default()`, zero, to every element.
#[verifier::external_body]
fn wipe_held(z: &mut KeyBuffer)
    ensures
        held_bytes(*final(z)) == Seq::new(32, |i: int| 0u8),
{
    z.bytes.zeroize()
}

/// Wipes a byte buffer in place.
///
/// Trusted: `Zeroize::zeroize` on a `[u8]` slice writes zero to every byte.
#[verifier::external_body]
pub(crate) fn wipe_bytes(buf: &mut [u8; 64])
    ensures
        final(buf)@ == Seq::new(64, |i: int| 0u8),
{
    zeroize::Zeroize::zeroize(&mut buf[..])
}

/// A 32-byte key derived by the secure processor.
///
/// The bytes are wiped when this value is dropped, and neither `Debug` nor any
/// other formatting impl reveals them. Copy them out with
/// [`as_bytes`](Self::as_bytes) only for as long as you need them.
pub struct DerivedKey(KeyBuffer);

/// The key bytes live in a `Zeroizing` buffer, whose `Drop` wipes them, so a
/// `DerivedKey` is wiped whenever it is dropped.
impl zeroize::ZeroizeOnDrop for DerivedKey {}

impl core::fmt::Debug for DerivedKey {
    /// Writes `DerivedKey(<redacted>)`: the key material never reaches a
    /// formatter.
    ///
    /// Trusted: the body is one call of `Formatter::write_str` with that fixed
    /// text; nothing is stated of the `fmt::Result` it passes back.
    #[verifier::external_body]
    fn fmt(&self, f: &mut core::fmt::Formatter<'_>) -> core::fmt::Result {
        f.write_str("DerivedKey(<redacted>)")
    }
}

impl Clone for DerivedKey {
    /// A second wiping buffer holding the same key.
    fn clone(&self) -> (r: Self)
        ensures
            r@ == self@,
    {
        let bytes: [u8; 32] = *held(&self.0);
        Self(protect(bytes))
    }
}

impl View for DerivedKey {
    type V = Seq<u8>;

    closed spec fn view(&self) -> Seq<u8> {
        held_bytes(self.0)
    }
}

impl DerivedKey {
    /// Length of a derived key in bytes.
    pub const LEN: usize = 32;

    /// Takes ownership of key material.
    pub fn from_bytes(bytes: [u8; 32]) -> (r: Self)
        ensures
            r@ == bytes@,
    {
        Self(protect(bytes))
    }

    /// The key material.
    pub fn as_bytes(&self) -> (r: &[u8; 32])
        ensures
            r@ == self@,
    {
        held(&self.0)
    }

    /// Wipes the key immediately rather than waiting for the drop.
    pub fn zeroize_now(&mut self)
        ensures
            final(self)@ == Seq::new(32, |i: int| 0u8),
    {
        wipe_held(&mut self.0);
    }
}

} // verus!
