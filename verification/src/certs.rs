//! The certificate table returned alongside an extended attestation report.
//!
//! When the host has provisioned an endorsement chain, the guest can fetch it
//! with the report in one call. The blob is a table of 24-byte entries — a GUID
//! plus an offset and length — terminated by an all-zero entry, followed by the
//! certificate bodies themselves.
//!
//! Many hosts provision nothing, in which case the blob is empty and the chain
//! has to come from AMD's Key Distribution Service instead. That is a network
//! operation, so this crate does not do it for you; [`Certificate::kind`] and
//! [`crate::Product::kds_name`] give you what a KDS query needs.

use crate::bytes::{le_u32, lemma_le_u32_bound};
use crate::error::{Error, ParseError, Result};
use crate::report::AttestationReport;
use vstd::prelude::*;
use vstd::slice::{slice_subrange, slice_to_vec};

verus! {

/// Size of one certificate table entry.
pub const ENTRY_SIZE: usize = 24;

/// Which certificate in the endorsement chain an entry holds.
#[derive(Debug, Clone, Copy, PartialEq, Eq, Hash, Structural)]
#[non_exhaustive]
pub enum CertKind {
    /// Versioned Chip Endorsement Key, leaf for chip-unique signing.
    Vcek,
    /// Versioned Loaded Endorsement Key, leaf for provider-provisioned signing.
    Vlek,
    /// AMD SEV Signing Key, intermediate above the VCEK.
    Ask,
    /// AMD Root Key.
    Ark,
    /// AMD SEV VLEK signing key, intermediate above the VLEK.
    Asvk,
    /// Extra host-supplied platform information, not a certificate.
    ExtraPlatformInfo,
    /// A GUID this crate does not recognise.
    Unknown,
}

// GUIDs defined by the GHCB specification for `MSG_REPORT_REQ`, in RFC 4122
// binary order, which is what the GHCB uses.
/// `63da758d-e664-4564-adc5-f4b93be8accd`.
pub const VCEK_GUID: [u8; 16] = [
    0x63, 0xda, 0x75, 0x8d, 0xe6, 0x64, 0x45, 0x64, 0xad, 0xc5, 0xf4, 0xb9, 0x3b, 0xe8, 0xac, 0xcd,
];

/// `a8074bc2-a25a-483e-aae6-39c045a0b8a1`.
pub const VLEK_GUID: [u8; 16] = [
    0xa8, 0x07, 0x4b, 0xc2, 0xa2, 0x5a, 0x48, 0x3e, 0xaa, 0xe6, 0x39, 0xc0, 0x45, 0xa0, 0xb8, 0xa1,
];

/// `4ab7b379-bbac-4fe4-a02f-05aef327c782`.
pub const ASK_GUID: [u8; 16] = [
    0x4a, 0xb7, 0xb3, 0x79, 0xbb, 0xac, 0x4f, 0xe4, 0xa0, 0x2f, 0x05, 0xae, 0xf3, 0x27, 0xc7, 0x82,
];

/// `c0b406a4-a803-4952-9743-3fb6014cd0ae`.
pub const ARK_GUID: [u8; 16] = [
    0xc0, 0xb4, 0x06, 0xa4, 0xa8, 0x03, 0x49, 0x52, 0x97, 0x43, 0x3f, 0xb6, 0x01, 0x4c, 0xd0, 0xae,
];

/// `00000000-0000-0000-0000-000000000000`.
pub const ASVK_GUID: [u8; 16] = [
    0x00, 0x00, 0x00, 0x00, 0x00, 0x00, 0x00, 0x00, 0x00, 0x00, 0x00, 0x00, 0x00, 0x00, 0x00, 0x00,
];

/// `ecae0c0f-9502-43b1-afa2-0ae2e0d565b6`.
pub const EXTRA_PLATFORM_INFO_GUID: [u8; 16] = [
    0xec, 0xae, 0x0c, 0x0f, 0x95, 0x02, 0x43, 0xb1, 0xaf, 0xa2, 0x0a, 0xe2, 0xe0, 0xd5, 0x65, 0xb6,
];

/// The kind a GUID names; the first of the GHCB's GUIDs it equals, or
/// `Unknown`.
pub open spec fn kind_of_guid(guid: Seq<u8>) -> CertKind {
    if guid == VCEK_GUID@ {
        CertKind::Vcek
    } else if guid == VLEK_GUID@ {
        CertKind::Vlek
    } else if guid == ASK_GUID@ {
        CertKind::Ask
    } else if guid == ARK_GUID@ {
        CertKind::Ark
    } else if guid == ASVK_GUID@ {
        CertKind::Asvk
    } else if guid == EXTRA_PLATFORM_INFO_GUID@ {
        CertKind::ExtraPlatformInfo
    } else {
        CertKind::Unknown
    }
}

/// Which kind each GUID names, with the GUIDs the GHCB specification gives
/// written out in RFC 4122 binary order: each of the six names exactly its
/// own kind, so no two of them name the same kind, and every other GUID is
/// `Unknown`.
pub proof fn lemma_guid_kinds(g: Seq<u8>)
    ensures
        // 63da758d-e664-4564-adc5-f4b93be8accd
        kind_of_guid(g) == CertKind::Vcek <==> g == seq![
            0x63u8, 0xda, 0x75, 0x8d, 0xe6, 0x64, 0x45, 0x64, 0xad, 0xc5, 0xf4, 0xb9, 0x3b, 0xe8,
            0xac, 0xcd,
        ],
        // a8074bc2-a25a-483e-aae6-39c045a0b8a1
        kind_of_guid(g) == CertKind::Vlek <==> g == seq![
            0xa8u8, 0x07, 0x4b, 0xc2, 0xa2, 0x5a, 0x48, 0x3e, 0xaa, 0xe6, 0x39, 0xc0, 0x45, 0xa0,
            0xb8, 0xa1,
        ],
        // 4ab7b379-bbac-4fe4-a02f-05aef327c782
        kind_of_guid(g) == CertKind::Ask <==> g == seq![
            0x4au8, 0xb7, 0xb3, 0x79, 0xbb, 0xac, 0x4f, 0xe4, 0xa0, 0x2f, 0x05, 0xae, 0xf3, 0x27,
            0xc7, 0x82,
        ],
        // c0b406a4-a803-4952-9743-3fb6014cd0ae
        kind_of_guid(g) == CertKind::Ark <==> g == seq![
            0xc0u8, 0xb4, 0x06, 0xa4, 0xa8, 0x03, 0x49, 0x52, 0x97, 0x43, 0x3f, 0xb6, 0x01, 0x4c,
            0xd0, 0xae,
        ],
        // 00000000-0000-0000-0000-000000000000
        kind_of_guid(g) == CertKind::Asvk <==> g == Seq::new(16, |i: int| 0u8),
        // ecae0c0f-9502-43b1-afa2-0ae2e0d565b6
        kind_of_guid(g) == CertKind::ExtraPlatformInfo <==> g == seq![
            0xecu8, 0xae, 0x0c, 0x0f, 0x95, 0x02, 0x43, 0xb1, 0xaf, 0xa2, 0x0a, 0xe2, 0xe0, 0xd5,
            0x65, 0xb6,
        ],
{
    assert(VCEK_GUID@ =~= seq![
        0x63u8, 0xda, 0x75, 0x8d, 0xe6, 0x64, 0x45, 0x64, 0xad, 0xc5, 0xf4, 0xb9, 0x3b, 0xe8, 0xac,
        0xcd,
    ]);
    assert(VLEK_GUID@ =~= seq![
        0xa8u8, 0x07, 0x4b, 0xc2, 0xa2, 0x5a, 0x48, 0x3e, 0xaa, 0xe6, 0x39, 0xc0, 0x45, 0xa0, 0xb8,
        0xa1,
    ]);
    assert(ASK_GUID@ =~= seq![
        0x4au8, 0xb7, 0xb3, 0x79, 0xbb, 0xac, 0x4f, 0xe4, 0xa0, 0x2f, 0x05, 0xae, 0xf3, 0x27, 0xc7,
        0x82,
    ]);
    assert(ARK_GUID@ =~= seq![
        0xc0u8, 0xb4, 0x06, 0xa4, 0xa8, 0x03, 0x49, 0x52, 0x97, 0x43, 0x3f, 0xb6, 0x01, 0x4c, 0xd0,
        0xae,
    ]);
    assert(ASVK_GUID@ =~= Seq::new(16, |i: int| 0u8));
    assert(EXTRA_PLATFORM_INFO_GUID@ =~= seq![
        0xecu8, 0xae, 0x0c, 0x0f, 0x95, 0x02, 0x43, 0xb1, 0xaf, 0xa2, 0x0a, 0xe2, 0xe0, 0xd5, 0x65,
        0xb6,
    ]);
    // The six GUIDs differ in their first byte.
    assert(VCEK_GUID@[0] == 0x63 && VLEK_GUID@[0] == 0xa8 && ASK_GUID@[0] == 0x4a && ARK_GUID@[0]
        == 0xc0 && ASVK_GUID@[0] == 0 && EXTRA_PLATFORM_INFO_GUID@[0] == 0xec);
}

fn guid_eq(a: &[u8; 16], b: &[u8; 16]) -> (r: bool)
    ensures
        r == (a@ == b@),
{
    crate::bytes::bytes_equal(a.as_slice(), b.as_slice())
}

impl CertKind {
    /// The kind of certificate a GUID names.
    pub fn from_guid(guid: &[u8; 16]) -> (r: Self)
        ensures
            r == kind_of_guid(guid@),
    {
        if guid_eq(guid, &VCEK_GUID) {
            Self::Vcek
        } else if guid_eq(guid, &VLEK_GUID) {
            Self::Vlek
        } else if guid_eq(guid, &ASK_GUID) {
            Self::Ask
        } else if guid_eq(guid, &ARK_GUID) {
            Self::Ark
        } else if guid_eq(guid, &ASVK_GUID) {
            Self::Asvk
        } else if guid_eq(guid, &EXTRA_PLATFORM_INFO_GUID) {
            Self::ExtraPlatformInfo
        } else {
            Self::Unknown
        }
    }
}

/// What a certificate table entry says, as plain values.
pub struct CertEntry {
    /// Which certificate the entry holds.
    pub kind: CertKind,
    /// The entry's GUID.
    pub guid: Seq<u8>,
    /// The certificate body.
    pub data: Seq<u8>,
}

/// One entry from the certificate table.
#[derive(Clone, PartialEq, Eq)]
pub struct Certificate {
    kind: CertKind,
    guid: [u8; 16],
    data: Vec<u8>,
}

impl core::fmt::Debug for Certificate {
    /// Shows the kind and the body's length, not the body.
    ///
    /// Trusted: the body is one chain of `Formatter::debug_struct` calls;
    /// nothing is stated of the `fmt::Result` it passes back.
    #[verifier::external_body]
    fn fmt(&self, f: &mut core::fmt::Formatter<'_>) -> core::fmt::Result {
        f.debug_struct("Certificate").field("kind", &self.kind).field("len", &self.data.len()).finish()
    }
}

impl View for Certificate {
    type V = CertEntry;

    closed spec fn view(&self) -> CertEntry {
        CertEntry { kind: self.kind, guid: self.guid@, data: self.data@ }
    }
}

impl Certificate {
    /// Which certificate this is.
    pub fn kind(&self) -> (r: CertKind)
        ensures
            r == self@.kind,
    {
        self.kind
    }

    /// The raw GUID, useful when [`kind`](Self::kind) is [`CertKind::Unknown`].
    pub fn guid(&self) -> (r: &[u8; 16])
        ensures
            r@ == self@.guid,
    {
        &self.guid
    }

    /// The certificate body, DER-encoded X.509 for every AMD-defined kind
    /// except [`CertKind::ExtraPlatformInfo`].
    pub fn data(&self) -> (r: &[u8])
        ensures
            r@ == self@.data,
    {
        self.data.as_slice()
    }
}

/// The views of a run of certificates.
pub open spec fn entries_of(certs: Seq<Certificate>) -> Seq<CertEntry> {
    certs.map_values(|c: Certificate| c@)
}

/// The GUID of table entry `i`: its first 16 bytes.
pub open spec fn entry_guid(blob: Seq<u8>, i: int) -> Seq<u8> {
    blob.subrange(24 * i, 24 * i + 16)
}

/// Where the body of table entry `i` starts in the blob.
pub open spec fn entry_offset(blob: Seq<u8>, i: int) -> int {
    le_u32(blob.subrange(24 * i + 16, 24 * i + 20))
}

/// How long the body of table entry `i` is.
pub open spec fn entry_length(blob: Seq<u8>, i: int) -> int {
    le_u32(blob.subrange(24 * i + 20, 24 * i + 24))
}

/// Whether table entry `i` is the all-zero entry that ends the table.
pub open spec fn is_terminator(blob: Seq<u8>, i: int) -> bool {
    &&& entry_guid(blob, i) == Seq::new(16, |k: int| 0u8)
    &&& entry_offset(blob, i) == 0
    &&& entry_length(blob, i) == 0
}

/// The certificate that table entry `i` describes.
pub open spec fn entry_at(blob: Seq<u8>, i: int) -> CertEntry {
    CertEntry {
        kind: kind_of_guid(entry_guid(blob, i)),
        guid: entry_guid(blob, i),
        data: blob.subrange(entry_offset(blob, i), entry_offset(blob, i) + entry_length(blob, i)),
    }
}

/// The certificates described from table entry `i` on: the entries up to the
/// terminator, in order, each with the body its offset and length delimit.
/// An entry that does not fit in the blob before a terminator is found is
/// `TooShort`; a body that does not lie inside the blob is
/// `CertTableOutOfBounds`; the first failing entry decides.
pub open spec fn table_from(blob: Seq<u8>, i: nat) -> core::result::Result<
    Seq<CertEntry>,
    ParseError,
>
    decreases blob.len() - 24 * i,
{
    if 24 * i + 24 > blob.len() {
        Err(
            ParseError::TooShort {
                what: "certificate table entry",
                need: (24 * i + 24) as usize,
                got: blob.len() as usize,
            },
        )
    } else if is_terminator(blob, i as int) {
        Ok(Seq::empty())
    } else if entry_offset(blob, i as int) + entry_length(blob, i as int) > blob.len() {
        Err(ParseError::CertTableOutOfBounds)
    } else {
        match table_from(blob, i + 1) {
            Ok(rest) => Ok(seq![entry_at(blob, i as int)] + rest),
            Err(e) => Err(e),
        }
    }
}

/// The certificate table a blob holds. An empty blob is an empty table; a
/// blob larger than [`CertTable::MAX_LEN`] is refused before anything in it
/// is decoded.
pub open spec fn cert_table_of(blob: Seq<u8>) -> core::result::Result<
    Seq<CertEntry>,
    ParseError,
> {
    if blob.len() == 0 {
        Ok(Seq::empty())
    } else if blob.len() > CertTable::MAX_LEN {
        Err(ParseError::CertTableTooLarge(blob.len() as usize))
    } else {
        table_from(blob, 0)
    }
}

/// `prefix` followed by what `rest` holds, or `rest`'s error.
pub open spec fn prepend_entries(
    prefix: Seq<CertEntry>,
    rest: core::result::Result<Seq<CertEntry>, ParseError>,
) -> core::result::Result<Seq<CertEntry>, ParseError> {
    match rest {
        Ok(s) => Ok(prefix + s),
        Err(e) => Err(e),
    }
}

/// The endorsement chain accompanying an extended report.
#[derive(Debug, Clone, PartialEq, Eq)]
pub struct CertTable(Vec<Certificate>);

impl View for CertTable {
    type V = Seq<CertEntry>;

    closed spec fn view(&self) -> Seq<CertEntry> {
        entries_of(self.0@)
    }
}

impl core::default::Default for CertTable {
    fn default() -> (r: Self)
        ensures
            r@ == Seq::<CertEntry>::empty(),
    {
        let r = CertTable(Vec::new());
        assert(r@ =~= Seq::<CertEntry>::empty());
        r
    }
}

impl CertTable {
    /// The largest certificate blob accepted: what the kernel allows a host to
    /// hand a guest.
    pub const MAX_LEN: usize = 0x4000;

    /// Parses a certificate table blob.
    ///
    /// An empty blob yields an empty table rather than an error: hosts are not
    /// required to provision certificates. A blob longer than
    /// [`Self::MAX_LEN`] is refused before any of it is decoded.
    pub fn parse(blob: &[u8]) -> (r: Result<Self>)
        ensures
            match (r, cert_table_of(blob@)) {
                (Ok(t), Ok(s)) => t@ == s,
                (Err(e), Err(pe)) => e == Error::Parse(pe),
                _ => false,
            },
    {
        if blob.len() == 0 {
            return Ok(Self::default());
        }
        if blob.len() > Self::MAX_LEN {
            return Err(Error::Parse(ParseError::CertTableTooLarge(blob.len())));
        }
        let mut certs: Vec<Certificate> = Vec::new();
        let mut cursor: usize = 0;
        let ghost mut i: nat = 0;
        loop
            invariant
                cursor == 24 * i,
                cursor <= blob@.len(),
                0 < blob@.len() <= Self::MAX_LEN,
                table_from(blob@, 0) == prepend_entries(entries_of(certs@), table_from(blob@, i)),
            decreases blob@.len() - cursor,
        {
            proof {
                reveal_with_fuel(table_from, 2);
            }
            if blob.len() - cursor < ENTRY_SIZE {
                assert(24 * i + 24 > blob@.len());
                assert(table_from(blob@, i) == Err::<Seq<CertEntry>, ParseError>(
                    ParseError::TooShort {
                        what: "certificate table entry",
                        need: (cursor + ENTRY_SIZE) as usize,
                        got: blob@.len() as usize,
                    },
                ));
                return Err(
                    Error::Parse(
                        ParseError::TooShort {
                            what: "certificate table entry",
                            need: cursor + ENTRY_SIZE,
                            got: blob.len(),
                        },
                    ),
                );
            }
            let guid = match crate::bytes::bytes_at::<16>(blob, cursor) {
                Some(g) => g,
                None => [0u8; 16],
            };
            let offset = match crate::bytes::u32_at(blob, cursor + 16) {
                Some(v) => v,
                None => 0,
            };
            let length = match crate::bytes::u32_at(blob, cursor + 20) {
                Some(v) => v,
                None => 0,
            };
            let zero = [0u8; 16];
            // An all-zero entry terminates the table.
            if guid_eq(&guid, &zero) && offset == 0 && length == 0 {
                assert(is_terminator(blob@, i as int)) by {
                    assert(zero@ =~= Seq::new(16, |k: int| 0u8));
                }
                assert(entries_of(certs@) + Seq::<CertEntry>::empty() =~= entries_of(certs@));
                return Ok(Self(certs));
            }
            assert(!is_terminator(blob@, i as int)) by {
                assert(zero@ =~= Seq::new(16, |k: int| 0u8));
            }
            let start = offset as usize;
            if length as usize > blob.len() || start > blob.len() - length as usize {
                return Err(Error::Parse(ParseError::CertTableOutOfBounds));
            }
            let end = start + length as usize;
            let data = slice_to_vec(slice_subrange(blob, start, end));
            let cert = Certificate { kind: CertKind::from_guid(&guid), guid, data };
            assert(cert@ == entry_at(blob@, i as int));
            let ghost before = certs@;
            certs.push(cert);
            proof {
                assert(entries_of(certs@) =~= entries_of(before) + seq![entry_at(blob@, i as int)]);
                match table_from(blob@, i + 1) {
                    Ok(rest) => {
                        assert(entries_of(before) + (seq![entry_at(blob@, i as int)] + rest)
                            =~= entries_of(certs@) + rest);
                    },
                    Err(_) => {},
                }
                i = i + 1;
            }
            cursor = cursor + ENTRY_SIZE;
        }
    }

    /// All entries, in table order.
    pub fn entries(&self) -> (r: &[Certificate])
        ensures
            entries_of(r@) == self@,
    {
        self.0.as_slice()
    }

    /// The first entry of the given kind, if present.
    pub fn get(&self, kind: CertKind) -> (r: Option<&Certificate>)
        ensures
            match r {
                Some(c) => exists|k: int|
                    0 <= k < self@.len() && self@[k] == c@ && c@.kind == kind && forall|j: int|
                        0 <= j < k ==> self@[j].kind != kind,
                None => forall|j: int| 0 <= j < self@.len() ==> self@[j].kind != kind,
            },
    {
        let mut i: usize = 0;
        while i < self.0.len()
            invariant
                i <= self.0@.len(),
                self@ == entries_of(self.0@),
                forall|j: int| 0 <= j < i ==> self@[j].kind != kind,
            decreases self.0@.len() - i,
        {
            if self.0[i].kind == kind {
                assert(self@[i as int] == self.0@[i as int]@);
                return Some(&self.0[i]);
            }
            i = i + 1;
        }
        None
    }

    /// Whether the table is empty, which means the host provisioned nothing.
    pub fn is_empty(&self) -> (r: bool)
        ensures
            r == (self@.len() == 0),
    {
        self.0.len() == 0
    }

    /// The number of entries.
    pub fn len(&self) -> (r: usize)
        ensures
            r == self@.len(),
    {
        self.0.len()
    }
}

/// Every table a blob successfully parses to has room for one more entry (the
/// terminator) after its certificates, so a blob of `n` bytes yields fewer
/// than `n / 24` certificates: the entry count is bounded by the blob's size,
/// which [`CertTable::MAX_LEN`] bounds in turn.
pub proof fn lemma_cert_table_entry_bound(blob: Seq<u8>)
    ensures
        cert_table_of(blob) matches Ok(s) ==> blob.len() == 0 || 24 * (s.len() + 1) <= blob.len(),
        cert_table_of(blob) matches Ok(s) ==> s.len() <= CertTable::MAX_LEN / 24,
{
    if blob.len() > 0 && blob.len() <= CertTable::MAX_LEN {
        lemma_table_from_bound(blob, 0);
    }
}

proof fn lemma_table_from_bound(blob: Seq<u8>, i: nat)
    ensures
        table_from(blob, i) matches Ok(s) ==> 24 * (i + s.len() + 1) <= blob.len(),
    decreases blob.len() - 24 * i,
{
    if 24 * i + 24 <= blob.len() && !is_terminator(blob, i as int) {
        lemma_table_from_bound(blob, i + 1);
    }
}

/// Whether `d` is a contiguous piece of `blob`.
pub open spec fn is_piece_of(d: Seq<u8>, blob: Seq<u8>) -> bool {
    exists|off: int|
        0 <= off && off + d.len() <= blob.len() && d == #[trigger] blob.subrange(off, off + d.len())
}

/// Every certificate a table holds is a piece of the blob it came from: an
/// offset or length pointing past the end of the blob is never read.
pub proof fn lemma_cert_bodies_inside_blob(blob: Seq<u8>)
    ensures
        cert_table_of(blob) matches Ok(s) ==> forall|k: int|
            0 <= k < s.len() ==> is_piece_of(#[trigger] s[k].data, blob),
{
    if blob.len() > 0 && blob.len() <= CertTable::MAX_LEN {
        lemma_table_from_inside(blob, 0);
    }
}

proof fn lemma_table_from_inside(blob: Seq<u8>, i: nat)
    ensures
        table_from(blob, i) matches Ok(s) ==> forall|k: int|
            0 <= k < s.len() ==> is_piece_of(#[trigger] s[k].data, blob),
    decreases blob.len() - 24 * i,
{
    if 24 * i + 24 <= blob.len() && !is_terminator(blob, i as int) && entry_offset(blob, i as int)
        + entry_length(blob, i as int) <= blob.len() {
        lemma_table_from_inside(blob, i + 1);
        if let Ok(s) = table_from(blob, i) {
            let rest = table_from(blob, i + 1)->Ok_0;
            assert(s == seq![entry_at(blob, i as int)] + rest);
            lemma_le_u32_bound(blob.subrange(24 * i + 16 as int, 24 * i + 20 as int));
            lemma_le_u32_bound(blob.subrange(24 * i + 20 as int, 24 * i + 24 as int));
            assert forall|k: int| 0 <= k < s.len() implies is_piece_of(#[trigger] s[k].data, blob) by {
                if k == 0 {
                    let off = entry_offset(blob, i as int);
                    assert(s[k].data == blob.subrange(off, off + s[k].data.len()));
                } else {
                    assert(s[k] == rest[k - 1]);
                }
            }
        }
    }
}

/// An attestation report together with the endorsement chain that verifies it.
#[derive(Debug, Clone)]
pub struct ExtendedReport {
    /// The attestation report.
    pub report: AttestationReport,
    /// The certificate chain the host provisioned, possibly empty.
    pub certificates: CertTable,
}

} // verus!
