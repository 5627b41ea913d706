//! The configfs-TSM transport: what it decides.
//!
//! Present from Linux 6.7 as a generic interface shared by SEV-SNP, TDX and
//! others. A request is a directory: write the nonce to `inblob`, read the
//! signed report back from `outblob`, and read the certificate chain from
//! `auxblob`.
//!
//! Its advantage over the ioctl device is the `generation` counter. configfs
//! entries are ordinary filesystem objects, so a second process can write to
//! the same one between our write and our read, and we would return a report
//! bound to somebody else's nonce. `generation` counts writes, so a value that
//! does not match what we performed means exactly that happened — and the
//! response is discarded as [`Error::Raced`] rather than returned.
//!
//! This module holds the rules: how many writes a request performs, how an
//! attribute's text reads as a number, whether the generation read back
//! matches, and how the blobs become a report. The directory and file
//! operations are the caller's.

use super::{answers, ReportRequest};
use crate::certs::{cert_table_of, CertTable, ExtendedReport};
use crate::error::{Error, ParseError, Result};
use crate::report::{is_acceptable_report, report_parse_error, AttestationReport};
use vstd::prelude::*;

verus! {

/// The provider name configfs-TSM reports for SEV-SNP: `sev_guest` in ASCII.
pub open spec fn sev_guest_provider() -> Seq<u8> {
    seq![0x73u8, 0x65u8, 0x76u8, 0x5fu8, 0x67u8, 0x75u8, 0x65u8, 0x73u8, 0x74u8]
}

/// Whether a byte is one of the one-byte white-space characters: tab, line
/// feed, vertical tab, form feed, carriage return or space.
pub open spec fn is_space(b: u8) -> bool {
    b == 0x09 || b == 0x0A || b == 0x0B || b == 0x0C || b == 0x0D || b == 0x20
}

/// Whether two bytes are the UTF-8 encoding of a two-byte white-space
/// character: U+0085 or U+00A0.
pub open spec fn is_space2(a: u8, b: u8) -> bool {
    a == 0xC2 && (b == 0x85 || b == 0xA0)
}

/// Whether three bytes are the UTF-8 encoding of a three-byte white-space
/// character: U+1680, U+2000 to U+200A, U+2028, U+2029, U+202F, U+205F or
/// U+3000.
pub open spec fn is_space3(a: u8, b: u8, c: u8) -> bool {
    ||| a == 0xE1 && b == 0x9A && c == 0x80
    ||| a == 0xE2 && b == 0x80 && ((0x80 <= c && c <= 0x8A) || c == 0xA8 || c == 0xA9 || c == 0xAF)
    ||| a == 0xE2 && b == 0x81 && c == 0x9F
    ||| a == 0xE3 && b == 0x80 && c == 0x80
}

/// The length in bytes of the white-space character `s` starts with, or 0.
/// Together these are the characters `char::is_whitespace` accepts, the ones
/// `str::trim` removes.
pub open spec fn leading_space_len(s: Seq<u8>) -> int {
    if s.len() >= 1 && is_space(s[0]) {
        1
    } else if s.len() >= 2 && is_space2(s[0], s[1]) {
        2
    } else if s.len() >= 3 && is_space3(s[0], s[1], s[2]) {
        3
    } else {
        0
    }
}

/// The length in bytes of the white-space character `s` ends with, or 0.
pub open spec fn trailing_space_len(s: Seq<u8>) -> int {
    let n = s.len() as int;
    if n >= 1 && is_space(s[n - 1]) {
        1
    } else if n >= 2 && is_space2(s[n - 2], s[n - 1]) {
        2
    } else if n >= 3 && is_space3(s[n - 3], s[n - 2], s[n - 1]) {
        3
    } else {
        0
    }
}

/// Whether a byte is an ASCII decimal digit.
pub open spec fn is_digit(b: u8) -> bool {
    0x30 <= b <= 0x39
}

/// `s` without leading whitespace.
pub open spec fn trim_start(s: Seq<u8>) -> Seq<u8>
    decreases s.len(),
{
    let k = leading_space_len(s);
    if k > 0 {
        trim_start(s.subrange(k, s.len() as int))
    } else {
        s
    }
}

/// `s` without trailing whitespace.
pub open spec fn trim_end(s: Seq<u8>) -> Seq<u8>
    decreases s.len(),
{
    let k = trailing_space_len(s);
    if k > 0 {
        trim_end(s.subrange(0, s.len() - k))
    } else {
        s
    }
}

/// The number a string of decimal digits spells, most significant first.
pub open spec fn decimal_value(d: Seq<u8>) -> int
    decreases d.len(),
{
    if d.len() == 0 {
        0
    } else {
        10 * decimal_value(d.drop_last()) + (d.last() - 0x30)
    }
}

/// The digits of an unsigned decimal number: after trimming whitespace, an
/// optional `+` sign.
pub open spec fn unsigned_digits(text: Seq<u8>) -> Seq<u8> {
    let t = trim_end(trim_start(text));
    if t.len() > 0 && t[0] == 0x2B {
        t.drop_first()
    } else {
        t
    }
}

/// The value an attribute's text holds as an unsigned decimal number no
/// larger than `max`: surrounding whitespace and a leading `+` are allowed,
/// anything else but at least one digit is not.
pub open spec fn decimal_of(text: Seq<u8>, max: int) -> Option<int> {
    let d = unsigned_digits(text);
    if d.len() > 0 && (forall|k: int| 0 <= k < d.len() ==> is_digit(#[trigger] d[k]))
        && decimal_value(d) <= max {
        Some(decimal_value(d))
    } else {
        None
    }
}

proof fn lemma_decimal_value_prefix(d: Seq<u8>, k: int)
    requires
        0 <= k <= d.len(),
        forall|j: int| 0 <= j < d.len() ==> is_digit(#[trigger] d[j]),
    ensures
        0 <= decimal_value(d.subrange(0, k)) <= decimal_value(d),
    decreases d.len(),
{
    if d.len() > 0 {
        if k == d.len() {
            assert(d.subrange(0, k) =~= d);
            lemma_decimal_value_prefix(d.drop_last(), k - 1);
            assert(d.drop_last().subrange(0, k - 1) =~= d.drop_last());
        } else {
            lemma_decimal_value_prefix(d.drop_last(), k);
            assert(d.drop_last().subrange(0, k) =~= d.subrange(0, k));
            lemma_decimal_value_prefix(d.drop_last(), d.len() - 1);
            assert(d.drop_last().subrange(0, d.len() - 1) =~= d.drop_last());
        }
    }
}

fn is_space_byte(b: u8) -> (r: bool)
    ensures
        r == is_space(b),
{
    b == 0x09 || b == 0x0A || b == 0x0B || b == 0x0C || b == 0x0D || b == 0x20
}

fn is_space3_bytes(a: u8, b: u8, c: u8) -> (r: bool)
    ensures
        r == is_space3(a, b, c),
{
    (a == 0xE1 && b == 0x9A && c == 0x80) || (a == 0xE2 && b == 0x80 && ((0x80 <= c && c <= 0x8A)
        || c == 0xA8 || c == 0xA9 || c == 0xAF)) || (a == 0xE2 && b == 0x81 && c == 0x9F) || (a
        == 0xE3 && b == 0x80 && c == 0x80)
}

/// The length of the white-space character that starts at `text[i]`, or 0.
fn leading_space_at(text: &[u8], i: usize) -> (r: usize)
    requires
        i <= text@.len(),
    ensures
        r == leading_space_len(text@.subrange(i as int, text@.len() as int)),
{
    let n = text.len();
    if i < n && is_space_byte(text[i]) {
        return 1;
    }
    if n - i >= 2 && text[i] == 0xC2 && (text[i + 1] == 0x85 || text[i + 1] == 0xA0) {
        return 2;
    }
    if n - i >= 3 && is_space3_bytes(text[i], text[i + 1], text[i + 2]) {
        return 3;
    }
    0
}

/// The length of the white-space character that ends at `text[j - 1]`,
/// looking no further back than `start`, or 0.
fn trailing_space_before(text: &[u8], start: usize, j: usize) -> (r: usize)
    requires
        start <= j <= text@.len(),
    ensures
        r == trailing_space_len(text@.subrange(start as int, j as int)),
{
    let n = j - start;
    if n >= 1 && is_space_byte(text[j - 1]) {
        return 1;
    }
    if n >= 2 && text[j - 2] == 0xC2 && (text[j - 1] == 0x85 || text[j - 1] == 0xA0) {
        return 2;
    }
    if n >= 3 && is_space3_bytes(text[j - 3], text[j - 2], text[j - 1]) {
        return 3;
    }
    0
}

/// The index of the first byte of `text` after its leading whitespace.
fn skip_spaces(text: &[u8]) -> (r: usize)
    ensures
        r <= text@.len(),
        trim_start(text@) == text@.subrange(r as int, text@.len() as int),
{
    let n = text.len();
    let mut i: usize = 0;
    assert(text@.subrange(0, n as int) =~= text@);
    let mut k = leading_space_at(text, 0);
    while k > 0
        invariant
            i <= n == text@.len(),
            k == leading_space_len(text@.subrange(i as int, n as int)),
            trim_start(text@) == trim_start(text@.subrange(i as int, n as int)),
        decreases n - i,
    {
        assert(text@.subrange(i as int, n as int).subrange(k as int, n - i) =~= text@.subrange(
            i + k,
            n as int,
        ));
        i = i + k;
        k = leading_space_at(text, i);
    }
    i
}

/// The end of `text[start..]` once trailing whitespace is dropped.
fn end_of_text(text: &[u8], start: usize) -> (r: usize)
    requires
        start <= text@.len(),
    ensures
        start <= r <= text@.len(),
        trim_end(text@.subrange(start as int, text@.len() as int)) == text@.subrange(
            start as int,
            r as int,
        ),
{
    let mut j: usize = text.len();
    let mut k = trailing_space_before(text, start, j);
    while k > 0
        invariant
            start <= j <= text@.len(),
            k == trailing_space_len(text@.subrange(start as int, j as int)),
            trim_end(text@.subrange(start as int, text@.len() as int)) == trim_end(
                text@.subrange(start as int, j as int),
            ),
        decreases j - start,
    {
        assert(text@.subrange(start as int, j as int).subrange(0, j - start - k) =~= text@.subrange(
            start as int,
            j - k,
        ));
        j = j - k;
        k = trailing_space_before(text, start, j);
    }
    j
}

/// Reads an attribute's text as an unsigned decimal number no larger than
/// `u64::MAX`, the way `str::trim` followed by `str::parse::<u64>` does on
/// the UTF-8 text these bytes hold: leading and trailing white-space
/// characters, Unicode ones included, are dropped first.
pub fn parse_decimal(text: &[u8]) -> (r: Option<u64>)
    ensures
        r is None <==> decimal_of(text@, u64::MAX as int) is None,
        r matches Some(g) ==> decimal_of(text@, u64::MAX as int) == Some(g as int),
{
    let start0 = skip_spaces(text);
    let end = end_of_text(text, start0);
    let ghost t = text@.subrange(start0 as int, end as int);
    assert(trim_end(trim_start(text@)) == t);
    let mut start = start0;
    if start < end && text[start] == 0x2B {
        start = start + 1;
    }
    let ghost d = text@.subrange(start as int, end as int);
    assert(unsigned_digits(text@) =~= d);
    if start == end {
        return None;
    }
    let mut acc: u64 = 0;
    let mut k: usize = start;
    while k < end
        invariant
            start <= k <= end <= text@.len(),
            d == text@.subrange(start as int, end as int),
            unsigned_digits(text@) == d,
            d.len() > 0,
            forall|j: int| 0 <= j < k - start ==> is_digit(#[trigger] d[j]),
            acc == decimal_value(d.subrange(0, k - start)),
        decreases end - k,
    {
        let b = text[k];
        if b < 0x30 || b > 0x39 {
            assert(!is_digit(d[k - start]));
            return None;
        }
        assert(d.subrange(0, k + 1 - start).drop_last() =~= d.subrange(0, k - start));
        let digit = (b - 0x30) as u64;
        match acc.checked_mul(10) {
            Some(m) => match m.checked_add(digit) {
                Some(v) => {
                    acc = v;
                },
                None => {
                    proof {
                        lemma_overflow_rejects(d, (k + 1 - start) as int);
                    }
                    return None;
                },
            },
            None => {
                proof {
                    assert(decimal_value(d.subrange(0, k + 1 - start)) >= 10 * acc);
                    lemma_overflow_rejects(d, (k + 1 - start) as int);
                }
                return None;
            },
        }
        k = k + 1;
    }
    assert(d.subrange(0, end - start) =~= d);
    Some(acc)
}

/// Once a prefix of the digits spells more than `u64::MAX`, so does the whole
/// (or a non-digit follows), and the text is refused.
proof fn lemma_overflow_rejects(d: Seq<u8>, k: int)
    requires
        0 <= k <= d.len(),
        decimal_value(d.subrange(0, k)) > u64::MAX,
        forall|j: int| 0 <= j < k ==> is_digit(#[trigger] d[j]),
    ensures
        !(d.len() > 0 && (forall|j: int| 0 <= j < d.len() ==> is_digit(#[trigger] d[j]))
            && decimal_value(d) <= u64::MAX),
{
    if forall|j: int| 0 <= j < d.len() ==> is_digit(#[trigger] d[j]) {
        lemma_decimal_value_prefix(d, k);
    }
}

/// The lowest VMPL this guest may request a report at, from the text of the
/// `privlevel_floor` attribute: its value as a `u32`, or
/// [`Error::InvalidArgument`] when the text is not such a number.
pub fn privlevel_floor_from(text: &[u8]) -> (r: Result<u32>)
    ensures
        match decimal_of(text@, u32::MAX as int) {
            Some(v) => r == Ok::<u32, Error>(v as u32),
            None => r == Err::<u32, Error>(
                Error::InvalidArgument("kernel reported a non-numeric privlevel_floor"),
            ),
        },
{
    match parse_decimal(text) {
        Some(v) => {
            if v <= 0xFFFF_FFFF {
                return Ok(v as u32);
            }
        },
        None => {},
    }
    Err(Error::InvalidArgument("kernel reported a non-numeric privlevel_floor"))
}

/// How many attribute writes a request performs, and so the `generation` a
/// report entry shows when nobody else wrote to it: one for `inblob`, and one
/// more for `privlevel` when a VMPL is requested.
pub open spec fn expected_generation(request: super::ReportRequestModel) -> u64 {
    if request.vmpl is Some {
        2
    } else {
        1
    }
}

/// The number of attribute writes this request performs.
pub fn writes_for(request: &ReportRequest) -> (r: u64)
    ensures
        r == expected_generation(request@),
{
    // Every attribute write bumps `generation`; count ours so we can tell
    // our writes apart from somebody else's.
    let mut writes: u64 = 0;
    if request.requested_vmpl().is_some() {
        writes = writes + 1;
    }
    writes + 1
}

/// One attribute write a configfs request performs.
#[derive(Debug, Clone, Copy)]
pub enum AttributeWrite {
    /// The requested VMPL, written as decimal text to `privlevel`.
    Privlevel(u32),
    /// The 64 bytes of report data, written to `inblob`.
    Inblob([u8; 64]),
}

impl AttributeWrite {
    /// The name of the attribute this write goes to.
    pub fn attribute(&self) -> (r: &'static str)
        ensures
            self is Privlevel ==> r == "privlevel",
            self is Inblob ==> r == "inblob",
    {
        match self {
            AttributeWrite::Privlevel(_) => "privlevel",
            AttributeWrite::Inblob(_) => "inblob",
        }
    }
}

/// The attribute writes a request performs, in order: `privlevel` first when
/// a VMPL is requested, then `inblob`. There are exactly as many as the
/// `generation` an untouched entry shows afterwards.
pub fn write_plan(request: &ReportRequest) -> (r: Vec<AttributeWrite>)
    ensures
        r@.len() == expected_generation(request@),
        request@.vmpl matches Some(v) ==> r@[0] matches AttributeWrite::Privlevel(w) && w == v,
        r@.last() matches AttributeWrite::Inblob(d) && d@ == request@.data,
{
    let mut plan: Vec<AttributeWrite> = Vec::new();
    match request.requested_vmpl() {
        Some(v) => plan.push(AttributeWrite::Privlevel(v)),
        None => {},
    }
    plan.push(AttributeWrite::Inblob(*request.report_data()));
    plan
}

/// Checks the `generation` attribute read back after a request.
///
/// A value other than the number of writes this request performed — or text
/// that is not a number at all — means another writer touched the entry, and
/// the response is [`Error::Raced`].
pub fn check_generation(request: &ReportRequest, generation_text: &[u8]) -> (r: Result<()>)
    ensures
        decimal_of(generation_text@, u64::MAX as int) == Some(expected_generation(request@) as int)
            <==> r is Ok,
        r is Err ==> r == Err::<(), Error>(Error::Raced),
{
    let parsed = parse_decimal(generation_text);
    let generation = match parsed {
        Some(g) => g,
        None => u64::MAX,
    };
    let writes = writes_for(request);
    assert(writes <= 2);
    if generation != writes {
        return Err(Error::Raced);
    }
    Ok(())
}

/// The report an `outblob` holds, accepted only if it answers the request.
pub fn report_from_outblob(request: &ReportRequest, outblob: &[u8]) -> (r: Result<
    AttestationReport,
>)
    ensures
        r is Ok <==> is_acceptable_report(outblob@) && answers(
            request@,
            outblob@.subrange(0, crate::report::REPORT_SIZE as int),
        ),
        r matches Ok(rep) ==> rep@ == outblob@.subrange(0, crate::report::REPORT_SIZE as int),
        !is_acceptable_report(outblob@) ==> r == Err::<AttestationReport, Error>(
            report_parse_error(outblob@),
        ),
        is_acceptable_report(outblob@) && !answers(
            request@,
            outblob@.subrange(0, crate::report::REPORT_SIZE as int),
        ) ==> r == Err::<AttestationReport, Error>(Error::Mismatch),
{
    match AttestationReport::parse(outblob) {
        Ok(report) => request.check_response(report),
        Err(e) => Err(e),
    }
}

/// The extended report `outblob` and `auxblob` hold, accepted only if the
/// report answers the request and the certificate table parses.
pub fn extended_from_blobs(request: &ReportRequest, outblob: &[u8], auxblob: &[u8]) -> (r: Result<
    ExtendedReport,
>)
    ensures
        r is Ok <==> is_acceptable_report(outblob@) && cert_table_of(auxblob@) is Ok && answers(
            request@,
            outblob@.subrange(0, crate::report::REPORT_SIZE as int),
        ),
        r matches Ok(x) ==> x.report@ == outblob@.subrange(0, crate::report::REPORT_SIZE as int)
            && cert_table_of(auxblob@) == Ok::<Seq<crate::certs::CertEntry>, ParseError>(
            x.certificates@,
        ),
        !is_acceptable_report(outblob@) ==> r == Err::<ExtendedReport, Error>(
            report_parse_error(outblob@),
        ),
        is_acceptable_report(outblob@) ==> match cert_table_of(auxblob@) {
            Err(pe) => r == Err::<ExtendedReport, Error>(Error::Parse(pe)),
            Ok(_) => !answers(request@, outblob@.subrange(0, crate::report::REPORT_SIZE as int))
                ==> r == Err::<ExtendedReport, Error>(Error::Mismatch),
        },
{
    let report = match AttestationReport::parse(outblob) {
        Ok(report) => report,
        Err(e) => return Err(e),
    };
    let certificates = match CertTable::parse(auxblob) {
        Ok(t) => t,
        Err(e) => return Err(e),
    };
    request.check_extended_response(ExtendedReport { report, certificates })
}

/// Checks the provider configfs-TSM names for its report entries: anything
/// but `sev_guest` — a TDX module, say — is not an SEV-SNP firmware, and is
/// refused as [`Error::WrongProvider`] rather than a foreign quote being parsed as
/// a report. Surrounding whitespace is ignored.
pub fn check_provider(provider_text: &[u8]) -> (r: Result<()>)
    ensures
        r is Ok <==> trim_end(trim_start(provider_text@)) == sev_guest_provider(),
        r is Err ==> r == Err::<(), Error>(Error::WrongProvider),
{
    let start = skip_spaces(provider_text);
    let end = end_of_text(provider_text, start);
    let expected: [u8; 9] = [0x73, 0x65, 0x76, 0x5f, 0x67, 0x75, 0x65, 0x73, 0x74];
    assert(expected@ =~= sev_guest_provider());
    let trimmed = vstd::slice::slice_subrange(provider_text, start, end);
    if crate::bytes::bytes_equal(trimmed, expected.as_slice()) {
        Ok(())
    } else {
        Err(Error::WrongProvider)
    }
}

} // verus!
