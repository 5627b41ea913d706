//! The `/dev/sev-guest` transport: its wire formats and decisions.
//!
//! The first guest interface, available from Linux 5.19. It is the only one
//! that implements key derivation, and the only one that reports the firmware's
//! own status codes instead of collapsing them into an `errno`.
//!
//! This module builds the request buffers the driver expects and interprets
//! the response buffers it fills in; issuing the `ioctl` itself is the
//! caller's.

use super::{answers, ReportRequest};
use crate::bytes::{le_bytes_u32, le_bytes_u64, le_u32, write_u32, write_u64};
use crate::certs::{cert_table_of, CertTable, ExtendedReport};
use crate::error::{firmware_error_of, Error, FirmwareError, ParseError, Result, VmmError};
use crate::key::{wipe_bytes, DerivedKey};
use crate::report::{is_acceptable_report, report_parse_error, AttestationReport, REPORT_SIZE};
use vstd::prelude::*;

verus! {

/// Size of the fixed response buffer the kernel writes a report into.
pub const REPORT_RESP_LEN: usize = 4000;

/// Offset of the payload in a firmware response message.
pub const RESP_PAYLOAD: usize = 0x20;

/// Certificate buffers must be a whole number of pages.
pub const CERT_GRANULARITY: usize = 4096;

/// The kernel refuses certificate buffers larger than this.
pub const CERT_MAX: usize = 0x4000;

/// The request number of `SNP_GET_REPORT`.
pub const SNP_GET_REPORT_NR: u32 = 0x0;

/// The request number of `SNP_GET_DERIVED_KEY`.
pub const SNP_GET_DERIVED_KEY_NR: u32 = 0x1;

/// The request number of `SNP_GET_EXT_REPORT`.
pub const SNP_GET_EXT_REPORT_NR: u32 = 0x2;

/// The `_IOWR('S', nr, size)` request code: direction read-write in bits
/// 31:30, the argument size in 29:16, the type `'S'` in 15:8, the number in
/// 7:0.
pub open spec fn iowr_code(nr: u32, size: u32) -> int {
    3 * 0x4000_0000 + size * 0x1_0000 + 0x53 * 0x100 + nr
}

/// Builds an `_IOWR('S', nr, size)` request code, where `size` is the size of
/// `struct snp_guest_request_ioctl`.
pub fn iowr(nr: u32, size: u32) -> (r: u64)
    requires
        nr < 0x100,
        size < 0x4000,
    ensures
        r == iowr_code(nr, size),
{
    // Direction read-write, type 'S'.
    let code: u32 = (3u32 << 30u32) | (size << 16u32) | (0x53u32 << 8u32) | nr;
    assert(code == 3 * 0x4000_0000 + size * 0x1_0000 + 0x53 * 0x100 + nr) by (bit_vector)
        requires
            nr < 0x100,
            size < 0x4000,
            code == (3u32 << 30u32) | (size << 16u32) | (0x53u32 << 8u32) | nr,
    ;
    code as u64
}

/// The 96 bytes of `struct snp_report_req`: the report data, then the VMPL
/// (zero when none was requested), then reserved zeros.
pub open spec fn report_req_bytes(request: super::ReportRequestModel) -> Seq<u8> {
    request.data + le_bytes_u32(
        match request.vmpl {
            Some(v) => v,
            None => 0,
        },
    ) + Seq::new(28, |i: int| 0u8)
}

/// Builds the 96-byte `struct snp_report_req`.
pub fn report_req(request: &ReportRequest) -> (r: [u8; 96])
    ensures
        r@ == report_req_bytes(request@),
{
    let mut req = [0u8; 96];
    let data = request.report_data();
    let mut i: usize = 0;
    while i < 64
        invariant
            i <= 64,
            req@.len() == 96,
            data@.len() == 64,
            forall|j: int| 0 <= j < i ==> req@[j] == data@[j],
            forall|j: int| 64 <= j < 96 ==> req@[j] == 0,
        decreases 64 - i,
    {
        req[i] = data[i];
        i = i + 1;
    }
    let vmpl = match request.requested_vmpl() {
        Some(v) => v,
        None => 0,
    };
    write_u32(&mut req, 64, vmpl);
    assert(req@ =~= report_req_bytes(request@));
    req
}

/// The 112 bytes of `struct snp_ext_report_req`: the report request, then a
/// certificate buffer address and length, both zero until a buffer is
/// supplied.
pub fn ext_report_req(request: &ReportRequest) -> (r: [u8; 112])
    ensures
        r@ == report_req_bytes(request@) + Seq::new(16, |i: int| 0u8),
{
    let base = report_req(request);
    let mut req = [0u8; 112];
    let mut i: usize = 0;
    while i < 96
        invariant
            i <= 96,
            req@.len() == 112,
            base@.len() == 96,
            forall|j: int| 0 <= j < i ==> req@[j] == base@[j],
            forall|j: int| 96 <= j < 112 ==> req@[j] == 0,
        decreases 96 - i,
    {
        req[i] = base[i];
        i = i + 1;
    }
    assert(req@ =~= report_req_bytes(request@) + Seq::new(16, |i: int| 0u8));
    req
}

/// The certificate buffer length the kernel wrote back into an extended
/// report request: the little-endian word at offset 104.
pub fn requested_cert_len(req: &[u8; 112]) -> (r: u32)
    ensures
        r == le_u32(req@.subrange(104, 108)),
{
    match crate::bytes::u32_at(req, 104) {
        Some(v) => v,
        None => 0,
    }
}

/// Points an extended report request at a certificate buffer: its address at
/// offset 96 and its length at offset 104, the rest untouched.
pub fn set_cert_buffer(req: &mut [u8; 112], address: u64, len: u32)
    ensures
        final(req)@ == old(req)@.subrange(0, 96) + le_bytes_u64(address) + le_bytes_u32(len)
            + old(req)@.subrange(108, 112),
{
    let ghost before = req@;
    write_u64(req, 96, address);
    write_u32(req, 104, len);
    assert(req@ =~= before.subrange(0, 96) + le_bytes_u64(address) + le_bytes_u32(len)
        + before.subrange(108, 112));
}

/// Whether the first answer to an extended report request asks for a
/// certificate buffer: the hypervisor reports `InvalidLen` when the host has
/// certificates and the buffer offered was too small.
pub fn needs_cert_buffer(error: &Error) -> (r: bool)
    ensures
        r == (*error == Error::Vmm(VmmError::InvalidLen)),
{
    match error {
        Error::Vmm(VmmError::InvalidLen) => true,
        _ => false,
    }
}

/// Whether a certificate buffer size the kernel asks for is one a host may
/// legitimately need: non-zero, a whole number of pages, and no more than
/// the kernel itself accepts.
pub open spec fn plausible_cert_len(needed: u32) -> bool {
    needed != 0 && needed <= CERT_MAX && needed % (CERT_GRANULARITY as u32) == 0
}

/// The size of the certificate buffer to supply, or an error for a size no
/// host should ask for.
pub fn cert_buffer_len(needed: u32) -> (r: Result<usize>)
    ensures
        plausible_cert_len(needed) ==> r == Ok::<usize, Error>(needed as usize),
        !plausible_cert_len(needed) ==> r == Err::<usize, Error>(
            Error::InvalidArgument("kernel asked for an implausible certificate buffer size"),
        ),
{
    if needed == 0 || needed as usize > CERT_MAX || needed % (CERT_GRANULARITY as u32) != 0 {
        return Err(
            Error::InvalidArgument("kernel asked for an implausible certificate buffer size"),
        );
    }
    Ok(needed as usize)
}

/// What to do after one `SNP_GET_EXT_REPORT` request.
#[derive(Debug)]
pub enum ExtReportStep {
    /// The response buffer holds the answer: interpret it.
    Finish,
    /// Supply a certificate buffer of this many bytes and ask again.
    RetryWithCertBuffer(usize),
    /// Stop with this error.
    Fail(Error),
}

/// Decides the next step of the extended report exchange from how the last
/// request went and the request buffer the kernel wrote back.
///
/// The first request offers no certificate buffer. A host with no
/// certificates answers it at once; one with certificates refuses it as
/// `InvalidLen` and writes the size it needs at offset 104, and a buffer of
/// that size is supplied for a second and last request — if the size is one a
/// host may need. Any other failure, and any failure of the second request,
/// ends the exchange with that error.
pub fn ext_report_step(buffer_supplied: bool, outcome: Result<()>, req: &[u8; 112]) -> (r:
    ExtReportStep)
    ensures
        outcome is Ok ==> r is Finish,
        outcome matches Err(e) ==> if !buffer_supplied && e == Error::Vmm(VmmError::InvalidLen) {
            if plausible_cert_len(le_u32(req@.subrange(104, 108)) as u32) {
                r matches ExtReportStep::RetryWithCertBuffer(n) && n == le_u32(
                    req@.subrange(104, 108),
                )
            } else {
                r matches ExtReportStep::Fail(f) && f == Error::InvalidArgument(
                    "kernel asked for an implausible certificate buffer size",
                )
            }
        } else {
            r matches ExtReportStep::Fail(f) && f == e
        },
{
    match outcome {
        Ok(()) => ExtReportStep::Finish,
        Err(e) => {
            if !buffer_supplied && needs_cert_buffer(&e) {
                match cert_buffer_len(requested_cert_len(req)) {
                    Ok(n) => ExtReportStep::RetryWithCertBuffer(n),
                    Err(f) => ExtReportStep::Fail(f),
                }
            } else {
                ExtReportStep::Fail(e)
            }
        },
    }
}

/// What a report response holds: an error for a non-zero status word, else
/// the report that starts at the payload offset.
pub open spec fn response_status(response: Seq<u8>) -> int {
    le_u32(response.subrange(0, 4))
}

/// Extracts the report from a firmware response message.
pub fn parse_response(response: &[u8]) -> (r: Result<AttestationReport>)
    requires
        response@.len() < 4 || response@.len() >= RESP_PAYLOAD,
    ensures
        response@.len() < 4 ==> r == Err::<AttestationReport, Error>(
            Error::Parse(
                ParseError::TooShort {
                    what: "report response",
                    need: 4,
                    got: response@.len() as usize,
                },
            ),
        ),
        response@.len() >= 4 && response_status(response@) != 0 ==> r == Err::<
            AttestationReport,
            Error,
        >(Error::Firmware(firmware_error_of(response_status(response@) as u32))),
        r is Ok <==> response@.len() >= 4 && response_status(response@) == 0
            && is_acceptable_report(response@.subrange(RESP_PAYLOAD as int, response@.len() as int)),
        response@.len() >= 4 && response_status(response@) == 0 && !is_acceptable_report(
            response@.subrange(RESP_PAYLOAD as int, response@.len() as int),
        ) ==> r == Err::<AttestationReport, Error>(
            report_parse_error(response@.subrange(RESP_PAYLOAD as int, response@.len() as int)),
        ),
        r matches Ok(rep) ==> rep@ == response@.subrange(
            RESP_PAYLOAD as int,
            RESP_PAYLOAD + REPORT_SIZE,
        ),
{
    let status = match crate::bytes::u32_at(response, 0) {
        Some(s) => s,
        None => {
            return Err(
                Error::Parse(
                    ParseError::TooShort {
                        what: "report response",
                        need: 4,
                        got: response.len(),
                    },
                ),
            );
        },
    };
    if status != 0 {
        return Err(Error::Firmware(FirmwareError::from_raw(status)));
    }
    let payload = vstd::slice::slice_subrange(response, RESP_PAYLOAD, response.len());
    let r = AttestationReport::parse(payload);
    proof {
        if payload@.len() >= REPORT_SIZE {
            assert(payload@.subrange(0, REPORT_SIZE as int) =~= response@.subrange(
                RESP_PAYLOAD as int,
                RESP_PAYLOAD + REPORT_SIZE,
            ));
        }
    }
    r
}

/// The report a response message holds, accepted only if it answers the
/// request that produced it.
pub fn report_from_response(request: &ReportRequest, response: &[u8]) -> (r: Result<
    AttestationReport,
>)
    requires
        response@.len() >= RESP_PAYLOAD,
    ensures
        r is Ok <==> response_status(response@) == 0 && is_acceptable_report(
            response@.subrange(RESP_PAYLOAD as int, response@.len() as int),
        ) && answers(request@, response@.subrange(RESP_PAYLOAD as int, RESP_PAYLOAD + REPORT_SIZE)),
        r matches Ok(rep) ==> rep@ == response@.subrange(
            RESP_PAYLOAD as int,
            RESP_PAYLOAD + REPORT_SIZE,
        ),
        response_status(response@) != 0 ==> r == Err::<AttestationReport, Error>(
            Error::Firmware(firmware_error_of(response_status(response@) as u32)),
        ),
        response_status(response@) == 0 && !is_acceptable_report(
            response@.subrange(RESP_PAYLOAD as int, response@.len() as int),
        ) ==> r == Err::<AttestationReport, Error>(
            report_parse_error(response@.subrange(RESP_PAYLOAD as int, response@.len() as int)),
        ),
        response_status(response@) == 0 && is_acceptable_report(
            response@.subrange(RESP_PAYLOAD as int, response@.len() as int),
        ) && !answers(request@, response@.subrange(RESP_PAYLOAD as int, RESP_PAYLOAD + REPORT_SIZE))
            ==> r == Err::<AttestationReport, Error>(Error::Mismatch),
{
    match parse_response(response) {
        Ok(report) => request.check_response(report),
        Err(e) => Err(e),
    }
}

/// The extended report a response message and certificate buffer hold,
/// accepted only if the report answers the request and the certificate
/// table parses.
pub fn extended_from_response(request: &ReportRequest, response: &[u8], certs: &[u8]) -> (r: Result<
    ExtendedReport,
>)
    requires
        response@.len() >= RESP_PAYLOAD,
    ensures
        r is Ok <==> response_status(response@) == 0 && is_acceptable_report(
            response@.subrange(RESP_PAYLOAD as int, response@.len() as int),
        ) && cert_table_of(certs@) is Ok && answers(
            request@,
            response@.subrange(RESP_PAYLOAD as int, RESP_PAYLOAD + REPORT_SIZE),
        ),
        r matches Ok(x) ==> x.report@ == response@.subrange(
            RESP_PAYLOAD as int,
            RESP_PAYLOAD + REPORT_SIZE,
        ) && cert_table_of(certs@) == Ok::<Seq<crate::certs::CertEntry>, ParseError>(
            x.certificates@,
        ),
        response_status(response@) != 0 ==> r == Err::<ExtendedReport, Error>(
            Error::Firmware(firmware_error_of(response_status(response@) as u32)),
        ),
        response_status(response@) == 0 && !is_acceptable_report(
            response@.subrange(RESP_PAYLOAD as int, response@.len() as int),
        ) ==> r == Err::<ExtendedReport, Error>(
            report_parse_error(response@.subrange(RESP_PAYLOAD as int, response@.len() as int)),
        ),
        response_status(response@) == 0 && is_acceptable_report(
            response@.subrange(RESP_PAYLOAD as int, response@.len() as int),
        ) ==> match cert_table_of(certs@) {
            Err(pe) => r == Err::<ExtendedReport, Error>(Error::Parse(pe)),
            Ok(_) => !answers(
                request@,
                response@.subrange(RESP_PAYLOAD as int, RESP_PAYLOAD + REPORT_SIZE),
            ) ==> r == Err::<ExtendedReport, Error>(Error::Mismatch),
        },
{
    let report = match parse_response(response) {
        Ok(report) => report,
        Err(e) => return Err(e),
    };
    let certificates = match CertTable::parse(certs) {
        Ok(t) => t,
        Err(e) => return Err(e),
    };
    request.check_extended_response(ExtendedReport { report, certificates })
}

/// The key a derived-key response holds: an error for a non-zero status word,
/// else the 32 bytes at the payload offset. On success the response buffer is
/// wiped, since it holds a copy of the key.
pub fn derived_key_from_response(resp: &mut [u8; 64]) -> (r: Result<DerivedKey>)
    ensures
        response_status(old(resp)@) != 0 ==> r == Err::<DerivedKey, Error>(
            Error::Firmware(firmware_error_of(response_status(old(resp)@) as u32)),
        ) && final(resp)@ == old(resp)@,
        response_status(old(resp)@) == 0 ==> (r matches Ok(k) && k@ == old(resp)@.subrange(
            RESP_PAYLOAD as int,
            RESP_PAYLOAD + DerivedKey::LEN,
        )) && final(resp)@ == Seq::new(64, |i: int| 0u8),
{
    let status = match crate::bytes::u32_at(resp, 0) {
        Some(s) => s,
        None => 0,
    };
    if status != 0 {
        return Err(Error::Firmware(FirmwareError::from_raw(status)));
    }
    let key = match crate::bytes::bytes_at::<32>(resp, RESP_PAYLOAD) {
        Some(k) => k,
        None => [0u8; 32],
    };
    // The response buffer holds a copy of the key; wipe it before it goes
    // back to the allocator.
    wipe_bytes(resp);
    Ok(DerivedKey::from_bytes(key))
}

/// Checks a guest message protocol version before it is used: the firmware
/// rejects zero, so this does too, rather than letting the kernel do it.
pub fn check_msg_version(version: u8) -> (r: Result<u8>)
    ensures
        version != 0 ==> r == Ok::<u8, Error>(version),
        version == 0 ==> r == Err::<u8, Error>(
            Error::InvalidArgument("message version must be non-zero"),
        ),
{
    if version == 0 {
        return Err(Error::InvalidArgument("message version must be non-zero"));
    }
    Ok(version)
}

} // verus!
