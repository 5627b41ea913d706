//! The two kernel interfaces to the SEV-SNP guest firmware.
//!
//! Linux exposes guest requests twice. [`configfs`] is the newer, generic
//! confidential-computing interface added in 6.7; [`ioctl`] is the older
//! `/dev/sev-guest` character device from 5.19. They are not equivalent, and
//! neither one is a superset:
//!
//! | | [`Transport::Ioctl`] | [`Transport::ConfigFs`] |
//! |---|---|---|
//! | Minimum kernel | 5.19 | 6.7 |
//! | Attestation report | yes | yes |
//! | Certificate chain | yes | yes |
//! | Derived key | **yes** | no |
//! | Firmware error codes | **yes** | collapsed to `errno` |
//! | Concurrent-writer detection | no | **yes** |
//!
//! Opening a firmware handle prefers configfs, because its generation counter
//! catches another process overwriting the request between the write and the
//! read, and falls back to the ioctl device. Key derivation always needs the
//! ioctl device.
//!
//! The submodules hold what each transport decides and encodes; the system
//! calls themselves are made by the caller, who hands the results back.

pub mod configfs;
pub mod ioctl;

use crate::certs::ExtendedReport;
use crate::error::{Error, Result};
use crate::report::{report_u32, AttestationReport};
use vstd::prelude::*;

verus! {

/// Which kernel interface a backend speaks.
#[derive(Debug, Clone, Copy, PartialEq, Eq, Hash, Structural)]
#[non_exhaustive]
pub enum Transport {
    /// The `/dev/sev-guest` character device.
    Ioctl,
    /// The configfs-TSM interface under `/sys/kernel/config/tsm/report`.
    ConfigFs,
}

/// Which transport serves reports, given which ones could be opened.
///
/// configfs is preferred: it is the only transport that can tell whether
/// another process overwrote the request before the answer was read.
pub fn select_transport(configfs_open: bool, ioctl_open: bool) -> (r: Result<Transport>)
    ensures
        configfs_open ==> r == Ok::<Transport, Error>(Transport::ConfigFs),
        !configfs_open && ioctl_open ==> r == Ok::<Transport, Error>(Transport::Ioctl),
        !configfs_open && !ioctl_open ==> r == Err::<Transport, Error>(Error::NoBackend),
{
    if configfs_open {
        Ok(Transport::ConfigFs)
    } else if ioctl_open {
        Ok(Transport::Ioctl)
    } else {
        Err(Error::NoBackend)
    }
}

/// What a report request asks for, as plain values.
pub struct ReportRequestModel {
    /// The 64 bytes to bind into the report.
    pub data: Seq<u8>,
    /// The VMPL to request the report at, if set explicitly.
    pub vmpl: Option<u32>,
}

/// A request for an attestation report.
#[derive(Debug, Clone, Copy, PartialEq, Eq)]
pub struct ReportRequest {
    data: [u8; 64],
    vmpl: Option<u32>,
}

impl View for ReportRequest {
    type V = ReportRequestModel;

    closed spec fn view(&self) -> ReportRequestModel {
        ReportRequestModel { data: self.data@, vmpl: self.vmpl }
    }
}

/// Whether a report's bytes answer a request: the firmware echoes the
/// request's 64 bytes of report data at offset `0x50`, and the VMPL it was
/// asked for, when one was asked for, at offset `0x30`.
pub open spec fn answers(request: ReportRequestModel, report: Seq<u8>) -> bool {
    &&& report.subrange(0x50, 0x90) == request.data
    &&& (request.vmpl matches Some(v) ==> report_u32(report, 0x30) == v)
}

impl ReportRequest {
    /// A request with all-zero report data at the guest's own VMPL.
    pub fn new() -> (r: Self)
        ensures
            r@.data == Seq::new(64, |i: int| 0u8),
            r@.vmpl is None,
    {
        let r = Self { data: [0u8; 64], vmpl: None };
        assert(r@.data =~= Seq::new(64, |i: int| 0u8));
        r
    }

    /// Sets the 64 bytes bound into the report.
    pub fn data(self, data: [u8; 64]) -> (r: Self)
        ensures
            r@.data == data@,
            r@.vmpl == self@.vmpl,
    {
        Self { data, vmpl: self.vmpl }
    }

    /// Requests the report at a specific VMPL.
    ///
    /// Must be at or above the caller's own privilege level. Leaving this unset
    /// lets the kernel use its default, which is the level the guest runs at.
    pub fn vmpl(self, vmpl: u32) -> (r: Self)
        ensures
            r@.data == self@.data,
            r@.vmpl == Some(vmpl),
    {
        Self { data: self.data, vmpl: Some(vmpl) }
    }

    /// The report data this request carries.
    pub fn report_data(&self) -> (r: &[u8; 64])
        ensures
            r@ == self@.data,
    {
        &self.data
    }

    /// The VMPL this request targets, if one was set explicitly.
    pub fn requested_vmpl(&self) -> (r: Option<u32>)
        ensures
            r == self@.vmpl,
    {
        self.vmpl
    }

    /// Accepts a report only if it answers this request.
    ///
    /// The firmware echoes `REPORT_DATA` and the privilege level into every
    /// report, so a response whose report data differs from what was asked
    /// for, or whose VMPL differs from an explicitly requested one, answers
    /// somebody else's request and is [`Error::Mismatch`].
    pub fn check_response(&self, report: AttestationReport) -> (r: Result<AttestationReport>)
        ensures
            answers(self@, report@) ==> (r matches Ok(rep) && rep@ == report@),
            !answers(self@, report@) ==> r == Err::<AttestationReport, Error>(Error::Mismatch),
            r matches Ok(rep) ==> rep@.subrange(0x50, 0x90) == self@.data && (self@.vmpl matches Some(
                v,
            ) ==> report_u32(rep@, 0x30) == v),
    {
        let echoed = report.report_data();
        if !crate::bytes::bytes_equal(echoed.as_slice(), self.data.as_slice()) {
            return Err(Error::Mismatch);
        }
        match self.vmpl {
            Some(v) => {
                if report.vmpl() != v {
                    return Err(Error::Mismatch);
                }
            },
            None => {},
        }
        Ok(report)
    }

    /// Accepts an extended report only if its report answers this request;
    /// the certificates are passed through untouched.
    pub fn check_extended_response(&self, extended: ExtendedReport) -> (r: Result<ExtendedReport>)
        ensures
            answers(self@, extended.report@) ==> (r matches Ok(x) && x.report@
                == extended.report@ && x.certificates@ == extended.certificates@),
            !answers(self@, extended.report@) ==> r == Err::<ExtendedReport, Error>(
                Error::Mismatch,
            ),
    {
        let ExtendedReport { report, certificates } = extended;
        match self.check_response(report) {
            Ok(report) => Ok(ExtendedReport { report, certificates }),
            Err(e) => Err(e),
        }
    }
}

impl core::default::Default for ReportRequest {
    fn default() -> (r: Self)
        ensures
            r@.data == Seq::new(64, |i: int| 0u8),
            r@.vmpl is None,
    {
        Self::new()
    }
}

impl core::convert::From<[u8; 64]> for ReportRequest {
    fn from(data: [u8; 64]) -> (r: Self)
        ensures
            r@.data == data@,
            r@.vmpl is None,
    {
        Self { data, vmpl: None }
    }
}

impl vstd::std_specs::convert::FromSpecImpl<[u8; 64]> for ReportRequest {
    open spec fn obeys_from_spec() -> bool {
        true
    }

    closed spec fn from_spec(data: [u8; 64]) -> Self {
        ReportRequest { data, vmpl: None }
    }
}

impl<'a> core::convert::From<&'a [u8; 64]> for ReportRequest {
    fn from(data: &'a [u8; 64]) -> (r: Self)
        ensures
            r@.data == data@,
            r@.vmpl is None,
    {
        Self { data: *data, vmpl: None }
    }
}

impl<'a> vstd::std_specs::convert::FromSpecImpl<&'a [u8; 64]> for ReportRequest {
    open spec fn obeys_from_spec() -> bool {
        true
    }

    closed spec fn from_spec(data: &'a [u8; 64]) -> Self {
        ReportRequest { data: *data, vmpl: None }
    }
}

} // verus!
