//! Errors returned by this crate.

use crate::text::{dec_text, hex_text, push_dec, push_hex_padded, text, zero_padded};
use vstd::prelude::*;
use vstd::string::StringExecFns;

verus! {

/// `std::io::Error` is carried through [`Error::Io`] unchanged; nothing in
/// this crate looks inside it except through [`io_error_class`].
#[verifier::external_type_specification]
#[verifier::external_body]
pub struct ExIoError(std::io::Error);

/// Result alias used throughout the crate.
pub type Result<T> = core::result::Result<T, Error>;

/// Anything that can go wrong talking to the SEV-SNP firmware.
#[derive(Debug)]
#[non_exhaustive]
pub enum Error {
    /// No usable guest interface was found.
    ///
    /// Either this is not an SEV-SNP guest, or the kernel exposes neither
    /// `/dev/sev-guest` nor configfs-TSM.
    NoBackend,
    /// The selected backend exists but cannot serve this request.
    ///
    /// The most common case is asking configfs-TSM for a derived key: that
    /// interface only implements attestation reports.
    Unsupported(&'static str),
    /// The request was rejected before it reached the firmware.
    InvalidArgument(&'static str),
    /// The PSP firmware rejected the request.
    Firmware(FirmwareError),
    /// The hypervisor rejected the request before the firmware saw it.
    Vmm(VmmError),
    /// A response could not be interpreted.
    Parse(ParseError),
    /// Another process wrote to the same configfs report entry concurrently.
    ///
    /// The response cannot be trusted to correspond to our request, so it is
    /// discarded rather than returned.
    Raced,
    /// The response does not answer the request that produced it.
    ///
    /// The firmware echoes `REPORT_DATA` and the privilege level into every
    /// report; a report carrying anything other than what was asked for is
    /// somebody else's, and is never returned.
    Mismatch,
    /// The configfs-TSM interface belongs to another architecture.
    ///
    /// configfs-TSM is shared with TDX and others; its provider is checked
    /// when the interface is opened, and anything but `sev_guest` is refused
    /// rather than having a foreign quote parsed as a report.
    WrongProvider,
    /// An underlying I/O operation failed.
    ///
    /// The second field sorts the error by its kind, once, when
    /// `From<std::io::Error>` wraps it; it decides whether the failure is
    /// worth retrying.
    Io(std::io::Error, IoErrorClass),
}

impl core::convert::From<std::io::Error> for Error {
    /// Wraps an I/O error together with its class.
    fn from(e: std::io::Error) -> (r: Self)
        ensures
            r is Io && r->Io_0 == e,
    {
        let class = io_error_class(&e);
        Error::Io(e, class)
    }
}

/// The class an I/O error is wrapped with comes from `io::Error::kind`, of
/// which nothing is stated, so no spec function gives the whole result of
/// `from`; its own `ensures` says what it keeps.
impl vstd::std_specs::convert::FromSpecImpl<std::io::Error> for Error {
    open spec fn obeys_from_spec() -> bool {
        false
    }

    closed spec fn from_spec(e: std::io::Error) -> Self {
        Error::Io(e, IoErrorClass::Other)
    }
}

impl core::convert::From<ParseError> for Error {
    fn from(e: ParseError) -> (r: Self)
        ensures
            r == Error::Parse(e),
    {
        Error::Parse(e)
    }
}

impl vstd::std_specs::convert::FromSpecImpl<ParseError> for Error {
    open spec fn obeys_from_spec() -> bool {
        true
    }

    open spec fn from_spec(e: ParseError) -> Self {
        Error::Parse(e)
    }
}

/// Status codes returned by the AMD secure processor.
///
/// Mirrors `sev_ret_code` in `<linux/psp-sev.h>`. Codes the running firmware
/// invents that this crate does not know are preserved in [`Self::Unknown`]
/// rather than being flattened, so a guest on newer firmware never loses
/// information.
#[derive(Debug, Clone, Copy, PartialEq, Eq, Structural)]
#[non_exhaustive]
pub enum FirmwareError {
    /// The platform is not in a state that allows this command.
    InvalidPlatformState,
    /// The guest is not in a state that allows this command.
    InvalidGuestState,
    /// The platform configuration is invalid.
    InvalidConfig,
    /// A supplied buffer was the wrong length.
    InvalidLen,
    /// The platform already has an owner.
    AlreadyOwned,
    /// A supplied certificate could not be validated.
    InvalidCertificate,
    /// The request violates the guest policy.
    PolicyFailure,
    /// The guest is not active.
    Inactive,
    /// A supplied address is invalid or not mapped as expected.
    InvalidAddress,
    /// A signature check failed.
    BadSignature,
    /// A measurement check failed.
    BadMeasurement,
    /// The ASID is already owned by another guest.
    AsidOwned,
    /// The ASID is out of range or not usable.
    InvalidAsid,
    /// Caches must be written back and invalidated before retrying.
    WbinvdRequired,
    /// A data fabric flush is required before retrying.
    DfFlushRequired,
    /// The guest handle does not refer to a valid guest.
    InvalidGuest,
    /// The command is not recognised by this firmware.
    InvalidCommand,
    /// The guest is active and the command requires it not to be.
    Active,
    /// A hardware error occurred that is not attributable to the guest.
    HwPlatformError,
    /// A hardware condition makes it unsafe to continue.
    HwUnsafe,
    /// The firmware does not support this operation.
    Unsupported,
    /// A request parameter is out of range or malformed.
    InvalidParam,
    /// A firmware resource limit was reached.
    ResourceLimit,
    /// Persistent secure data failed its integrity check.
    SecureDataInvalid,
    /// A page size in the request is invalid.
    InvalidPageSize,
    /// A page is not in the RMP state the command requires.
    InvalidPageState,
    /// An RMP metadata entry is invalid.
    InvalidMetadataEntry,
    /// A page is owned by a different guest.
    InvalidPageOwner,
    /// The message sequence number space for the VMPCK is exhausted.
    AeadOverflow,
    /// The command must be reissued outside the ring buffer.
    ExitRingBuffer,
    /// The reverse map table has not been initialised.
    RmpInitRequired,
    /// A security version number is lower than the firmware allows.
    BadSvn,
    /// A structure version in the request is not supported.
    BadVersion,
    /// The platform must be shut down before retrying.
    ShutdownRequired,
    /// A firmware update failed.
    UpdateFailed,
    /// State must be restored before retrying.
    RestoreRequired,
    /// Initialising the reverse map table failed.
    RmpInitFailed,
    /// The requested key is unavailable or invalid.
    InvalidKey,
    /// A previous shutdown did not complete.
    ShutdownIncomplete,
    /// A supplied buffer length does not match what the command needs.
    IncorrectBufferLength,
    /// The buffer must be enlarged and the command reissued.
    ExpandBufferLengthRequest,
    /// An SPDM exchange with a device is required to proceed.
    SpdmRequest,
    /// An SPDM exchange with a device failed.
    SpdmError,
    /// An error occurred on a trusted device connection.
    ErrInDevConn,
    /// The device context is invalid.
    InvalidDevCtx,
    /// The trusted device interface context is invalid.
    InvalidTdiCtx,
    /// The trusted device interface is invalid.
    InvalidTdi,
    /// A resource must be reclaimed before retrying.
    ReclaimRequired,
    /// The resource is in use.
    InUse,
    /// The device is not in a state that allows this command.
    InvalidDevState,
    /// The trusted device interface is not in a state that allows this command.
    InvalidTdiState,
    /// The device certificate changed since it was last validated.
    DevCertChanged,
    /// The device state must be resynchronised.
    ResyncRequired,
    /// The response does not fit in the buffer provided.
    ResponseTooLarge,
    /// A status code not known to this crate, preserved verbatim.
    Unknown(u32),
}

/// The firmware status each `sev_ret_code` value names.
pub open spec fn firmware_error_of(code: u32) -> FirmwareError {
    match code {
        0x01 => FirmwareError::InvalidPlatformState,
        0x02 => FirmwareError::InvalidGuestState,
        0x03 => FirmwareError::InvalidConfig,
        0x04 => FirmwareError::InvalidLen,
        0x05 => FirmwareError::AlreadyOwned,
        0x06 => FirmwareError::InvalidCertificate,
        0x07 => FirmwareError::PolicyFailure,
        0x08 => FirmwareError::Inactive,
        0x09 => FirmwareError::InvalidAddress,
        0x0A => FirmwareError::BadSignature,
        0x0B => FirmwareError::BadMeasurement,
        0x0C => FirmwareError::AsidOwned,
        0x0D => FirmwareError::InvalidAsid,
        0x0E => FirmwareError::WbinvdRequired,
        0x0F => FirmwareError::DfFlushRequired,
        0x10 => FirmwareError::InvalidGuest,
        0x11 => FirmwareError::InvalidCommand,
        0x12 => FirmwareError::Active,
        0x13 => FirmwareError::HwPlatformError,
        0x14 => FirmwareError::HwUnsafe,
        0x15 => FirmwareError::Unsupported,
        0x16 => FirmwareError::InvalidParam,
        0x17 => FirmwareError::ResourceLimit,
        0x18 => FirmwareError::SecureDataInvalid,
        0x19 => FirmwareError::InvalidPageSize,
        0x1A => FirmwareError::InvalidPageState,
        0x1B => FirmwareError::InvalidMetadataEntry,
        0x1C => FirmwareError::InvalidPageOwner,
        0x1D => FirmwareError::AeadOverflow,
        0x1F => FirmwareError::ExitRingBuffer,
        0x20 => FirmwareError::RmpInitRequired,
        0x21 => FirmwareError::BadSvn,
        0x22 => FirmwareError::BadVersion,
        0x23 => FirmwareError::ShutdownRequired,
        0x24 => FirmwareError::UpdateFailed,
        0x25 => FirmwareError::RestoreRequired,
        0x26 => FirmwareError::RmpInitFailed,
        0x27 => FirmwareError::InvalidKey,
        0x28 => FirmwareError::ShutdownIncomplete,
        0x30 => FirmwareError::IncorrectBufferLength,
        0x31 => FirmwareError::ExpandBufferLengthRequest,
        0x32 => FirmwareError::SpdmRequest,
        0x33 => FirmwareError::SpdmError,
        0x35 => FirmwareError::ErrInDevConn,
        0x36 => FirmwareError::InvalidDevCtx,
        0x37 => FirmwareError::InvalidTdiCtx,
        0x38 => FirmwareError::InvalidTdi,
        0x39 => FirmwareError::ReclaimRequired,
        0x3A => FirmwareError::InUse,
        0x3B => FirmwareError::InvalidDevState,
        0x3C => FirmwareError::InvalidTdiState,
        0x3D => FirmwareError::DevCertChanged,
        0x3E => FirmwareError::ResyncRequired,
        0x3F => FirmwareError::ResponseTooLarge,
        other => FirmwareError::Unknown(other),
    }
}

impl FirmwareError {
    /// Interprets a raw firmware status code.
    pub fn from_raw(code: u32) -> (r: Self)
        ensures
            r == firmware_error_of(code),
    {
        match code {
            0x01 => Self::InvalidPlatformState,
            0x02 => Self::InvalidGuestState,
            0x03 => Self::InvalidConfig,
            0x04 => Self::InvalidLen,
            0x05 => Self::AlreadyOwned,
            0x06 => Self::InvalidCertificate,
            0x07 => Self::PolicyFailure,
            0x08 => Self::Inactive,
            0x09 => Self::InvalidAddress,
            0x0A => Self::BadSignature,
            0x0B => Self::BadMeasurement,
            0x0C => Self::AsidOwned,
            0x0D => Self::InvalidAsid,
            0x0E => Self::WbinvdRequired,
            0x0F => Self::DfFlushRequired,
            0x10 => Self::InvalidGuest,
            0x11 => Self::InvalidCommand,
            0x12 => Self::Active,
            0x13 => Self::HwPlatformError,
            0x14 => Self::HwUnsafe,
            0x15 => Self::Unsupported,
            0x16 => Self::InvalidParam,
            0x17 => Self::ResourceLimit,
            0x18 => Self::SecureDataInvalid,
            0x19 => Self::InvalidPageSize,
            0x1A => Self::InvalidPageState,
            0x1B => Self::InvalidMetadataEntry,
            0x1C => Self::InvalidPageOwner,
            0x1D => Self::AeadOverflow,
            0x1F => Self::ExitRingBuffer,
            0x20 => Self::RmpInitRequired,
            0x21 => Self::BadSvn,
            0x22 => Self::BadVersion,
            0x23 => Self::ShutdownRequired,
            0x24 => Self::UpdateFailed,
            0x25 => Self::RestoreRequired,
            0x26 => Self::RmpInitFailed,
            0x27 => Self::InvalidKey,
            0x28 => Self::ShutdownIncomplete,
            0x30 => Self::IncorrectBufferLength,
            0x31 => Self::ExpandBufferLengthRequest,
            0x32 => Self::SpdmRequest,
            0x33 => Self::SpdmError,
            0x35 => Self::ErrInDevConn,
            0x36 => Self::InvalidDevCtx,
            0x37 => Self::InvalidTdiCtx,
            0x38 => Self::InvalidTdi,
            0x39 => Self::ReclaimRequired,
            0x3A => Self::InUse,
            0x3B => Self::InvalidDevState,
            0x3C => Self::InvalidTdiState,
            0x3D => Self::DevCertChanged,
            0x3E => Self::ResyncRequired,
            0x3F => Self::ResponseTooLarge,
            other => Self::Unknown(other),
        }
    }
}

/// The `sev_ret_code` number `<linux/psp-sev.h>` gives each firmware status;
/// an unknown status carries its own number.
pub open spec fn sev_ret_code(e: FirmwareError) -> u32 {
    match e {
        FirmwareError::InvalidPlatformState => 0x01,
        FirmwareError::InvalidGuestState => 0x02,
        FirmwareError::InvalidConfig => 0x03,
        FirmwareError::InvalidLen => 0x04,
        FirmwareError::AlreadyOwned => 0x05,
        FirmwareError::InvalidCertificate => 0x06,
        FirmwareError::PolicyFailure => 0x07,
        FirmwareError::Inactive => 0x08,
        FirmwareError::InvalidAddress => 0x09,
        FirmwareError::BadSignature => 0x0A,
        FirmwareError::BadMeasurement => 0x0B,
        FirmwareError::AsidOwned => 0x0C,
        FirmwareError::InvalidAsid => 0x0D,
        FirmwareError::WbinvdRequired => 0x0E,
        FirmwareError::DfFlushRequired => 0x0F,
        FirmwareError::InvalidGuest => 0x10,
        FirmwareError::InvalidCommand => 0x11,
        FirmwareError::Active => 0x12,
        FirmwareError::HwPlatformError => 0x13,
        FirmwareError::HwUnsafe => 0x14,
        FirmwareError::Unsupported => 0x15,
        FirmwareError::InvalidParam => 0x16,
        FirmwareError::ResourceLimit => 0x17,
        FirmwareError::SecureDataInvalid => 0x18,
        FirmwareError::InvalidPageSize => 0x19,
        FirmwareError::InvalidPageState => 0x1A,
        FirmwareError::InvalidMetadataEntry => 0x1B,
        FirmwareError::InvalidPageOwner => 0x1C,
        FirmwareError::AeadOverflow => 0x1D,
        FirmwareError::ExitRingBuffer => 0x1F,
        FirmwareError::RmpInitRequired => 0x20,
        FirmwareError::BadSvn => 0x21,
        FirmwareError::BadVersion => 0x22,
        FirmwareError::ShutdownRequired => 0x23,
        FirmwareError::UpdateFailed => 0x24,
        FirmwareError::RestoreRequired => 0x25,
        FirmwareError::RmpInitFailed => 0x26,
        FirmwareError::InvalidKey => 0x27,
        FirmwareError::ShutdownIncomplete => 0x28,
        FirmwareError::IncorrectBufferLength => 0x30,
        FirmwareError::ExpandBufferLengthRequest => 0x31,
        FirmwareError::SpdmRequest => 0x32,
        FirmwareError::SpdmError => 0x33,
        FirmwareError::ErrInDevConn => 0x35,
        FirmwareError::InvalidDevCtx => 0x36,
        FirmwareError::InvalidTdiCtx => 0x37,
        FirmwareError::InvalidTdi => 0x38,
        FirmwareError::ReclaimRequired => 0x39,
        FirmwareError::InUse => 0x3A,
        FirmwareError::InvalidDevState => 0x3B,
        FirmwareError::InvalidTdiState => 0x3C,
        FirmwareError::DevCertChanged => 0x3D,
        FirmwareError::ResyncRequired => 0x3E,
        FirmwareError::ResponseTooLarge => 0x3F,
        FirmwareError::Unknown(c) => c,
    }
}

/// Interpreting a status code never loses it: the status a code is read as
/// carries that very code in the `sev_ret_code` table, so no two codes are
/// read as the same status, and every named status is read from exactly
/// its own code.
pub proof fn lemma_firmware_codes_follow_psp_sev(code: u32, e: FirmwareError)
    ensures
        sev_ret_code(firmware_error_of(code)) == code,
        !(e is Unknown) ==> firmware_error_of(sev_ret_code(e)) == e,
        !(e is Unknown) ==> (firmware_error_of(code) == e <==> code == sev_ret_code(e)),
{
}

/// A status code the firmware table does not name is kept verbatim, never
/// flattened into another status.
pub proof fn lemma_unknown_codes_preserved(code: u32)
    ensures
        firmware_error_of(code) matches FirmwareError::Unknown(c) ==> c == code,
        vmm_error_of(code) matches VmmError::Unknown(c) ==> c == code,
{
}

/// Errors raised by the hypervisor rather than the firmware.
///
/// Encoded in bits 63:32 of `EXITINFO2`.
#[derive(Debug, Clone, Copy, PartialEq, Eq, Structural)]
#[non_exhaustive]
pub enum VmmError {
    /// The certificate buffer supplied was too small; retry with a larger one.
    InvalidLen,
    /// The hypervisor is busy servicing another guest request; retry later.
    Busy,
    /// A code not known to this crate, preserved verbatim.
    Unknown(u32),
}

/// The hypervisor status each raw VMM code names.
pub open spec fn vmm_error_of(code: u32) -> VmmError {
    match code {
        1 => VmmError::InvalidLen,
        2 => VmmError::Busy,
        other => VmmError::Unknown(other),
    }
}

impl VmmError {
    /// Interprets a raw VMM status code.
    pub fn from_raw(code: u32) -> (r: Self)
        ensures
            r == vmm_error_of(code),
    {
        match code {
            1 => Self::InvalidLen,
            2 => Self::Busy,
            other => Self::Unknown(other),
        }
    }
}

/// A response did not match the layout this crate expects.
#[derive(Debug, Clone, PartialEq, Eq)]
#[non_exhaustive]
pub enum ParseError {
    /// A buffer was shorter than the structure it should contain.
    TooShort {
        /// What was being parsed.
        what: &'static str,
        /// Bytes required.
        need: usize,
        /// Bytes available.
        got: usize,
    },
    /// The attestation report announced a version this crate cannot parse.
    UnsupportedReportVersion(u32),
    /// A certificate table entry pointed outside the blob that contains it.
    CertTableOutOfBounds,
    /// A certificate blob was larger than any host may supply; it is refused
    /// before any of it is decoded. Carries the blob's length.
    CertTableTooLarge(usize),
}

/// The error, if any, that a raw `EXITINFO2` value reports: the hypervisor's
/// half (bits 63:32) takes precedence over the firmware's (bits 31:0).
pub open spec fn exitinfo2_error(exitinfo2: u64) -> Option<Error> {
    let fw = (exitinfo2 % 0x1_0000_0000) as u32;
    let vmm = (exitinfo2 / 0x1_0000_0000) as u32;
    if vmm == 0 && fw == 0 {
        None
    } else if vmm == 0 {
        Some(Error::Firmware(firmware_error_of(fw)))
    } else {
        Some(Error::Vmm(vmm_error_of(vmm)))
    }
}

/// Splits a raw `EXITINFO2` value into its VMM and firmware halves.
pub fn from_exitinfo2(exitinfo2: u64) -> (r: Option<Error>)
    ensures
        r == exitinfo2_error(exitinfo2),
{
    let fw = (exitinfo2 % 0x1_0000_0000) as u32;
    let vmm = (exitinfo2 / 0x1_0000_0000) as u32;
    if vmm == 0 && fw == 0 {
        None
    } else if vmm == 0 {
        Some(Error::Firmware(FirmwareError::from_raw(fw)))
    } else {
        Some(Error::Vmm(VmmError::from_raw(vmm)))
    }
}

/// What an I/O error's kind says about trying again.
#[derive(Debug, Clone, Copy, PartialEq, Eq, Structural)]
pub enum IoErrorClass {
    /// `ErrorKind::ResourceBusy` (`EBUSY`).
    ResourceBusy,
    /// `ErrorKind::WouldBlock` (`EAGAIN`).
    WouldBlock,
    /// `ErrorKind::Interrupted` (`EINTR`).
    Interrupted,
    /// Any other kind.
    Other,
}

/// Sorts an I/O error by `std::io::Error::kind`.
///
/// Trusted: the class is the kind the standard library reports for the error,
/// one arm per kind this crate distinguishes. Nothing is stated of the result,
/// since which kind an operating-system error maps to is the platform's choice.
#[verifier::external_body]
fn io_error_class(e: &std::io::Error) -> IoErrorClass {
    match e.kind() {
        std::io::ErrorKind::ResourceBusy => IoErrorClass::ResourceBusy,
        std::io::ErrorKind::WouldBlock => IoErrorClass::WouldBlock,
        std::io::ErrorKind::Interrupted => IoErrorClass::Interrupted,
        _ => IoErrorClass::Other,
    }
}

/// Whether an I/O error of this class is one the kernel expects the guest to
/// try again on.
pub fn io_class_is_transient(class: IoErrorClass) -> (r: bool)
    ensures
        r == (class != IoErrorClass::Other),
{
    match class {
        IoErrorClass::Other => false,
        _ => true,
    }
}

/// Whether an error is one the kernel expects the guest to try again on:
/// a race, a busy hypervisor, or an I/O error of a retryable class.
pub open spec fn transient(e: Error) -> bool {
    match e {
        Error::Raced => true,
        Error::Vmm(VmmError::Busy) => true,
        Error::Io(_, class) => class != IoErrorClass::Other,
        _ => false,
    }
}

/// Whether an error is one the kernel expects the guest to try again on.
///
/// [`Error::Raced`] is transient by definition, and the hypervisor raises
/// [`VmmError::Busy`] — surfacing as `EBUSY` or `EAGAIN` through configfs —
/// while it services another guest's request; an I/O error is transient when
/// its kind is `ResourceBusy`, `WouldBlock` or `Interrupted`. Nothing else is
/// retried: a [`Error::Mismatch`] in particular is a signal that something is
/// wrong, not an invitation to ask again.
pub fn is_transient(error: &Error) -> (r: bool)
    ensures
        r == transient(*error),
{
    match error {
        Error::Raced => true,
        Error::Vmm(VmmError::Busy) => true,
        Error::Io(_, class) => io_class_is_transient(*class),
        _ => false,
    }
}

/// The raw number of each hypervisor status: 1 for `InvalidLen`, 2 for
/// `Busy`; an unknown status carries its own number.
pub open spec fn vmm_status_code(e: VmmError) -> u32 {
    match e {
        VmmError::InvalidLen => 1,
        VmmError::Busy => 2,
        VmmError::Unknown(c) => c,
    }
}

/// Interpreting a hypervisor status code never loses it, and each named
/// status is read from exactly its own code.
pub proof fn lemma_vmm_codes_round_trip(code: u32, e: VmmError)
    ensures
        vmm_status_code(vmm_error_of(code)) == code,
        !(e is Unknown) ==> (vmm_error_of(code) == e <==> code == vmm_status_code(e)),
{
}

/// The cases in which an error is retried, stated per cause: a race, a busy
/// hypervisor, and an I/O error whose kind is `ResourceBusy`, `WouldBlock`
/// or `Interrupted` (`EBUSY`, `EAGAIN`, `EINTR`) — whatever the I/O error
/// itself is. Every other error, a mismatch or a firmware status among them,
/// is final.
pub proof fn lemma_transient_causes(e: Error, io: std::io::Error, class: IoErrorClass)
    ensures
        transient(Error::Raced),
        transient(Error::Vmm(VmmError::Busy)),
        transient(Error::Io(io, IoErrorClass::ResourceBusy)),
        transient(Error::Io(io, IoErrorClass::WouldBlock)),
        transient(Error::Io(io, IoErrorClass::Interrupted)),
        !transient(Error::Io(io, IoErrorClass::Other)),
        transient(Error::Io(io, class)) == io_class_retryable(class),
        !transient(Error::Mismatch),
        transient(e) ==> (e is Raced || e == Error::Vmm(VmmError::Busy) || e is Io),
        e is Firmware || e is Parse || e is InvalidArgument || e is Unsupported || e is NoBackend
            || e is WrongProvider ==> !transient(e),
{
}

/// Whether an I/O error class names one of the three retryable kinds.
pub open spec fn io_class_retryable(class: IoErrorClass) -> bool {
    ||| class == IoErrorClass::ResourceBusy
    ||| class == IoErrorClass::WouldBlock
    ||| class == IoErrorClass::Interrupted
}

/// The text of a firmware status: its name, or for an unknown code the code
/// in upper-case hexadecimal, at least two digits.
pub open spec fn firmware_error_text(e: FirmwareError) -> Seq<char> {
    match e {
        FirmwareError::InvalidPlatformState => "InvalidPlatformState"@,
        FirmwareError::InvalidGuestState => "InvalidGuestState"@,
        FirmwareError::InvalidConfig => "InvalidConfig"@,
        FirmwareError::InvalidLen => "InvalidLen"@,
        FirmwareError::AlreadyOwned => "AlreadyOwned"@,
        FirmwareError::InvalidCertificate => "InvalidCertificate"@,
        FirmwareError::PolicyFailure => "PolicyFailure"@,
        FirmwareError::Inactive => "Inactive"@,
        FirmwareError::InvalidAddress => "InvalidAddress"@,
        FirmwareError::BadSignature => "BadSignature"@,
        FirmwareError::BadMeasurement => "BadMeasurement"@,
        FirmwareError::AsidOwned => "AsidOwned"@,
        FirmwareError::InvalidAsid => "InvalidAsid"@,
        FirmwareError::WbinvdRequired => "WbinvdRequired"@,
        FirmwareError::DfFlushRequired => "DfFlushRequired"@,
        FirmwareError::InvalidGuest => "InvalidGuest"@,
        FirmwareError::InvalidCommand => "InvalidCommand"@,
        FirmwareError::Active => "Active"@,
        FirmwareError::HwPlatformError => "HwPlatformError"@,
        FirmwareError::HwUnsafe => "HwUnsafe"@,
        FirmwareError::Unsupported => "Unsupported"@,
        FirmwareError::InvalidParam => "InvalidParam"@,
        FirmwareError::ResourceLimit => "ResourceLimit"@,
        FirmwareError::SecureDataInvalid => "SecureDataInvalid"@,
        FirmwareError::InvalidPageSize => "InvalidPageSize"@,
        FirmwareError::InvalidPageState => "InvalidPageState"@,
        FirmwareError::InvalidMetadataEntry => "InvalidMetadataEntry"@,
        FirmwareError::InvalidPageOwner => "InvalidPageOwner"@,
        FirmwareError::AeadOverflow => "AeadOverflow"@,
        FirmwareError::ExitRingBuffer => "ExitRingBuffer"@,
        FirmwareError::RmpInitRequired => "RmpInitRequired"@,
        FirmwareError::BadSvn => "BadSvn"@,
        FirmwareError::BadVersion => "BadVersion"@,
        FirmwareError::ShutdownRequired => "ShutdownRequired"@,
        FirmwareError::UpdateFailed => "UpdateFailed"@,
        FirmwareError::RestoreRequired => "RestoreRequired"@,
        FirmwareError::RmpInitFailed => "RmpInitFailed"@,
        FirmwareError::InvalidKey => "InvalidKey"@,
        FirmwareError::ShutdownIncomplete => "ShutdownIncomplete"@,
        FirmwareError::IncorrectBufferLength => "IncorrectBufferLength"@,
        FirmwareError::ExpandBufferLengthRequest => "ExpandBufferLengthRequest"@,
        FirmwareError::SpdmRequest => "SpdmRequest"@,
        FirmwareError::SpdmError => "SpdmError"@,
        FirmwareError::ErrInDevConn => "ErrInDevConn"@,
        FirmwareError::InvalidDevCtx => "InvalidDevCtx"@,
        FirmwareError::InvalidTdiCtx => "InvalidTdiCtx"@,
        FirmwareError::InvalidTdi => "InvalidTdi"@,
        FirmwareError::ReclaimRequired => "ReclaimRequired"@,
        FirmwareError::InUse => "InUse"@,
        FirmwareError::InvalidDevState => "InvalidDevState"@,
        FirmwareError::InvalidTdiState => "InvalidTdiState"@,
        FirmwareError::DevCertChanged => "DevCertChanged"@,
        FirmwareError::ResyncRequired => "ResyncRequired"@,
        FirmwareError::ResponseTooLarge => "ResponseTooLarge"@,
        FirmwareError::Unknown(c) => "unknown firmware status 0x"@ + zero_padded(
            hex_text(c as nat, true),
            2,
        ),
    }
}

/// The name of a status this crate knows.
fn firmware_error_name(e: FirmwareError) -> (r: &'static str)
    requires
        !(e is Unknown),
    ensures
        r@ == firmware_error_text(e),
{
    match e {
            FirmwareError::InvalidPlatformState => "InvalidPlatformState",
            FirmwareError::InvalidGuestState => "InvalidGuestState",
            FirmwareError::InvalidConfig => "InvalidConfig",
            FirmwareError::InvalidLen => "InvalidLen",
            FirmwareError::AlreadyOwned => "AlreadyOwned",
            FirmwareError::InvalidCertificate => "InvalidCertificate",
            FirmwareError::PolicyFailure => "PolicyFailure",
            FirmwareError::Inactive => "Inactive",
            FirmwareError::InvalidAddress => "InvalidAddress",
            FirmwareError::BadSignature => "BadSignature",
            FirmwareError::BadMeasurement => "BadMeasurement",
            FirmwareError::AsidOwned => "AsidOwned",
            FirmwareError::InvalidAsid => "InvalidAsid",
            FirmwareError::WbinvdRequired => "WbinvdRequired",
            FirmwareError::DfFlushRequired => "DfFlushRequired",
            FirmwareError::InvalidGuest => "InvalidGuest",
            FirmwareError::InvalidCommand => "InvalidCommand",
            FirmwareError::Active => "Active",
            FirmwareError::HwPlatformError => "HwPlatformError",
            FirmwareError::HwUnsafe => "HwUnsafe",
            FirmwareError::Unsupported => "Unsupported",
            FirmwareError::InvalidParam => "InvalidParam",
            FirmwareError::ResourceLimit => "ResourceLimit",
            FirmwareError::SecureDataInvalid => "SecureDataInvalid",
            FirmwareError::InvalidPageSize => "InvalidPageSize",
            FirmwareError::InvalidPageState => "InvalidPageState",
            FirmwareError::InvalidMetadataEntry => "InvalidMetadataEntry",
            FirmwareError::InvalidPageOwner => "InvalidPageOwner",
            FirmwareError::AeadOverflow => "AeadOverflow",
            FirmwareError::ExitRingBuffer => "ExitRingBuffer",
            FirmwareError::RmpInitRequired => "RmpInitRequired",
            FirmwareError::BadSvn => "BadSvn",
            FirmwareError::BadVersion => "BadVersion",
            FirmwareError::ShutdownRequired => "ShutdownRequired",
            FirmwareError::UpdateFailed => "UpdateFailed",
            FirmwareError::RestoreRequired => "RestoreRequired",
            FirmwareError::RmpInitFailed => "RmpInitFailed",
            FirmwareError::InvalidKey => "InvalidKey",
            FirmwareError::ShutdownIncomplete => "ShutdownIncomplete",
            FirmwareError::IncorrectBufferLength => "IncorrectBufferLength",
            FirmwareError::ExpandBufferLengthRequest => "ExpandBufferLengthRequest",
            FirmwareError::SpdmRequest => "SpdmRequest",
            FirmwareError::SpdmError => "SpdmError",
            FirmwareError::ErrInDevConn => "ErrInDevConn",
            FirmwareError::InvalidDevCtx => "InvalidDevCtx",
            FirmwareError::InvalidTdiCtx => "InvalidTdiCtx",
            FirmwareError::InvalidTdi => "InvalidTdi",
            FirmwareError::ReclaimRequired => "ReclaimRequired",
            FirmwareError::InUse => "InUse",
            FirmwareError::InvalidDevState => "InvalidDevState",
            FirmwareError::InvalidTdiState => "InvalidTdiState",
            FirmwareError::DevCertChanged => "DevCertChanged",
            FirmwareError::ResyncRequired => "ResyncRequired",
            FirmwareError::ResponseTooLarge => "ResponseTooLarge",
        FirmwareError::Unknown(_) => "",
    }
}

impl FirmwareError {
    /// A human-readable description: the status's name, or its code when
    /// this crate does not know it.
    pub fn to_string(&self) -> (r: String)
        ensures
            r@ == firmware_error_text(*self),
    {
        match self {
            FirmwareError::Unknown(c) => {
                let mut s = text("unknown firmware status 0x");
                push_hex_padded(&mut s, *c as u64, 2, true);
                s
            },
            other => text(firmware_error_name(*other)),
        }
    }
}

/// The text of a hypervisor status.
pub open spec fn vmm_error_text(e: VmmError) -> Seq<char> {
    match e {
        VmmError::InvalidLen => "certificate buffer too small"@,
        VmmError::Busy => "hypervisor busy, retry"@,
        VmmError::Unknown(c) => "unknown VMM status "@ + dec_text(c as nat),
    }
}

impl VmmError {
    /// A human-readable description.
    pub fn to_string(&self) -> (r: String)
        ensures
            r@ == vmm_error_text(*self),
    {
        match self {
            VmmError::InvalidLen => text("certificate buffer too small"),
            VmmError::Busy => text("hypervisor busy, retry"),
            VmmError::Unknown(c) => {
                let mut s = text("unknown VMM status ");
                push_dec(&mut s, *c as u64);
                s
            },
        }
    }
}

/// The text of a parse error.
pub open spec fn parse_error_text(e: ParseError) -> Seq<char> {
    match e {
        ParseError::TooShort { what, need, got } => what@ + " needs "@ + dec_text(need as nat)
            + " bytes, got "@ + dec_text(got as nat),
        ParseError::UnsupportedReportVersion(v) => "attestation report version "@ + dec_text(
            v as nat,
        ) + " is not supported"@,
        ParseError::CertTableOutOfBounds => "certificate table entry points outside the blob"@,
        ParseError::CertTableTooLarge(len) => "certificate blob of "@ + dec_text(len as nat)
            + " bytes exceeds what a host may supply"@,
    }
}

impl ParseError {
    /// A human-readable description.
    pub fn to_string(&self) -> (r: String)
        ensures
            r@ == parse_error_text(*self),
    {
        match self {
            ParseError::TooShort { what, need, got } => {
                let mut s = text(what);
                s.append(" needs ");
                push_dec(&mut s, *need as u64);
                s.append(" bytes, got ");
                push_dec(&mut s, *got as u64);
                s
            },
            ParseError::UnsupportedReportVersion(v) => {
                let mut s = text("attestation report version ");
                push_dec(&mut s, *v as u64);
                s.append(" is not supported");
                s
            },
            ParseError::CertTableOutOfBounds => text(
                "certificate table entry points outside the blob",
            ),
            ParseError::CertTableTooLarge(len) => {
                let mut s = text("certificate blob of ");
                push_dec(&mut s, *len as u64);
                s.append(" bytes exceeds what a host may supply");
                s
            },
        }
    }
}

/// The text of an error, for every error but an I/O one, whose text the
/// operating system supplies.
pub open spec fn error_text(e: Error) -> Seq<char> {
    match e {
        Error::NoBackend => "no SEV-SNP guest interface available (need /dev/sev-guest or configfs-TSM)"@,
        Error::Unsupported(what) => "unsupported by this backend: "@ + what@,
        Error::InvalidArgument(what) => "invalid argument: "@ + what@,
        Error::Firmware(e) => "firmware error: "@ + firmware_error_text(e),
        Error::Vmm(e) => "hypervisor error: "@ + vmm_error_text(e),
        Error::Parse(e) => "malformed response: "@ + parse_error_text(e),
        Error::Raced => "concurrent writer detected on configfs report entry"@,
        Error::Mismatch => "response does not answer the request that was made"@,
        Error::WrongProvider => "configfs-TSM is served by a provider other than sev_guest"@,
        Error::Io(_, _) => "io error: "@,
    }
}

impl Error {
    /// A human-readable description. An I/O error's text is `io error: `
    /// followed by what the standard library says of it.
    pub fn to_string(&self) -> (r: String)
        ensures
            !(self is Io) ==> r@ == error_text(*self),
            self is Io ==> r@.subrange(0, error_text(*self).len() as int) == error_text(*self),
    {
        match self {
            Error::NoBackend => text(
                "no SEV-SNP guest interface available (need /dev/sev-guest or configfs-TSM)",
            ),
            Error::Unsupported(what) => {
                let mut s = text("unsupported by this backend: ");
                s.append(what);
                s
            },
            Error::InvalidArgument(what) => {
                let mut s = text("invalid argument: ");
                s.append(what);
                s
            },
            Error::Firmware(e) => {
                let mut s = text("firmware error: ");
                s.append(e.to_string().as_str());
                s
            },
            Error::Vmm(e) => {
                let mut s = text("hypervisor error: ");
                s.append(e.to_string().as_str());
                s
            },
            Error::Parse(e) => {
                let mut s = text("malformed response: ");
                s.append(e.to_string().as_str());
                s
            },
            Error::Raced => text("concurrent writer detected on configfs report entry"),
            Error::Mismatch => text("response does not answer the request that was made"),
            Error::WrongProvider => text(
                "configfs-TSM is served by a provider other than sev_guest",
            ),
            Error::Io(e, _) => {
                let mut s = text("io error: ");
                let detail = e.to_string();
                s.append(detail.as_str());
                proof {
                    reveal_strlit("io error: ");
                }
                assert(s@.subrange(0, 10) =~= "io error: "@);
                s
            },
        }
    }
}


} // verus!
