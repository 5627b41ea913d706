//! The SEV-SNP guest API: attestation reports, endorsement certificates,
//! derived keys and capability detection.
//!
//! Inside an SEV-SNP virtual machine, the AMD secure processor will sign
//! statements about the VM and derive keys that never leave the chip. This
//! crate holds everything about that interface that is a matter of bytes and
//! rules: the attestation report layout and the bitfields and TCB encodings
//! inside it, the certificate table returned with an extended report, key
//! derivation requests, the wire formats the kernel expects, and the decisions
//! taken on what the kernel answers — firmware and hypervisor status codes,
//! the configfs generation counter, the check that a report answers the
//! request that produced it, and the bounded retry schedule. The system calls
//! are made by the caller, who hands their results to these functions.
//!
//! # Portability across Zen 3, Zen 4 and Zen 5
//!
//! - **Report version.** Reports are always [`AttestationReport::SIZE`] bytes;
//!   newer revisions only claim space older ones reserved. Fields introduced
//!   later — [`cpuid_fms`](AttestationReport::cpuid_fms) in version 3,
//!   [`launch_mit_vector`](AttestationReport::launch_mit_vector) in version 5 —
//!   return `Option`.
//! - **TCB version layout.** [`TcbVersion`] means different things on different
//!   processors: Zen 5 inserts an FMC security version number that Zen 3 and
//!   Zen 4 do not have. The raw value is always preserved, and
//!   [`TcbVersion::decode`] splits it correctly for a given [`Product`].
//!
//! # Trust boundary
//!
//! A report is only evidence once its signature has been checked against AMD's
//! certificate chain. This crate performs no cryptographic verification. What
//! it does check: that a response answers *this* request (the echoed
//! `REPORT_DATA` and privilege level, else [`Error::Mismatch`]); that a
//! configfs-TSM provider is really `sev_guest` (else [`Error::WrongProvider`]);
//! that a report's version is bounded above as well as below; and that a
//! host-supplied certificate blob is bounded in size, and so in entry count,
//! before any of it is decoded.

use vstd::prelude::*;

pub mod backend;
pub mod bytes;
pub mod certs;
pub mod detect;
pub mod error;
pub mod key;
pub mod policy;
pub mod report;
pub mod retry;
pub mod tcb;

pub use backend::{ReportRequest, Transport};
pub use certs::{CertKind, CertTable, Certificate, ExtendedReport};
pub use detect::Capabilities;
pub use error::{Error, FirmwareError, ParseError, Result, VmmError};
pub use key::{DerivedKey, KeyFields, KeyRequest, RootKey};
pub use policy::{GuestPolicy, PlatformInfo, SignatureAlgo, SignerInfo, SigningKey};
pub use report::{AttestationReport, EcdsaP384Signature, FirmwareVersion};
pub use tcb::{Fms, Product, TcbLayout, TcbParts, TcbVersion};
pub mod text;
