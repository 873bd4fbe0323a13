//! A verified core for talking to NVMe devices through the Linux `libnvme`
//! library.
//!
//! `libnvme` is the userspace library that backs `nvme-cli`. This crate holds the
//! part of a binding that decides and encodes: which requests are refused and
//! why, how an accepted request is laid out for the device, what a return value
//! means, and how the data that comes back is decoded. It makes no system call;
//! the code around it hands the commands to libnvme and the results back.
//!
//! ```text
//! Root -> Host -> Subsystem -> Controller -> Namespace
//! ```
//!
//! - [`io`], [`zns`], [`reservations`], [`directives`], [`namespace`] and
//!   [`commands`]: builders for the commands, whose `execute` checks the request
//!   and returns the command to issue.
//! - [`fabrics`]: NVMe over Fabrics connections and the discovery log.
//! - [`identify`]: the Identify data structures.
//! - [`root`], [`host`], [`subsystem`], [`path`] and [`tree`]: the handle tree.
//! - [`error`]: errors, and what libnvme's return values mean.
//! - [`text`], [`util`] and [`wire`]: texts, fields and byte layouts.
//! - [`laws`]: what holds of the calls, proved from their contracts.

pub mod admin;
pub mod commands;
pub mod directives;
pub mod error;
pub mod fabrics;
pub mod host;
pub mod identify;
pub mod io;
pub mod laws;
pub mod namespace;
pub mod path;
pub mod reservations;
pub mod root;
pub mod subsystem;
pub mod text;
pub mod tree;
pub mod util;
pub mod wire;
pub mod zns;

pub use admin::{
    FeatureSelect, FirmwareAction, MetadataSettings, ProtectionInfo, ProtectionLocation,
    SanitizeAction, SecureErase, SelfTestAction,
};
pub use commands::{Controller, GetLbaStatusArgs, LockdownArgs, PassthruArgs, Sanitize};
pub use directives::{
    DirectiveRecv, DirectiveRecvOp, DirectiveSend, DirectiveSendOp, DirectiveType,
};
pub use error::{Error, Result};
pub use fabrics::{Connect, DiscoveryLog, DiscoveryLogEntry, Transport};
pub use host::{Host, Hosts};
pub use identify::{IdentifyController, IdentifyNamespace, LbaFormat, NvmeVersion};
pub use io::{
    Compare, CopyRange, Dsm, DsmAttr, DsmRange, Read, Verify, Write, WriteUncorrectable,
    WriteZeroes,
};
pub use namespace::{Format, Namespace, Namespaces};
pub use path::{Path, Paths};
pub use reservations::{
    PtplChange, ReservationAcquire, ReservationAcquireAction, ReservationRegister,
    ReservationRegisterAction, ReservationRelease, ReservationReleaseAction, ReservationReport,
    ReservationType,
};
pub use root::Root;
pub use subsystem::{Subsystem, Subsystems};
pub use zns::{
    ZnsAppend, ZnsMgmtRecv, ZnsMgmtSend, ZoneRecvAction, ZoneReportFilter, ZoneSendAction,
};
