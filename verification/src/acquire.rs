//! The device-acquisition orchestrator.
//!
//! Acquisition always walks the same states — unopened, control channel
//! open, configured, ready — but each backend fills them differently.  The
//! functions here are the decision points of that walk: each takes the
//! configuration and the outcome of the previous system call (a descriptor
//! or a raw error code) and returns either the next step to perform or a
//! [`Failure`] that says which error to surface and which descriptor must
//! be closed first, so that no failure path leaks a descriptor.
//!
//! * Ioctl-attach backend: open the fixed multiplexer node
//!   ([`mux_path`]), issue the attach call ([`AttachStep`]), read the
//!   kernel-rewritten name out of the returned record.
//! * Path-based backend: derive the device node's name from the
//!   configuration — the candidate name is final here — and open it; no
//!   control call follows.
//! * Control-socket backend: create the control socket, look the utun
//!   family id up, connect to the family-and-unit address
//!   ([`ConnectStep`]), set the descriptor flags, and ask the kernel for
//!   the name it assigned.

use crate::error::{classified_open_error, classify_open_errno, AcquisitionError, ConfigurationError};
use crate::control;
use crate::name;
use crate::request;
use crate::wire;
use crate::Mode;
use crate::OpenOptions;
use vstd::prelude::*;

verus! {

/// The three per-operating-system acquisition protocols.  The right one is
/// fixed once per target when the surrounding program is built; nothing
/// selects it at run time.
#[derive(Clone, Copy, Debug, PartialEq, Eq, Structural)]
pub enum Backend {
    /// A shared multiplexer node plus an attach control call
    /// (Linux-style).
    IoctlAttach,
    /// One device node per device, opened directly (OpenBSD-style).
    PathBased,
    /// A kernel control socket connected to the utun family
    /// (macOS-style).
    ControlSocket,
}

/// How the control channel is to be opened: the read/write/non-blocking
/// intents of the configuration, applied with the target's native
/// file-status flags.
#[derive(Clone, Copy, Debug, PartialEq, Eq, Structural)]
pub struct FileIntent {
    /// Open readable.
    pub read: bool,
    /// Open writable.
    pub write: bool,
    /// Open non-blocking.
    pub nonblock: bool,
}

/// The open intents a configuration asks for.
pub open spec fn spec_intent(c: OpenOptions) -> FileIntent {
    FileIntent { read: c.read, write: c.write, nonblock: c.nonblock }
}

/// A failed acquisition step: the error to return to the caller, and the
/// descriptor that must be closed before returning — `None` when no
/// channel had been opened yet.
#[derive(Clone, Copy, Debug, PartialEq, Eq)]
pub struct Failure {
    /// The descriptor the driver still has to close.
    pub close_fd: Option<i32>,
    /// Why the acquisition was aborted.
    pub error: AcquisitionError,
}

/// A successful acquisition: the device descriptor, now owned by the
/// caller, and the resolved interface name.
#[derive(Debug)]
pub struct Resolved {
    /// The open device descriptor.
    pub fd: i32,
    /// The name the device actually carries.
    pub name: String,
}

/// The first step of an acquisition, as decided from the configuration
/// alone.
#[derive(Debug)]
pub enum FirstStep {
    /// Open the shared multiplexer node ([`mux_path`]) with these
    /// intents.
    OpenMux {
        /// How to open it.
        intent: FileIntent,
    },
    /// Open the device node `"/dev/" + name` with these intents.
    OpenPath {
        /// The node's file name, which is also the final device name.
        name: String,
        /// How to open it.
        intent: FileIntent,
    },
    /// Create a kernel control socket and connect it to this unit.
    OpenControlSocket {
        /// The unit number to put into the control address.
        unit: u32,
    },
}

/// The fixed multiplexer node of the ioctl-attach backend.
pub fn mux_path() -> (r: &'static str)
    ensures
        r@ == "/dev/net/tun"@,
{
    "/dev/net/tun"
}

/// The directory that holds the device nodes of the path-based backend.
pub fn device_path_prefix() -> (r: &'static str)
    ensures
        r@ == "/dev/"@,
{
    "/dev/"
}

/// Reads the configured open intents.
pub fn intent_of(config: &OpenOptions) -> (r: FileIntent)
    ensures
        r == spec_intent(*config),
{
    FileIntent { read: config.read, write: config.write, nonblock: config.nonblock }
}

/// Decides the first step of an acquisition, or rejects the configuration
/// without touching the system.
///
/// * The ioctl-attach backend accepts every configuration: a missing
///   number means the kernel auto-assigns a name.
/// * The path-based backend requires a number — there is no node to open
///   without one — and never reaches a filesystem open when it is absent.
/// * The control-socket backend supports no TAP devices, and requires a
///   number to identify the control unit; it creates no socket when it
///   rejects the configuration.
pub fn start(backend: Backend, config: &OpenOptions) -> (r: Result<FirstStep, AcquisitionError>)
    ensures
        match backend {
            Backend::IoctlAttach => r matches Ok(FirstStep::OpenMux { intent }) && intent
                == spec_intent(*config),
            Backend::PathBased => match config.number {
                None => r == Result::<FirstStep, AcquisitionError>::Err(
                    AcquisitionError::Configuration(ConfigurationError::NumberRequired),
                ),
                Some(n) => r matches Ok(FirstStep::OpenPath { name, intent }) && name@
                    == name::device_name_chars(config.mode, n as nat) && intent == spec_intent(
                    *config,
                ),
            },
            Backend::ControlSocket => {
                if config.mode == Mode::Tap {
                    r == Result::<FirstStep, AcquisitionError>::Err(
                        AcquisitionError::Configuration(ConfigurationError::ModeUnsupported),
                    )
                } else {
                    match config.number {
                        None => r == Result::<FirstStep, AcquisitionError>::Err(
                            AcquisitionError::Configuration(ConfigurationError::NumberRequired),
                        ),
                        Some(n) => r matches Ok(FirstStep::OpenControlSocket { unit }) && unit == n
                            + 1,
                    }
                }
            },
        },
{
    match backend {
        Backend::IoctlAttach => Ok(FirstStep::OpenMux { intent: intent_of(config) }),
        Backend::PathBased => match config.device_name() {
            None => Err(AcquisitionError::Configuration(ConfigurationError::NumberRequired)),
            Some(name) => Ok(FirstStep::OpenPath { name, intent: intent_of(config) }),
        },
        Backend::ControlSocket => match config.mode {
            Mode::Tap => Err(AcquisitionError::Configuration(ConfigurationError::ModeUnsupported)),
            Mode::Tun => match config.number {
                None => Err(AcquisitionError::Configuration(ConfigurationError::NumberRequired)),
                Some(n) => Ok(FirstStep::OpenControlSocket { unit: control::requested_unit(n) }),
            },
        },
    }
}

/// The attach control call of the ioctl-attach backend: issue the code on
/// the descriptor, handing the kernel the encoded request record.
#[derive(Debug)]
pub struct AttachStep {
    /// The opened multiplexer descriptor.
    pub fd: i32,
    /// The control-call code to issue ([`request::tunsetiff_code`]).
    pub code: u32,
    /// The request record to pass.
    pub request: request::Request,
}

/// The name field the attach request carries: the candidate name's bytes
/// zero-padded to the field width, or all zeros when the kernel is to
/// auto-assign.
pub open spec fn spec_attach_name_field(c: OpenOptions) -> Seq<u8> {
    match c.number {
        None => Seq::new(request::NAME_FIELD_WIDTH as nat, |i: int| 0u8),
        Some(n) => {
            let b = name::ascii_bytes(name::device_name_chars(c.mode, n as nat));
            b + Seq::new((request::NAME_FIELD_WIDTH - b.len()) as nat, |i: int| 0u8)
        },
    }
}

/// Continues the ioctl-attach acquisition after the multiplexer open:
/// a failure is classified and nothing needs closing; a descriptor leads
/// to the attach step, whose record carries the candidate name and the
/// flags the configuration asks for.
pub fn ioctl_on_open(config: &OpenOptions, opened: Result<i32, i32>) -> (r: Result<
    AttachStep,
    Failure,
>)
    ensures
        match opened {
            Err(e) => r matches Err(f) && f == (Failure {
                close_fd: None,
                error: AcquisitionError::ChannelOpen(classified_open_error(e)),
            }),
            Ok(fd) => r matches Ok(step) && step.fd == fd && step.code == request::spec_ioctl_code(
                1,
                84,
                202,
                4,
            ) && step.request.wf() && step.request.flags == request::spec_tun_flags(
                config.mode,
                config.packet_info,
            ) && step.request.name@ == spec_attach_name_field(*config),
        },
{
    match opened {
        Err(e) => Err(
            Failure {
                close_fd: None,
                error: AcquisitionError::ChannelOpen(classify_open_errno(e)),
            },
        ),
        Ok(fd) => {
            let flags = request::tun_flags(config.mode, config.packet_info);
            let device_name = config.device_name();
            proof {
                if config.number is Some {
                    name::lemma_device_name_ascii(config.mode, config.number->Some_0 as nat);
                }
            }
            let req = request::Request::with_flags(device_name, flags);
            proof {
                assert(req.name@ =~= spec_attach_name_field(*config));
            }
            Ok(AttachStep { fd, code: request::tunsetiff_code(), request: req })
        },
    }
}

/// Finishes the ioctl-attach acquisition: on a failed attach call the
/// descriptor is closed and the raw code preserved; on success the name
/// field of the record the kernel handed back — possibly rewritten — is
/// decoded, and bytes that are not text abort the acquisition instead of
/// being masked.
pub fn ioctl_on_attach(fd: i32, outcome: Result<Vec<u8>, i32>) -> (r: Result<Resolved, Failure>)
    requires
        outcome matches Ok(record) ==> record@.len() >= request::NAME_FIELD_WIDTH,
    ensures
        match outcome {
            Err(e) => r matches Err(f) && f == (Failure {
                close_fd: Some(fd),
                error: AcquisitionError::ControlCall(e),
            }),
            Ok(record) => {
                let text = wire::field_text(record@.take(request::NAME_FIELD_WIDTH as int));
                if wire::ascii_text(text) {
                    r matches Ok(res) && res.fd == fd && res.name@ == wire::text_chars(text)
                } else {
                    r matches Err(f) && f == (Failure {
                        close_fd: Some(fd),
                        error: AcquisitionError::NameDecode,
                    })
                }
            },
        },
{
    match outcome {
        Err(e) => Err(Failure { close_fd: Some(fd), error: AcquisitionError::ControlCall(e) }),
        Ok(record) => match request::decode_name(&record) {
            Ok(resolved) => Ok(Resolved { fd, name: resolved }),
            Err(e) => Err(Failure { close_fd: Some(fd), error: e }),
        },
    }
}

/// Finishes the path-based acquisition: the candidate name is the final
/// name, so a descriptor resolves to it directly; a failure is classified
/// and nothing needs closing.
pub fn path_on_open(name: String, opened: Result<i32, i32>) -> (r: Result<Resolved, Failure>)
    ensures
        match opened {
            Ok(fd) => r matches Ok(res) && res.fd == fd && res.name@ == name@,
            Err(e) => r matches Err(f) && f == (Failure {
                close_fd: None,
                error: AcquisitionError::ChannelOpen(classified_open_error(e)),
            }),
        },
{
    match opened {
        Ok(fd) => Ok(Resolved { fd, name }),
        Err(e) => Err(
            Failure {
                close_fd: None,
                error: AcquisitionError::ChannelOpen(classify_open_errno(e)),
            },
        ),
    }
}

/// Continues the control-socket acquisition after the socket creation:
/// a failure is classified and nothing needs closing.
pub fn control_on_socket(created: Result<i32, i32>) -> (r: Result<i32, Failure>)
    ensures
        match created {
            Ok(fd) => r == Result::<i32, Failure>::Ok(fd),
            Err(e) => r matches Err(f) && f == (Failure {
                close_fd: None,
                error: AcquisitionError::ChannelOpen(classified_open_error(e)),
            }),
        },
{
    match created {
        Ok(fd) => Ok(fd),
        Err(e) => Err(
            Failure {
                close_fd: None,
                error: AcquisitionError::ChannelOpen(classify_open_errno(e)),
            },
        ),
    }
}

/// The connect call of the control-socket backend: connect the socket to
/// the encoded control address.
#[derive(Debug)]
pub struct ConnectStep {
    /// The control socket.
    pub fd: i32,
    /// The encoded control address ([`control::control_address_bytes`]).
    pub address: Vec<u8>,
}

/// Continues the control-socket acquisition after the family-info call:
/// the reported family id and the requested unit form the control address
/// to connect to; on failure the socket is closed and the raw code
/// preserved.
pub fn control_on_info(fd: i32, unit: u32, outcome: Result<u32, i32>) -> (r: Result<
    ConnectStep,
    Failure,
>)
    ensures
        match outcome {
            Ok(id) => r matches Ok(step) && step.fd == fd && step.address@
                == control::control_address_bytes(id, unit) && step.address@.len()
                == control::CONTROL_ADDRESS_LEN,
            Err(e) => r matches Err(f) && f == (Failure {
                close_fd: Some(fd),
                error: AcquisitionError::ControlCall(e),
            }),
        },
{
    match outcome {
        Ok(id) => Ok(ConnectStep { fd, address: control::control_address(id, unit) }),
        Err(e) => Err(Failure { close_fd: Some(fd), error: AcquisitionError::ControlCall(e) }),
    }
}

/// Interprets a configuration call on the already connected control
/// socket — the connect itself or a descriptor-flag call: any failure
/// closes the socket and preserves the raw code.
pub fn control_on_call(fd: i32, errno: Option<i32>) -> (r: Result<(), Failure>)
    ensures
        match errno {
            None => r is Ok,
            Some(e) => r matches Err(f) && f == (Failure {
                close_fd: Some(fd),
                error: AcquisitionError::ControlCall(e),
            }),
        },
{
    match errno {
        None => Ok(()),
        Some(e) => Err(Failure { close_fd: Some(fd), error: AcquisitionError::ControlCall(e) }),
    }
}

/// Finishes the control-socket acquisition: the kernel's answer to the
/// name query is a zero-terminated text field holding the name it
/// assigned, which may differ from the requested unit's literal
/// concatenation; a failed query or non-text bytes close the socket.
pub fn control_on_name(fd: i32, outcome: Result<Vec<u8>, i32>) -> (r: Result<Resolved, Failure>)
    ensures
        match outcome {
            Err(e) => r matches Err(f) && f == (Failure {
                close_fd: Some(fd),
                error: AcquisitionError::ControlCall(e),
            }),
            Ok(buf) => {
                let text = wire::field_text(buf@);
                if wire::ascii_text(text) {
                    r matches Ok(res) && res.fd == fd && res.name@ == wire::text_chars(text)
                } else {
                    r matches Err(f) && f == (Failure {
                        close_fd: Some(fd),
                        error: AcquisitionError::NameDecode,
                    })
                }
            },
        },
{
    match outcome {
        Err(e) => Err(Failure { close_fd: Some(fd), error: AcquisitionError::ControlCall(e) }),
        Ok(buf) => {
            proof {
                assert(buf@.take(buf@.len() as int) =~= buf@);
            }
            match wire::decode_text_field(&buf, buf.len()) {
                Ok(resolved) => Ok(Resolved { fd, name: resolved }),
                Err(_) => Err(Failure { close_fd: Some(fd), error: AcquisitionError::NameDecode }),
            }
        },
    }
}

} // verus!
