//! The acquisition walk of each backend, driven with recorded system-call
//! outcomes.

use utuntap::acquire::{self, Backend, FirstStep};
use utuntap::error::{classify_open_errno, AcquisitionError, ChannelOpenError, ConfigurationError};
use utuntap::OpenOptions;
use utuntap::Mode;

const ENOENT: i32 = 2;
const EACCES: i32 = 13;
const EPERM: i32 = 1;
const EBUSY: i32 = 16;

#[test]
fn path_backend_requires_number() {
    let options = OpenOptions::new();
    let step = acquire::start(Backend::PathBased, &options);
    match step {
        Err(e) => assert_eq!(
            e,
            AcquisitionError::Configuration(ConfigurationError::NumberRequired)
        ),
        Ok(_) => panic!("a configuration without a number must be rejected"),
    }
}

#[test]
fn path_backend_opens_candidate_name() {
    let mut options = OpenOptions::new();
    options.number(7);
    options.nonblock(true);
    match acquire::start(Backend::PathBased, &options) {
        Ok(FirstStep::OpenPath { name, intent }) => {
            assert_eq!(name, "tun7");
            assert!(intent.read);
            assert!(intent.write);
            assert!(intent.nonblock);
        }
        _ => panic!("expected a path open step"),
    }
}

#[test]
fn control_backend_rejects_tap() {
    let mut options = OpenOptions::new();
    options.mode(Mode::Tap);
    options.number(3);
    match acquire::start(Backend::ControlSocket, &options) {
        Err(e) => assert_eq!(
            e,
            AcquisitionError::Configuration(ConfigurationError::ModeUnsupported)
        ),
        Ok(_) => panic!("tap mode must be rejected before any socket exists"),
    }
}

#[test]
fn control_backend_requires_number() {
    let options = OpenOptions::new();
    match acquire::start(Backend::ControlSocket, &options) {
        Err(e) => assert_eq!(
            e,
            AcquisitionError::Configuration(ConfigurationError::NumberRequired)
        ),
        Ok(_) => panic!("a configuration without a number must be rejected"),
    }
}

#[test]
fn control_backend_unit_shift() {
    let mut options = OpenOptions::new();
    options.number(10);
    match acquire::start(Backend::ControlSocket, &options) {
        Ok(FirstStep::OpenControlSocket { unit }) => assert_eq!(unit, 11),
        _ => panic!("expected a control-socket step"),
    }
}

#[test]
fn ioctl_backend_accepts_missing_number() {
    let options = OpenOptions::new();
    match acquire::start(Backend::IoctlAttach, &options) {
        Ok(FirstStep::OpenMux { intent }) => {
            assert!(intent.read && intent.write && !intent.nonblock);
        }
        _ => panic!("expected a multiplexer open step"),
    }
}

#[test]
fn ioctl_walk_resolves_requested_name() {
    // Open tun device number 10 without packet info and walk the whole
    // ioctl-attach exchange with recorded kernel answers.
    let mut options = OpenOptions::new();
    options.number(10);
    options.packet_info(false);
    assert!(matches!(
        acquire::start(Backend::IoctlAttach, &options),
        Ok(FirstStep::OpenMux { .. })
    ));

    let step = acquire::ioctl_on_open(&options, Ok(7)).expect("open succeeded");
    assert_eq!(step.fd, 7);
    assert_eq!(step.code, 0x400454CA);
    assert_eq!(step.request.flags, 0x1001);
    assert_eq!(&step.request.name[..6], b"tun10\0");

    // The kernel returns the record with the name field it settled on.
    let record = step.request.encode();
    let resolved = acquire::ioctl_on_attach(7, Ok(record)).expect("attach succeeded");
    assert_eq!(resolved.fd, 7);
    assert_eq!(resolved.name, "tun10");
}

#[test]
fn ioctl_walk_accepts_kernel_rewritten_name() {
    let options = OpenOptions::new(); // no number: kernel assigns
    let step = acquire::ioctl_on_open(&options, Ok(4)).expect("open succeeded");
    assert!(step.request.name.iter().all(|&b| b == 0));
    let mut record = b"tun3".to_vec();
    record.resize(40, 0);
    let resolved = acquire::ioctl_on_attach(4, Ok(record)).expect("attach succeeded");
    assert_eq!(resolved.name, "tun3");
}

#[test]
fn ioctl_open_failure_classified() {
    let options = OpenOptions::new();
    let failure = acquire::ioctl_on_open(&options, Err(ENOENT)).expect_err("open failed");
    assert_eq!(failure.close_fd, None);
    assert_eq!(
        failure.error,
        AcquisitionError::ChannelOpen(ChannelOpenError::NotFound)
    );
}

#[test]
fn ioctl_attach_failure_closes_descriptor() {
    let failure = acquire::ioctl_on_attach(7, Err(EPERM)).expect_err("attach failed");
    assert_eq!(failure.close_fd, Some(7));
    assert_eq!(failure.error, AcquisitionError::ControlCall(EPERM));
}

#[test]
fn ioctl_attach_rejects_non_text_name() {
    let mut record = vec![0u8; 40];
    record[0] = 0xFE;
    let failure = acquire::ioctl_on_attach(9, Ok(record)).expect_err("name must not decode");
    assert_eq!(failure.close_fd, Some(9));
    assert_eq!(failure.error, AcquisitionError::NameDecode);
}

#[test]
fn path_open_resolves_to_candidate() {
    let resolved = acquire::path_on_open("tun7".to_string(), Ok(5)).expect("open succeeded");
    assert_eq!(resolved.fd, 5);
    assert_eq!(resolved.name, "tun7");
}

#[test]
fn path_open_busy_is_not_a_panic() {
    // A device held by another process surfaces as a classified error.
    let failure = acquire::path_on_open("tun7".to_string(), Err(EBUSY)).expect_err("open failed");
    assert_eq!(failure.close_fd, None);
    assert_eq!(
        failure.error,
        AcquisitionError::ChannelOpen(ChannelOpenError::Other(EBUSY))
    );
}

#[test]
fn path_open_permission_denied() {
    let failure = acquire::path_on_open("tun0".to_string(), Err(EACCES)).expect_err("open failed");
    assert_eq!(
        failure.error,
        AcquisitionError::ChannelOpen(ChannelOpenError::PermissionDenied)
    );
    let failure = acquire::path_on_open("tun0".to_string(), Err(EPERM)).expect_err("open failed");
    assert_eq!(
        failure.error,
        AcquisitionError::ChannelOpen(ChannelOpenError::PermissionDenied)
    );
}

#[test]
fn control_walk_resolves_assigned_name() {
    let mut options = OpenOptions::new();
    options.number(10);
    let unit = match acquire::start(Backend::ControlSocket, &options) {
        Ok(FirstStep::OpenControlSocket { unit }) => unit,
        _ => panic!("expected a control-socket step"),
    };
    let fd = acquire::control_on_socket(Ok(3)).expect("socket created");
    assert_eq!(fd, 3);
    let connect = acquire::control_on_info(fd, unit, Ok(0x2A)).expect("family id found");
    assert_eq!(connect.fd, 3);
    assert_eq!(connect.address.len(), 32);
    assert_eq!(&connect.address[4..8], &[0x2A, 0, 0, 0]);
    assert_eq!(&connect.address[8..12], &[11, 0, 0, 0]);
    acquire::control_on_call(fd, None).expect("connect succeeded");
    acquire::control_on_call(fd, None).expect("flags set");
    let resolved = acquire::control_on_name(fd, Ok(b"utun10\0".to_vec())).expect("name read");
    assert_eq!(resolved.fd, 3);
    assert_eq!(resolved.name, "utun10");
}

#[test]
fn control_socket_failure_classified() {
    let failure = acquire::control_on_socket(Err(EACCES)).expect_err("socket failed");
    assert_eq!(failure.close_fd, None);
    assert_eq!(
        failure.error,
        AcquisitionError::ChannelOpen(ChannelOpenError::PermissionDenied)
    );
}

#[test]
fn control_failures_close_socket() {
    let failure = acquire::control_on_info(3, 11, Err(EPERM)).expect_err("info failed");
    assert_eq!(failure.close_fd, Some(3));
    assert_eq!(failure.error, AcquisitionError::ControlCall(EPERM));

    let failure = acquire::control_on_call(3, Some(EBUSY)).expect_err("connect failed");
    assert_eq!(failure.close_fd, Some(3));
    assert_eq!(failure.error, AcquisitionError::ControlCall(EBUSY));

    let failure = acquire::control_on_name(3, Err(EPERM)).expect_err("name query failed");
    assert_eq!(failure.close_fd, Some(3));
    assert_eq!(failure.error, AcquisitionError::ControlCall(EPERM));

    let failure = acquire::control_on_name(3, Ok(vec![0xFF, 0]))
        .expect_err("name must not decode");
    assert_eq!(failure.close_fd, Some(3));
    assert_eq!(failure.error, AcquisitionError::NameDecode);
}

#[test]
fn open_errno_classification() {
    assert_eq!(classify_open_errno(ENOENT), ChannelOpenError::NotFound);
    assert_eq!(classify_open_errno(EACCES), ChannelOpenError::PermissionDenied);
    assert_eq!(classify_open_errno(EPERM), ChannelOpenError::PermissionDenied);
    assert_eq!(classify_open_errno(EBUSY), ChannelOpenError::Other(EBUSY));
}

#[test]
fn fixed_paths() {
    assert_eq!(acquire::mux_path(), "/dev/net/tun");
    assert_eq!(acquire::device_path_prefix(), "/dev/");
}
