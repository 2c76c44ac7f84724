//! Configuration and device-acquisition logic for TUN/TAP virtual network
//! interfaces.
//!
//! A caller builds an [`OpenOptions`] value (directly or through the
//! [`tun`] and [`tap`] front ends), and a thin platform driver turns it into
//! the exact sequence of filesystem opens and kernel control calls that the
//! host operating system requires.  Everything that can be decided without a
//! system call lives here: the candidate device name, the binary layout of
//! the kernel request records, the control-call numeric codes, and the
//! classification of every failure.

use vstd::prelude::*;
use vstd::string::StringExecFns;

pub mod acquire;
pub mod control;
pub mod error;
pub mod name;
pub mod request;
pub mod tap;
pub mod tun;
pub mod wire;

verus! {

/// Whether a device exchanges raw IP packets (`Tun`) or raw Ethernet
/// frames (`Tap`).
#[derive(Clone, Copy, Debug, PartialEq, Eq, Structural)]
pub enum Mode {
    Tun,
    Tap,
}

/// Declarative description of the device to acquire.
///
/// Nothing is validated by the setters themselves: constraints such as
/// "a device number is required" depend on the backend and are checked at
/// acquisition time.
#[derive(Clone, Copy, Debug, PartialEq, Eq)]
pub struct OpenOptions {
    /// Requested device kind.
    pub mode: Mode,
    /// Requested device number; when absent, backends that can auto-assign
    /// leave the choice to the kernel.
    pub number: Option<u8>,
    /// Open the device readable.
    pub read: bool,
    /// Open the device writable.
    pub write: bool,
    /// Put the descriptor into non-blocking mode.
    pub nonblock: bool,
    /// Keep the 4-byte packet-info prefix on each frame (ioctl-attach
    /// backend only).
    pub packet_info: bool,
}

/// The options every configuration starts from: a `Tun` device with no
/// number chosen, readable and writable, blocking, without packet info.
pub open spec fn default_options() -> OpenOptions {
    OpenOptions {
        mode: Mode::Tun,
        number: None,
        read: true,
        write: true,
        nonblock: false,
        packet_info: false,
    }
}

/// `c` with its mode replaced.
pub open spec fn with_mode(c: OpenOptions, value: Mode) -> OpenOptions {
    OpenOptions { mode: value, ..c }
}

/// `c` with its device number replaced.
pub open spec fn with_number(c: OpenOptions, value: u8) -> OpenOptions {
    OpenOptions { number: Some(value), ..c }
}

/// `c` with its read flag replaced.
pub open spec fn with_read(c: OpenOptions, value: bool) -> OpenOptions {
    OpenOptions { read: value, ..c }
}

/// `c` with its write flag replaced.
pub open spec fn with_write(c: OpenOptions, value: bool) -> OpenOptions {
    OpenOptions { write: value, ..c }
}

/// `c` with its non-blocking flag replaced.
pub open spec fn with_nonblock(c: OpenOptions, value: bool) -> OpenOptions {
    OpenOptions { nonblock: value, ..c }
}

/// `c` with its packet-info flag replaced.
pub open spec fn with_packet_info(c: OpenOptions, value: bool) -> OpenOptions {
    OpenOptions { packet_info: value, ..c }
}

impl OpenOptions {
    /// Creates the default configuration.
    pub fn new() -> (r: OpenOptions)
        ensures
            r == default_options(),
    {
        OpenOptions {
            mode: Mode::Tun,
            number: None,
            read: true,
            write: true,
            nonblock: false,
            packet_info: false,
        }
    }

    /// Sets the device kind.
    pub fn mode(&mut self, value: Mode)
        ensures
            *final(self) == with_mode(*old(self), value),
    {
        self.mode = value;
    }

    /// Sets the device number.
    pub fn number(&mut self, value: u8)
        ensures
            *final(self) == with_number(*old(self), value),
    {
        self.number = Some(value);
    }

    /// Sets the option for read access.
    pub fn read(&mut self, value: bool)
        ensures
            *final(self) == with_read(*old(self), value),
    {
        self.read = value;
    }

    /// Sets the option for write access.
    pub fn write(&mut self, value: bool)
        ensures
            *final(self) == with_write(*old(self), value),
    {
        self.write = value;
    }

    /// Sets the option for non-blocking I/O.
    pub fn nonblock(&mut self, value: bool)
        ensures
            *final(self) == with_nonblock(*old(self), value),
    {
        self.nonblock = value;
    }

    /// Sets the option for the packet-info prefix.
    pub fn packet_info(&mut self, value: bool)
        ensures
            *final(self) == with_packet_info(*old(self), value),
    {
        self.packet_info = value;
    }

    /// The candidate device name: the mode's prefix followed by the device
    /// number in decimal, or nothing while no number has been set.
    ///
    /// The candidate is the requested identity only; on backends whose
    /// kernel picks the final name itself, the resolved name may differ.
    pub fn device_name(&self) -> (r: Option<String>)
        ensures
            r is Some <==> self.number is Some,
            self.number is Some ==> r->Some_0@ == name::device_name_chars(
                self.mode,
                self.number->Some_0 as nat,
            ),
    {
        match self.number {
            None => None,
            Some(n) => {
                let mut s = String::from_str(self.mode.text());
                name::push_decimal(&mut s, n);
                Some(s)
            },
        }
    }
}

impl Default for OpenOptions {
    /// The default configuration equals a freshly created one.
    fn default() -> (r: OpenOptions)
        ensures
            r == default_options(),
    {
        OpenOptions::new()
    }
}

/// A later `mode` call overrides an earlier one: only the last value set
/// is kept.
pub proof fn lemma_mode_last_write_wins(c: OpenOptions, a: Mode, b: Mode)
    ensures
        with_mode(with_mode(c, a), b) == with_mode(c, b),
{
}

/// A later `number` call overrides an earlier one: only the last value set
/// is kept.
pub proof fn lemma_number_last_write_wins(c: OpenOptions, a: u8, b: u8)
    ensures
        with_number(with_number(c, a), b) == with_number(c, b),
{
}

/// A later `nonblock` call overrides an earlier one: only the last value
/// set is kept.
pub proof fn lemma_nonblock_last_write_wins(c: OpenOptions, a: bool, b: bool)
    ensures
        with_nonblock(with_nonblock(c, a), b) == with_nonblock(c, b),
{
}

/// A later `packet_info` call overrides an earlier one: only the last
/// value set is kept.
pub proof fn lemma_packet_info_last_write_wins(c: OpenOptions, a: bool, b: bool)
    ensures
        with_packet_info(with_packet_info(c, a), b) == with_packet_info(c, b),
{
}

} // verus!
