//! The TUN front end: a configuration whose mode is fixed to raw IP
//! packets.
//!
//! The builder carries the same option surface as the underlying
//! [`crate::OpenOptions`]; a platform driver consumes the finished
//! configuration through [`crate::acquire`].

use crate::name::device_name_chars;
use crate::{default_options, with_mode, with_nonblock, with_number, with_packet_info, with_read,
    with_write};
use crate::Mode;
use vstd::prelude::*;

verus! {

/// Options and flags configuring how a TUN device is to be opened.
#[derive(Clone, Copy, Debug, PartialEq, Eq)]
pub struct OpenOptions {
    /// The underlying configuration, with the mode pinned to [`Mode::Tun`].
    pub options: crate::OpenOptions,
}

impl OpenOptions {
    /// Creates a blank new set of options, read and write enabled,
    /// ready for configuration of a TUN device.
    pub fn new() -> (r: OpenOptions)
        ensures
            r.options == with_mode(default_options(), Mode::Tun),
    {
        let mut options = crate::OpenOptions::new();
        options.mode(Mode::Tun);
        OpenOptions { options }
    }

    /// Sets the option for read access.
    pub fn read(&mut self, value: bool)
        ensures
            final(self).options == with_read(old(self).options, value),
    {
        self.options.read(value);
    }

    /// Sets the option for write access.
    pub fn write(&mut self, value: bool)
        ensures
            final(self).options == with_write(old(self).options, value),
    {
        self.options.write(value);
    }

    /// Sets the option for non-blocking I/O.
    pub fn nonblock(&mut self, value: bool)
        ensures
            final(self).options == with_nonblock(old(self).options, value),
    {
        self.options.nonblock(value);
    }

    /// Sets the device number: the number part of the device name, e.g.
    /// the 0 of tun0.  Backends that can auto-assign treat an unset
    /// number as "kernel's choice"; the others reject it at acquisition.
    pub fn number(&mut self, value: u8)
        ensures
            final(self).options == with_number(old(self).options, value),
    {
        self.options.number(value);
    }

    /// Sets the option for the 4-byte packet-info prefix on each packet
    /// (ioctl-attach backend only).
    pub fn packet_info(&mut self, value: bool)
        ensures
            final(self).options == with_packet_info(old(self).options, value),
    {
        self.options.packet_info(value);
    }

    /// The candidate device name, or nothing while no number has been
    /// set.
    pub fn device_name(&self) -> (r: Option<String>)
        ensures
            r is Some <==> self.options.number is Some,
            self.options.number is Some ==> r->Some_0@ == device_name_chars(
                self.options.mode,
                self.options.number->Some_0 as nat,
            ),
    {
        self.options.device_name()
    }
}

impl Default for OpenOptions {
    /// The default TUN options equal freshly created ones.
    fn default() -> (r: OpenOptions)
        ensures
            r.options == with_mode(default_options(), Mode::Tun),
    {
        OpenOptions::new()
    }
}

} // verus!
