//! A connection: sole owner of one stream descriptor, inbound (received over
//! the handoff channel) or outbound (opened by the engine for a dial). Reads
//! and writes are blocking; the descriptor is released exactly once, and a
//! second close has no effect.

use vstd::prelude::*;

use crate::errors::TailscaleError;

verus! {

/// Relies on nix::unistd::read: blocks until data, end of stream, or an
/// error; on success the received bytes were placed at the start of the
/// buffer and everything after them is untouched, and 0 bytes means the
/// peer closed in an orderly way.
#[verifier::external_body]
fn fd_read(fd: i32, buf: &mut Vec<u8>) -> (r: Result<usize, i32>)
    ensures
        final(buf)@.len() == old(buf)@.len(),
        r matches Ok(n) ==> n <= final(buf)@.len() && final(buf)@.skip(n as int) == old(
            buf,
        )@.skip(n as int),
{
    match nix::unistd::read(fd, buf.as_mut_slice()) {
        Ok(n) => Ok(n),
        Err(e) => Err(e as i32),
    }
}

/// Relies on nix::unistd::write: blocks until some prefix of the buffer is
/// written; on success the result is how many leading bytes were taken, at
/// most `buf.len()`. Partial writes are possible.
#[verifier::external_body]
fn fd_write(fd: i32, buf: &Vec<u8>) -> (r: Result<usize, i32>)
    ensures
        r matches Ok(n) ==> n <= buf@.len(),
{
    match nix::unistd::write(fd, buf.as_slice()) {
        Ok(n) => Ok(n),
        Err(e) => Err(e as i32),
    }
}

/// Relies on nix::unistd::close: releases the descriptor; afterwards the
/// descriptor value must not be used again.
#[verifier::external_body]
pub(crate) fn fd_close(fd: i32) -> (r: Result<(), i32>)
{
    match nix::unistd::close(fd) {
        Ok(()) => Ok(()),
        Err(e) => Err(e as i32),
    }
}

/// Sole owner of one stream descriptor. `open` records whether the
/// descriptor is still owned; once closed it is never read, written or
/// released again through this wrapper.
#[derive(Debug)]
pub struct Connection {
    pub fd: i32,
    pub open: bool,
}

impl Connection {
    /// Takes sole ownership of a freshly transferred stream descriptor.
    pub fn from_raw(fd: i32) -> (c: Connection)
        requires
            fd >= 0,
        ensures
            c.fd == fd,
            c.open,
    {
        Connection { fd, open: true }
    }

    pub fn raw_fd(&self) -> (r: i32)
        ensures
            r == self.fd,
    {
        self.fd
    }

    pub fn is_open(&self) -> (r: bool)
        ensures
            r == self.open,
    {
        self.open
    }

    /// Blocking read into `buf`. 0 bytes signals orderly peer close; using a
    /// closed connection is a usage error, reported without touching the
    /// descriptor value.
    pub fn read(&mut self, buf: &mut Vec<u8>) -> (r: Result<usize, TailscaleError>)
        ensures
            *final(self) == *old(self),
            final(buf)@.len() == old(buf)@.len(),
            r matches Ok(n) ==> n <= final(buf)@.len() && final(buf)@.skip(n as int) == old(
                buf,
            )@.skip(n as int),
            !old(self).open ==> (r matches Err(e) && e is Closed && final(buf)@ == old(buf)@),
            old(self).open ==> (r matches Err(e) ==> e is Io),
        {
        if !self.open {
            return Err(TailscaleError::Closed);
        }
        match fd_read(self.fd, buf) {
            Ok(n) => Ok(n),
            Err(errno) => Err(TailscaleError::Io(errno)),
        }
    }

    /// Blocking write of a prefix of `buf`; the caller retries the remainder,
    /// no internal completion loop is run. Using a closed connection is a
    /// usage error.
    pub fn write(&mut self, buf: &Vec<u8>) -> (r: Result<usize, TailscaleError>)
        ensures
            *final(self) == *old(self),
            r matches Ok(n) ==> n <= buf@.len(),
            !old(self).open ==> (r matches Err(e) && e is Closed),
            old(self).open ==> (r matches Err(e) ==> e is Io),
    {
        if !self.open {
            return Err(TailscaleError::Closed);
        }
        match fd_write(self.fd, buf) {
            Ok(n) => Ok(n),
            Err(errno) => Err(TailscaleError::Io(errno)),
        }
    }

    /// Releases the descriptor exactly once. A second call has no observable
    /// effect and reports success.
    pub fn close(&mut self) -> (r: Result<(), TailscaleError>)
        ensures
            !final(self).open,
            final(self).fd == old(self).fd,
            !old(self).open ==> (r is Ok && *final(self) == *old(self)),
            old(self).open ==> (r matches Err(e) ==> e is Io),
    {
        if !self.open {
            return Ok(());
        }
        self.open = false;
        match fd_close(self.fd) {
            Ok(()) => Ok(()),
            Err(errno) => Err(TailscaleError::Io(errno)),
        }
    }
}

} // verus!
