//! The listener and the accept protocol. A listener owns the caller-side half
//! of a local full-duplex handoff socket whose peer lives inside the engine.
//! For each accepted connection the engine sends one small data message with
//! one ancillary-data segment carrying exactly one duplicated stream
//! descriptor; each `accept` drains one such message in arrival order,
//! validates it, and hands out a connection with sole ownership of the
//! descriptor.

use nix::sys::socket::recvmsg;
use nix::sys::socket::ControlMessageOwned;
use nix::sys::socket::MsgFlags;
use vstd::prelude::*;

use crate::conn::fd_close;
use crate::conn::Connection;
use crate::errors::TailscaleError;

verus! {

/// One ancillary-data segment of a received handoff message, reduced to what
/// the protocol reads: either it carries descriptor rights or it does not.
#[derive(Debug)]
pub enum ControlSegment {
    Rights(Vec<i32>),
    Other,
}

/// Every descriptor a rights segment carries is a valid (non-negative)
/// descriptor in the receiving process.
pub open spec fn rights_nonneg(seg: &ControlSegment) -> bool {
    seg matches ControlSegment::Rights(fds) ==> forall|j: int|
        0 <= j < fds@.len() ==> fds@[j] >= 0
}

/// Whether `seg` carries at least one descriptor.
pub open spec fn carries_fd(seg: &ControlSegment) -> bool {
    seg matches ControlSegment::Rights(fds) && fds@.len() > 0
}

/// The first descriptor of the first segment of `segs` that carries one.
pub open spec fn first_rights_fd(segs: Seq<ControlSegment>) -> int
    decreases segs.len(),
{
    if segs.len() == 0 {
        -1
    } else if carries_fd(&segs[0]) {
        segs[0]->Rights_0@[0] as int
    } else {
        first_rights_fd(segs.drop_first())
    }
}

/// Relies on nix::sys::socket::recvmsg: blocks for one message on a local
/// socket, returning its data bytes and its ancillary segments; descriptors
/// delivered in a rights segment are freshly allocated, valid (non-negative)
/// descriptors that the receiving process now owns.
#[verifier::external_body]
fn recv_with_rights(fd: i32) -> (r: Result<(Vec<u8>, Vec<ControlSegment>), i32>)
    ensures
        r matches Ok(p) ==> forall|i: int| 0 <= i < p.1@.len() ==> rights_nonneg(&p.1@[i]),
{
    let mut mbuf = [0u8; 256];
    let mut cbuf = vec![0u8; 256];
    let mut iov = [std::io::IoSliceMut::new(&mut mbuf)];
    let recv = recvmsg::<()>(fd, &mut iov, Some(&mut cbuf), MsgFlags::empty());
    let msg = match recv { Ok(m) => m, Err(e) => return Err(e as i32) };
    let n = msg.bytes.min(256);
    let segs = msg.cmsgs().map(|c| match c {
        ControlMessageOwned::ScmRights(fds) => ControlSegment::Rights(fds),
        _ => ControlSegment::Other,
    }).collect();
    drop(msg);
    Ok((mbuf[..n].to_vec(), segs))
}

/// Scans the ancillary segments of one received handoff message for the first
/// one carrying descriptor rights and wraps its first descriptor in a new
/// connection with sole ownership. A message without any carried descriptor
/// is a malformed handoff and fails, never silently retried.
pub fn extract_conn(segs: Vec<ControlSegment>) -> (r: Result<Connection, TailscaleError>)
    requires
        forall|i: int| 0 <= i < segs@.len() ==> rights_nonneg(&segs@[i]),
    ensures
        (r is Ok) <==> exists|i: int| 0 <= i < segs@.len() && carries_fd(&segs@[i]),
        r matches Ok(c) ==> c.open && c.fd >= 0 && c.fd == first_rights_fd(segs@),
        r matches Err(e) ==> e is ControlMessage,
{
    proof {
        assert(segs@.skip(0) =~= segs@);
    }
    let mut k: usize = 0;
    while k < segs.len()
        invariant
            k <= segs@.len(),
            forall|i: int| 0 <= i < segs@.len() ==> rights_nonneg(&segs@[i]),
            forall|i: int| 0 <= i < k ==> !carries_fd(&segs@[i]),
            first_rights_fd(segs@) == first_rights_fd(segs@.skip(k as int)),
        decreases segs@.len() - k,
    {
        match &segs[k] {
            ControlSegment::Rights(fds) => {
                if fds.len() > 0 {
                    let fd = fds[0];
                    proof {
                        assert(carries_fd(&segs@[k as int]));
                        assert(segs@.skip(k as int)[0] == segs@[k as int]);
                        assert(first_rights_fd(segs@.skip(k as int)) == fd as int);
                    }
                    return Ok(Connection::from_raw(fd));
                }
            },
            ControlSegment::Other => {},
        }
        proof {
            assert(!carries_fd(&segs@[k as int]));
            assert(segs@.skip(k as int).drop_first() =~= segs@.skip(k as int + 1));
            assert(segs@.skip(k as int)[0] == segs@[k as int]);
        }
        k = k + 1;
    }
    Err(TailscaleError::ControlMessage)
}

/// Sole owner of the caller-side handoff-socket descriptor. It stays usable
/// for further accepts until closed; closing it releases only this
/// descriptor and leaves every connection already handed out untouched.
#[derive(Debug)]
pub struct Listener {
    pub fd: i32,
    pub open: bool,
}

impl Listener {
    /// Takes sole ownership of the caller-side handoff descriptor the engine
    /// returned for a new virtual listener.
    pub fn from_raw(fd: i32) -> (l: Listener)
        requires
            fd >= 0,
        ensures
            l.fd == fd,
            l.open,
    {
        Listener { fd, open: true }
    }

    pub fn raw_fd(&self) -> (r: i32)
        ensures
            r == self.fd,
    {
        self.fd
    }

    pub fn is_open(&self) -> (r: bool)
        ensures
            r == self.open,
    {
        self.open
    }

    /// Receives one handoff message and returns one newly owned connection.
    /// An OS-level receive failure is `Recvmsg`; a message without descriptor
    /// rights is `ControlMessage`. The listener itself is unchanged and
    /// remains usable for further accepts.
    pub fn accept(&mut self) -> (r: Result<Connection, TailscaleError>)
        ensures
            *final(self) == *old(self),
            r matches Ok(c) ==> c.open && c.fd >= 0,
            !old(self).open ==> (r matches Err(e) && e is Closed),
            old(self).open ==> (r matches Err(e) ==> (e is Recvmsg || e is ControlMessage)),
    {
        if !self.open {
            return Err(TailscaleError::Closed);
        }
        match recv_with_rights(self.fd) {
            Ok((_data, segs)) => extract_conn(segs),
            Err(_errno) => Err(TailscaleError::Recvmsg),
        }
    }

    /// Releases the handoff descriptor exactly once; a second call has no
    /// observable effect. Connections already returned by earlier accepts own
    /// their own descriptors and are not touched.
    pub fn close(&mut self) -> (r: Result<(), TailscaleError>)
        ensures
            !final(self).open,
            final(self).fd == old(self).fd,
            !old(self).open ==> (r is Ok && *final(self) == *old(self)),
            old(self).open ==> (r matches Err(e) ==> e is Io),
    {
        if !self.open {
            return Ok(());
        }
        self.open = false;
        match fd_close(self.fd) {
            Ok(()) => Ok(()),
            Err(errno) => Err(TailscaleError::Io(errno)),
        }
    }
}

} // verus!
