//! The server handle: owns exactly one engine instance, sequences the
//! must-happen-before-start configuration, advances the life-cycle before
//! the first dial or listen, absorbs every boundary status, and releases the
//! instance exactly once. The engine itself is opaque: a driver performs the
//! requested operations and reports each status and filled buffer back; every
//! decision about those values is made and verified here.

use vstd::prelude::*;

use crate::config::Config;
use crate::conn::Connection;
use crate::diag::absorb_status;
use crate::diag::decode_ok;
use crate::diag::decode_text;
use crate::diag::decoded_text;
use crate::diag::error_from_fetch;
use crate::diag::error_matches_fetch;
use crate::diag::text_err_matches;
use crate::diag::ErrFetch;
use crate::engine::check_no_nul;
use crate::engine::config_ops_view;
use crate::engine::config_strings_valid;
use crate::engine::nul_free;
use crate::engine::ops_views;
use crate::engine::DialCall;
use crate::engine::EngineOp;
use crate::engine::Lifecycle;
use crate::engine::ListenCall;
use crate::engine::RemoteAddrCall;
use crate::errors::Error;
use crate::listener::Listener;

verus! {

/// Turns a configuration snapshot into the fixed-order operation plan,
/// rejecting any text field that cannot cross the boundary.
fn plan_config_ops(c: Config) -> (r: Result<Vec<EngineOp>, Error>)
    ensures
        (r is Ok) <==> config_strings_valid(c@),
        r matches Ok(ops) ==> ops_views(ops@) == config_ops_view(c@),
        r matches Err(e) ==> e is NullInString,
{
    let Config { dir, hostname, authkey, control_url, ephemeral, logging_fd } = c;
    let mut ops: Vec<EngineOp> = Vec::new();
    match dir {
        Some(d) => {
            if !check_no_nul(d.as_str()) {
                return Err(Error::NullInString);
            }
            ops.push(EngineOp::SetDir(d));
        },
        None => {},
    }
    match hostname {
        Some(h) => {
            if !check_no_nul(h.as_str()) {
                return Err(Error::NullInString);
            }
            ops.push(EngineOp::SetHostname(h));
        },
        None => {},
    }
    match authkey {
        Some(k) => {
            if !check_no_nul(k.as_str()) {
                return Err(Error::NullInString);
            }
            ops.push(EngineOp::SetAuthkey(k));
        },
        None => {},
    }
    match control_url {
        Some(u) => {
            if !check_no_nul(u.as_str()) {
                return Err(Error::NullInString);
            }
            ops.push(EngineOp::SetControlUrl(u));
        },
        None => {},
    }
    if ephemeral {
        ops.push(EngineOp::SetEphemeral(true));
    }
    ops.push(EngineOp::SetLogFd(logging_fd));
    proof {
        assert(ops_views(ops@) =~= config_ops_view(c@));
    }
    Ok(ops)
}

/// One engine instance, exclusively owned. All boundary calls are performed
/// by the caller's driver; this handle validates each request beforehand and
/// interprets each status and buffer afterwards.
pub struct TSNet {
    pub lifecycle: Lifecycle,
    pub closed: bool,
}

impl TSNet {
    /// Consumes a configuration snapshot and yields the new handle together
    /// with the fixed-order configuration plan the driver must apply before
    /// the engine starts. No network connection is made yet.
    pub fn new(config: Config) -> (r: Result<(TSNet, Vec<EngineOp>), Error>)
        ensures
            (r is Ok) <==> config_strings_valid(config@),
            r matches Ok(p) ==> p.0.lifecycle is NotStarted && !p.0.closed && ops_views(p.1@)
                == config_ops_view(config@),
            r matches Err(e) ==> e is NullInString,
    {
        let ops = plan_config_ops(config)?;
        Ok((TSNet { lifecycle: Lifecycle::NotStarted, closed: false }, ops))
    }

    pub fn is_closed(&self) -> (r: bool)
        ensures
            r == self.closed,
    {
        self.closed
    }

    /// Whether the next dial or listen must start the engine first.
    pub fn start_needed(&self) -> (r: bool)
        ensures
            r == !(self.lifecycle is Started),
    {
        !matches!(self.lifecycle, Lifecycle::Started)
    }

    /// Absorbs the status of an up call, which blocks until the node is
    /// connected and usable; success means the engine is started.
    pub fn up(&mut self, status: i32, fetch: &ErrFetch) -> (r: Result<(), Error>)
        ensures
            old(self).closed ==> (r matches Err(e) && e is Closed && *final(self) == *old(self)),
            !old(self).closed ==> ((r is Ok) <==> status == 0),
            !old(self).closed && status == 0 ==> final(self).lifecycle is Started && !final(self).closed,
            !old(self).closed && status != 0 ==> *final(self) == *old(self) && (r matches Err(e)
                && error_matches_fetch(e, fetch.status, fetch.buf@)),
    {
        if self.closed {
            return Err(Error::Closed);
        }
        absorb_status(status, fetch)?;
        self.lifecycle = Lifecycle::Started;
        Ok(())
    }

    /// Absorbs the status of a start call, which connects without waiting
    /// for usability.
    pub fn start(&mut self, status: i32, fetch: &ErrFetch) -> (r: Result<(), Error>)
        ensures
            old(self).closed ==> (r matches Err(e) && e is Closed && *final(self) == *old(self)),
            !old(self).closed ==> ((r is Ok) <==> status == 0),
            !old(self).closed && status == 0 ==> final(self).lifecycle is Started && !final(self).closed,
            !old(self).closed && status != 0 ==> *final(self) == *old(self) && (r matches Err(e)
                && error_matches_fetch(e, fetch.status, fetch.buf@)),
    {
        if self.closed {
            return Err(Error::Closed);
        }
        absorb_status(status, fetch)?;
        self.lifecycle = Lifecycle::Started;
        Ok(())
    }

    /// Absorbs the status of the close call that released the engine
    /// instance. The closed flag is set whatever the status said, so the
    /// instance is released at most once; a second close has no observable
    /// effect and reports success.
    pub fn close(&mut self, status: i32, fetch: &ErrFetch) -> (r: Result<(), Error>)
        ensures
            final(self).closed,
            final(self).lifecycle == old(self).lifecycle,
            old(self).closed ==> (r is Ok && *final(self) == *old(self)),
            !old(self).closed ==> ((r is Ok) <==> status == 0),
            !old(self).closed && status != 0 ==> (r matches Err(e) && error_matches_fetch(
                e,
                fetch.status,
                fetch.buf@,
            )),
    {
        if self.closed {
            return Ok(());
        }
        self.closed = true;
        absorb_status(status, fetch)
    }

    /// Validates an outbound-stream request: the transport tag and address
    /// must cross the boundary, and the engine is to be started first if it
    /// has not been. Advances the life-cycle to starting.
    pub fn dial(&mut self, network: &str, addr: &str) -> (r: Result<DialCall, Error>)
        ensures
            old(self).closed ==> (r matches Err(e) && e is Closed && *final(self) == *old(self)),
            !old(self).closed && !(nul_free(network@) && nul_free(addr@)) ==> (r matches Err(e)
                && e is NullInString && *final(self) == *old(self)),
            !old(self).closed && nul_free(network@) && nul_free(addr@) ==> (r matches Ok(dc)
                && dc.network@ == network@ && dc.addr@ == addr@ && dc.start_first == !(old(self).lifecycle is Started) && !final(self).closed && final(self).lifecycle == (
            if old(self).lifecycle is NotStarted {
                Lifecycle::Starting
            } else {
                old(self).lifecycle
            })),
    {
        if self.closed {
            return Err(Error::Closed);
        }
        if !check_no_nul(network) || !check_no_nul(addr) {
            return Err(Error::NullInString);
        }
        let start_first = self.start_needed();
        if matches!(self.lifecycle, Lifecycle::NotStarted) {
            self.lifecycle = Lifecycle::Starting;
        }
        Ok(DialCall { network: network.to_owned(), addr: addr.to_owned(), start_first })
    }

    /// Interprets the engine's answer to a dial: on success the engine is
    /// started and the returned stream descriptor becomes one newly owned
    /// connection; on failure no connection exists and the fetched
    /// diagnostic is surfaced.
    pub fn dial_done(&mut self, status: i32, conn_fd: i32, fetch: &ErrFetch) -> (r: Result<
        Connection,
        Error,
    >)
        requires
            status == 0 ==> conn_fd >= 0,
        ensures
            old(self).closed ==> (r matches Err(e) && e is Closed && *final(self) == *old(self)),
            !old(self).closed ==> ((r is Ok) <==> status == 0),
            !old(self).closed && status == 0 ==> (r matches Ok(c) && c.fd == conn_fd && c.open
                && final(self).lifecycle is Started && !final(self).closed),
            !old(self).closed && status != 0 ==> *final(self) == *old(self) && (r matches Err(e)
                && error_matches_fetch(e, fetch.status, fetch.buf@) && (e matches Error::TSNet(m)
                ==> m@.len() > 0)),
    {
        if self.closed {
            return Err(Error::Closed);
        }
        if status != 0 {
            return Err(error_from_fetch(fetch));
        }
        self.lifecycle = Lifecycle::Started;
        Ok(Connection::from_raw(conn_fd))
    }

    /// Validates a virtual-listener request; an address with an empty host
    /// binds all node interfaces, which the engine resolves itself.
    pub fn listen(&mut self, network: &str, addr: &str) -> (r: Result<ListenCall, Error>)
        ensures
            old(self).closed ==> (r matches Err(e) && e is Closed && *final(self) == *old(self)),
            !old(self).closed && !(nul_free(network@) && nul_free(addr@)) ==> (r matches Err(e)
                && e is NullInString && *final(self) == *old(self)),
            !old(self).closed && nul_free(network@) && nul_free(addr@) ==> (r matches Ok(lc)
                && lc.network@ == network@ && lc.addr@ == addr@ && lc.start_first == !(old(self).lifecycle is Started) && !final(self).closed && final(self).lifecycle == (
            if old(self).lifecycle is NotStarted {
                Lifecycle::Starting
            } else {
                old(self).lifecycle
            })),
    {
        if self.closed {
            return Err(Error::Closed);
        }
        if !check_no_nul(network) || !check_no_nul(addr) {
            return Err(Error::NullInString);
        }
        let start_first = self.start_needed();
        if matches!(self.lifecycle, Lifecycle::NotStarted) {
            self.lifecycle = Lifecycle::Starting;
        }
        Ok(ListenCall { network: network.to_owned(), addr: addr.to_owned(), start_first })
    }

    /// Interprets the engine's answer to a listen: on success the returned
    /// descriptor is the caller-side half of the handoff socket, owned by
    /// one new listener.
    pub fn listen_done(&mut self, status: i32, listener_fd: i32, fetch: &ErrFetch) -> (r: Result<
        Listener,
        Error,
    >)
        requires
            status == 0 ==> listener_fd >= 0,
        ensures
            old(self).closed ==> (r matches Err(e) && e is Closed && *final(self) == *old(self)),
            !old(self).closed ==> ((r is Ok) <==> status == 0),
            !old(self).closed && status == 0 ==> (r matches Ok(l) && l.fd == listener_fd && l.open
                && final(self).lifecycle is Started && !final(self).closed),
            !old(self).closed && status != 0 ==> *final(self) == *old(self) && (r matches Err(e)
                && error_matches_fetch(e, fetch.status, fetch.buf@)),
    {
        if self.closed {
            return Err(Error::Closed);
        }
        if status != 0 {
            return Err(error_from_fetch(fetch));
        }
        self.lifecycle = Lifecycle::Started;
        Ok(Listener::from_raw(listener_fd))
    }

    /// Receives one accepted connection from a listener's handoff socket.
    /// Purely local: the engine pushed the descriptor at send time and holds
    /// no reference to it any more.
    pub fn accept(&self, listener: &mut Listener) -> (r: Result<
        Connection,
        crate::errors::TailscaleError,
    >)
        ensures
            *final(listener) == *old(listener),
            r matches Ok(c) ==> c.open && c.fd >= 0,
            !old(listener).open ==> (r matches Err(e) && e is Closed),
            old(listener).open ==> (r matches Err(e) ==> (e is Recvmsg || e is ControlMessage)),
    {
        listener.accept()
    }

    /// Decodes the node's own addresses as the engine wrote them: a
    /// comma-joined, NUL-terminated list, possibly empty. A buffer too small
    /// to hold the list fails at the boundary; an unterminated buffer is
    /// rejected, never silently truncated.
    pub fn get_ips(&self, status: i32, buf: &Vec<u8>, fetch: &ErrFetch) -> (r: Result<
        String,
        Error,
    >)
        ensures
            self.closed ==> (r matches Err(e) && e is Closed),
            !self.closed && status != 0 ==> (r matches Err(e) && error_matches_fetch(
                e,
                fetch.status,
                fetch.buf@,
            )),
            !self.closed && status == 0 ==> ((r is Ok) <==> decode_ok(buf@)),
            !self.closed && status == 0 && decode_ok(buf@) ==> (r matches Ok(s) && s@
                == decoded_text(buf@) && s@.len() < buf@.len()),
            !self.closed && status == 0 && !decode_ok(buf@) ==> (r matches Err(e)
                && text_err_matches(e, buf@)),
    {
        if self.closed {
            return Err(Error::Closed);
        }
        decode_text(status, buf, fetch)
    }

    /// Validates a peer-address query for a connection accepted on a given
    /// listener. Whether the connection actually came from that listener is
    /// the engine's decision: a foreign pairing is answered with a non-zero
    /// status, never with a fabricated address.
    pub fn get_remote_addr(&self, conn: &Connection, listener: &Listener) -> (r: Result<
        RemoteAddrCall,
        Error,
    >)
        ensures
            self.closed ==> (r matches Err(e) && e is Closed),
            !self.closed && (!conn.open || !listener.open) ==> (r matches Err(e) && e is Closed),
            !self.closed && conn.open && listener.open ==> (r matches Ok(rc) && rc.listener_fd
                == listener.fd && rc.conn_fd == conn.fd),
    {
        if self.closed {
            return Err(Error::Closed);
        }
        if !conn.is_open() || !listener.is_open() {
            return Err(Error::Closed);
        }
        Ok(RemoteAddrCall { listener_fd: listener.raw_fd(), conn_fd: conn.raw_fd() })
    }

    /// Decodes the engine's answer to a peer-address query: a NUL-terminated
    /// textual IPv4 or IPv6 address. Overflowing or malformed data is an
    /// error, never a silently truncated address.
    pub fn get_remote_addr_done(&self, status: i32, buf: &Vec<u8>, fetch: &ErrFetch) -> (r: Result<
        String,
        Error,
    >)
        ensures
            self.closed ==> (r matches Err(e) && e is Closed),
            !self.closed && status != 0 ==> (r matches Err(e) && error_matches_fetch(
                e,
                fetch.status,
                fetch.buf@,
            )),
            !self.closed && status == 0 ==> ((r is Ok) <==> decode_ok(buf@)),
            !self.closed && status == 0 && decode_ok(buf@) ==> (r matches Ok(s) && s@
                == decoded_text(buf@) && s@.len() < buf@.len()),
            !self.closed && status == 0 && !decode_ok(buf@) ==> (r matches Err(e)
                && text_err_matches(e, buf@)),
    {
        if self.closed {
            return Err(Error::Closed);
        }
        decode_text(status, buf, fetch)
    }

    /// Decodes the three outputs of the auxiliary loopback endpoint: its
    /// address and the two credentials, each NUL-terminated with at most 32
    /// data bytes in a 33-byte buffer.
    pub fn loopback(
        &self,
        status: i32,
        addr_buf: &Vec<u8>,
        proxy_buf: &Vec<u8>,
        api_buf: &Vec<u8>,
        fetch: &ErrFetch,
    ) -> (r: Result<(String, String, String), Error>)
        ensures
            self.closed ==> (r matches Err(e) && e is Closed),
            !self.closed && status != 0 ==> (r matches Err(e) && error_matches_fetch(
                e,
                fetch.status,
                fetch.buf@,
            )),
            !self.closed && status == 0 ==> ((r is Ok) <==> decode_ok(addr_buf@) && decode_ok(
                proxy_buf@,
            ) && decode_ok(api_buf@)),
            !self.closed && status == 0 ==> (r matches Ok(t) ==> t.0@ == decoded_text(addr_buf@)
                && t.1@ == decoded_text(proxy_buf@) && t.2@ == decoded_text(api_buf@) && t.0@.len()
                < addr_buf@.len() && t.1@.len() < proxy_buf@.len() && t.2@.len() < api_buf@.len()),
            !self.closed && status == 0 && !decode_ok(addr_buf@) ==> (r matches Err(e)
                && text_err_matches(e, addr_buf@)),
            !self.closed && status == 0 && decode_ok(addr_buf@) && !decode_ok(proxy_buf@) ==> (
            r matches Err(e) && text_err_matches(e, proxy_buf@)),
            !self.closed && status == 0 && decode_ok(addr_buf@) && decode_ok(proxy_buf@)
                && !decode_ok(api_buf@) ==> (r matches Err(e) && text_err_matches(e, api_buf@)),
    {
        if self.closed {
            return Err(Error::Closed);
        }
        let addr = decode_text(status, addr_buf, fetch)?;
        let proxy = decode_text(status, proxy_buf, fetch)?;
        let api = decode_text(status, api_buf, fetch)?;
        Ok((addr, proxy, api))
    }

    /// Absorbs the status of enabling the public funnel: requests from the
    /// public web are terminated at the node and proxied to a caller-run
    /// plaintext server; the absence of that server surfaces as upstream
    /// errors later, not as a failure here.
    pub fn enable_funnel_to_localhost_plaintext_http1(&self, status: i32, fetch: &ErrFetch) -> (r:
        Result<(), Error>)
        ensures
            self.closed ==> (r matches Err(e) && e is Closed),
            !self.closed ==> ((r is Ok) <==> status == 0),
            !self.closed && status != 0 ==> (r matches Err(e) && error_matches_fetch(
                e,
                fetch.status,
                fetch.buf@,
            )),
    {
        if self.closed {
            return Err(Error::Closed);
        }
        absorb_status(status, fetch)
    }
}

} // verus!
