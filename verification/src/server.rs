//! The server front end built around an explicit builder: collect the
//! optional parameters, then `build` turns them into one engine instance
//! plus the fixed-order plan that configures and starts it. The build stops
//! at the first operation the engine rejects and surfaces the diagnostic
//! fetched for it.

use vstd::prelude::*;

use crate::config::apply_step;
use crate::config::default_config_view;
use crate::config::str_opt_view;
use crate::config::ConfigView;
use crate::config::SetterStep;
use crate::conn::Connection;
use crate::diag::absorb_status;
use crate::diag::error_from_fetch;
use crate::diag::error_matches_fetch;
use crate::diag::ErrFetch;
use crate::engine::check_no_nul;
use crate::engine::config_strings_valid;
use crate::engine::nul_free;
use crate::engine::ops_views;
use crate::engine::present_string_ops;
use crate::engine::DialCall;
use crate::engine::EngineOp;
use crate::engine::Lifecycle;
use crate::engine::ListenCall;
use crate::engine::OpView;
use crate::errors::Error;
use crate::listener::Listener;

verus! {

/// The plan a builder's build sends to a fresh engine instance: the present
/// text fields in fixed order, then the ephemeral flag, then start.
pub open spec fn server_build_ops_view(c: ConfigView) -> Seq<OpView> {
    present_string_ops(c) + seq![OpView::SetEphemeral(c.ephemeral), OpView::Start]
}

/// One engine instance owned through the builder front end.
pub struct Server {
    pub lifecycle: Lifecycle,
    pub closed: bool,
}

/// Collects the optional engine parameters for one server.
pub struct ServerBuilder {
    pub dir: Option<String>,
    pub hostname: Option<String>,
    pub authkey: Option<String>,
    pub control_url: Option<String>,
    pub ephemeral: bool,
}

impl View for ServerBuilder {
    type V = ConfigView;

    open spec fn view(&self) -> ConfigView {
        ConfigView {
            dir: str_opt_view(self.dir),
            hostname: str_opt_view(self.hostname),
            authkey: str_opt_view(self.authkey),
            control_url: str_opt_view(self.control_url),
            ephemeral: self.ephemeral,
            logging_fd: -1,
        }
    }
}

impl Server {
    /// A fresh builder with nothing set.
    pub fn new() -> (r: ServerBuilder)
        ensures
            r@ == default_config_view(),
    {
        ServerBuilder {
            dir: None,
            hostname: None,
            authkey: None,
            control_url: None,
            ephemeral: false,
        }
    }

    pub fn is_closed(&self) -> (r: bool)
        ensures
            r == self.closed,
    {
        self.closed
    }

    /// Absorbs the status of one build-plan operation: a setter leaves the
    /// life-cycle alone, a successful start makes the server started, and
    /// the first rejected operation surfaces the fetched diagnostic.
    pub fn apply_build_status(&mut self, op: &EngineOp, status: i32, fetch: &ErrFetch) -> (r:
        Result<(), Error>)
        ensures
            old(self).closed ==> (r matches Err(e) && e is Closed && *final(self) == *old(self)),
            !old(self).closed ==> ((r is Ok) <==> status == 0),
            !old(self).closed && status == 0 && op@ is Start ==> final(self).lifecycle is Started
                && !final(self).closed,
            !old(self).closed && status == 0 && !(op@ is Start) ==> *final(self) == *old(self),
            !old(self).closed && status != 0 ==> *final(self) == *old(self) && (r matches Err(e)
                && error_matches_fetch(e, fetch.status, fetch.buf@)),
    {
        if self.closed {
            return Err(Error::Closed);
        }
        absorb_status(status, fetch)?;
        if matches!(op, EngineOp::Start) {
            self.lifecycle = Lifecycle::Started;
        }
        Ok(())
    }

    /// Validates an outbound-stream request; the engine is to be started
    /// first if the build's start was not yet reported successful.
    pub fn dial(&mut self, network: &str, addr: &str) -> (r: Result<DialCall, Error>)
        ensures
            old(self).closed ==> (r matches Err(e) && e is Closed && *final(self) == *old(self)),
            !old(self).closed && !(nul_free(network@) && nul_free(addr@)) ==> (r matches Err(e)
                && e is NullInString && *final(self) == *old(self)),
            !old(self).closed && nul_free(network@) && nul_free(addr@) ==> (r matches Ok(dc)
                && dc.network@ == network@ && dc.addr@ == addr@ && dc.start_first == !(old(self).lifecycle is Started)
                && !final(self).closed && final(self).lifecycle == (
            if old(self).lifecycle is NotStarted {
                Lifecycle::Starting
            } else {
                old(self).lifecycle
            })),
    {
        if self.closed {
            return Err(Error::Closed);
        }
        if !check_no_nul(network) || !check_no_nul(addr) {
            return Err(Error::NullInString);
        }
        let start_first = !matches!(self.lifecycle, Lifecycle::Started);
        if matches!(self.lifecycle, Lifecycle::NotStarted) {
            self.lifecycle = Lifecycle::Starting;
        }
        Ok(DialCall { network: network.to_owned(), addr: addr.to_owned(), start_first })
    }

    /// Interprets the engine's answer to a dial: on success the returned
    /// stream descriptor becomes one newly owned connection.
    pub fn dial_done(&mut self, status: i32, conn_fd: i32, fetch: &ErrFetch) -> (r: Result<
        Connection,
        Error,
    >)
        requires
            status == 0 ==> conn_fd >= 0,
        ensures
            old(self).closed ==> (r matches Err(e) && e is Closed && *final(self) == *old(self)),
            !old(self).closed ==> ((r is Ok) <==> status == 0),
            !old(self).closed && status == 0 ==> (r matches Ok(c) && c.fd == conn_fd && c.open
                && final(self).lifecycle is Started && !final(self).closed),
            !old(self).closed && status != 0 ==> *final(self) == *old(self) && (r matches Err(e)
                && error_matches_fetch(e, fetch.status, fetch.buf@)),
    {
        if self.closed {
            return Err(Error::Closed);
        }
        if status != 0 {
            return Err(error_from_fetch(fetch));
        }
        self.lifecycle = Lifecycle::Started;
        Ok(Connection::from_raw(conn_fd))
    }

    /// Validates a virtual-listener request; an address with an empty host
    /// binds all node interfaces.
    pub fn listen(&mut self, network: &str, addr: &str) -> (r: Result<ListenCall, Error>)
        ensures
            old(self).closed ==> (r matches Err(e) && e is Closed && *final(self) == *old(self)),
            !old(self).closed && !(nul_free(network@) && nul_free(addr@)) ==> (r matches Err(e)
                && e is NullInString && *final(self) == *old(self)),
            !old(self).closed && nul_free(network@) && nul_free(addr@) ==> (r matches Ok(lc)
                && lc.network@ == network@ && lc.addr@ == addr@ && lc.start_first == !(old(self).lifecycle is Started)
                && !final(self).closed && final(self).lifecycle == (
            if old(self).lifecycle is NotStarted {
                Lifecycle::Starting
            } else {
                old(self).lifecycle
            })),
    {
        if self.closed {
            return Err(Error::Closed);
        }
        if !check_no_nul(network) || !check_no_nul(addr) {
            return Err(Error::NullInString);
        }
        let start_first = !matches!(self.lifecycle, Lifecycle::Started);
        if matches!(self.lifecycle, Lifecycle::NotStarted) {
            self.lifecycle = Lifecycle::Starting;
        }
        Ok(ListenCall { network: network.to_owned(), addr: addr.to_owned(), start_first })
    }

    /// Interprets the engine's answer to a listen: on success the returned
    /// descriptor is the caller-side half of a handoff socket, owned by one
    /// new listener whose accepts receive this listener's connections.
    pub fn listen_done(&mut self, status: i32, listener_fd: i32, fetch: &ErrFetch) -> (r: Result<
        Listener,
        Error,
    >)
        requires
            status == 0 ==> listener_fd >= 0,
        ensures
            old(self).closed ==> (r matches Err(e) && e is Closed && *final(self) == *old(self)),
            !old(self).closed ==> ((r is Ok) <==> status == 0),
            !old(self).closed && status == 0 ==> (r matches Ok(l) && l.fd == listener_fd && l.open
                && final(self).lifecycle is Started && !final(self).closed),
            !old(self).closed && status != 0 ==> *final(self) == *old(self) && (r matches Err(e)
                && error_matches_fetch(e, fetch.status, fetch.buf@)),
    {
        if self.closed {
            return Err(Error::Closed);
        }
        if status != 0 {
            return Err(error_from_fetch(fetch));
        }
        self.lifecycle = Lifecycle::Started;
        Ok(Listener::from_raw(listener_fd))
    }

    /// Absorbs the status of the close call that released the engine
    /// instance; the closed flag makes the release happen at most once, and
    /// a second close has no observable effect.
    pub fn close(&mut self, status: i32, fetch: &ErrFetch) -> (r: Result<(), Error>)
        ensures
            final(self).closed,
            final(self).lifecycle == old(self).lifecycle,
            old(self).closed ==> (r is Ok && *final(self) == *old(self)),
            !old(self).closed ==> ((r is Ok) <==> status == 0),
            !old(self).closed && status != 0 ==> (r matches Err(e) && error_matches_fetch(
                e,
                fetch.status,
                fetch.buf@,
            )),
    {
        if self.closed {
            return Ok(());
        }
        self.closed = true;
        absorb_status(status, fetch)
    }
}

impl ServerBuilder {
    /// Directory the engine stores its persistent state in.
    pub fn dir(self, dir: &str) -> (r: Self)
        ensures
            r@ == apply_step(self@, SetterStep::Dir(dir@)),
    {
        Self { dir: Some(dir.to_owned()), ..self }
    }

    /// Host name of this node on the overlay network.
    pub fn hostname(self, hostname: &str) -> (r: Self)
        ensures
            r@ == apply_step(self@, SetterStep::Hostname(hostname@)),
    {
        Self { hostname: Some(hostname.to_owned()), ..self }
    }

    /// Key used to authenticate with the control plane automatically.
    pub fn authkey(self, authkey: String) -> (r: Self)
        ensures
            r@ == apply_step(self@, SetterStep::Authkey(authkey@)),
    {
        Self { authkey: Some(authkey), ..self }
    }

    /// Coordination-server URL; absent means the engine default.
    pub fn control_url(self, control_url: String) -> (r: Self)
        ensures
            r@ == apply_step(self@, SetterStep::ControlUrl(control_url@)),
    {
        Self { control_url: Some(control_url), ..self }
    }

    /// Registers the node as ephemeral: deregistered automatically after it
    /// disconnects.
    pub fn ephemeral(self) -> (r: Self)
        ensures
            r@ == apply_step(self@, SetterStep::Ephemeral(true)),
    {
        Self { ephemeral: true, ..self }
    }

    /// Allocates one engine instance and yields the fixed-order plan that
    /// configures and starts it: each present text field in order, the
    /// ephemeral flag, then start. Every text field must cross the boundary
    /// NUL-terminated, so an interior NUL is rejected here.
    pub fn build(self) -> (r: Result<(Server, Vec<EngineOp>), Error>)
        ensures
            (r is Ok) <==> config_strings_valid(self@),
            r matches Ok(p) ==> p.0.lifecycle is NotStarted && !p.0.closed && ops_views(p.1@)
                == server_build_ops_view(self@),
            r matches Err(e) ==> e is NullInString,
    {
        let ServerBuilder { dir, hostname, authkey, control_url, ephemeral } = self;
        let mut ops: Vec<EngineOp> = Vec::new();
        match dir {
            Some(d) => {
                if !check_no_nul(d.as_str()) {
                    return Err(Error::NullInString);
                }
                ops.push(EngineOp::SetDir(d));
            },
            None => {},
        }
        match hostname {
            Some(h) => {
                if !check_no_nul(h.as_str()) {
                    return Err(Error::NullInString);
                }
                ops.push(EngineOp::SetHostname(h));
            },
            None => {},
        }
        match authkey {
            Some(k) => {
                if !check_no_nul(k.as_str()) {
                    return Err(Error::NullInString);
                }
                ops.push(EngineOp::SetAuthkey(k));
            },
            None => {},
        }
        match control_url {
            Some(u) => {
                if !check_no_nul(u.as_str()) {
                    return Err(Error::NullInString);
                }
                ops.push(EngineOp::SetControlUrl(u));
            },
            None => {},
        }
        ops.push(EngineOp::SetEphemeral(ephemeral));
        ops.push(EngineOp::Start);
        proof {
            assert(ops_views(ops@) =~= server_build_ops_view(self@));
        }
        Ok((Server { lifecycle: Lifecycle::NotStarted, closed: false }, ops))
    }
}

} // verus!
