//! The near side of the engine's fixed call surface: the operations a handle
//! asks its driver to perform, the life-cycle states of one engine instance,
//! and the fixed-order plan of configuration operations that a configuration
//! snapshot turns into. Status convention: 0 is success, any other value is
//! failure and is followed by one diagnostic fetch.

use vstd::prelude::*;
use vstd::string::StringSliceAdditionalSpecFns;
use vstd::utf8::encode_utf8;

use crate::config::ConfigView;

verus! {

/// One operation on the engine's call surface that a driver performs on
/// behalf of a handle, in the order given, reporting each status back.
#[derive(Debug, PartialEq)]
pub enum EngineOp {
    SetDir(String),
    SetHostname(String),
    SetAuthkey(String),
    SetControlUrl(String),
    SetEphemeral(bool),
    SetLogFd(i32),
    Start,
}

/// The mathematical content of an engine operation.
pub ghost enum OpView {
    SetDir(Seq<char>),
    SetHostname(Seq<char>),
    SetAuthkey(Seq<char>),
    SetControlUrl(Seq<char>),
    SetEphemeral(bool),
    SetLogFd(int),
    Start,
}

impl View for EngineOp {
    type V = OpView;

    open spec fn view(&self) -> OpView {
        match self {
            EngineOp::SetDir(d) => OpView::SetDir(d@),
            EngineOp::SetHostname(h) => OpView::SetHostname(h@),
            EngineOp::SetAuthkey(k) => OpView::SetAuthkey(k@),
            EngineOp::SetControlUrl(u) => OpView::SetControlUrl(u@),
            EngineOp::SetEphemeral(e) => OpView::SetEphemeral(*e),
            EngineOp::SetLogFd(fd) => OpView::SetLogFd(*fd as int),
            EngineOp::Start => OpView::Start,
        }
    }
}

pub open spec fn ops_views(s: Seq<EngineOp>) -> Seq<OpView> {
    s.map_values(|op: EngineOp| op@)
}

/// Life-cycle of one engine instance: configuration is only valid before the
/// first start, and the first dial or listen starts the engine implicitly.
#[derive(Clone, Copy, Debug, PartialEq, Eq, Structural)]
pub enum Lifecycle {
    NotStarted,
    Starting,
    Started,
}

/// A character sequence whose UTF-8 encoding holds no NUL byte, so it can
/// cross the boundary as a NUL-terminated string.
pub open spec fn nul_free(s: Seq<char>) -> bool {
    forall|j: int| 0 <= j < encode_utf8(s).len() ==> encode_utf8(s)[j] != 0u8
}

pub open spec fn opt_nul_free(o: Option<Seq<char>>) -> bool {
    match o {
        Some(s) => nul_free(s),
        None => true,
    }
}

/// Every text field present in the configuration can cross the boundary.
pub open spec fn config_strings_valid(c: ConfigView) -> bool {
    opt_nul_free(c.dir) && opt_nul_free(c.hostname) && opt_nul_free(c.authkey) && opt_nul_free(
        c.control_url,
    )
}

/// Whether `s` can cross the boundary as a NUL-terminated string.
pub fn check_no_nul(s: &str) -> (r: bool)
    ensures
        r == nul_free(s@),
{
    let b = s.as_bytes();
    let mut i: usize = 0;
    while i < b.len()
        invariant
            i <= b@.len(),
            b@ == s.spec_bytes(),
            forall|j: int| 0 <= j < i ==> b@[j] != 0u8,
        decreases b@.len() - i,
    {
        if *vstd::slice::slice_index_get(b, i) == 0u8 {
            return false;
        }
        i = i + 1;
    }
    true
}

/// The operations for the text fields present in a configuration, in the
/// fixed order: state directory, hostname, auth key, control-plane URL.
pub open spec fn present_string_ops(c: ConfigView) -> Seq<OpView> {
    (match c.dir {
        Some(d) => seq![OpView::SetDir(d)],
        None => seq![],
    }) + (match c.hostname {
        Some(h) => seq![OpView::SetHostname(h)],
        None => seq![],
    }) + (match c.authkey {
        Some(k) => seq![OpView::SetAuthkey(k)],
        None => seq![],
    }) + (match c.control_url {
        Some(u) => seq![OpView::SetControlUrl(u)],
        None => seq![],
    })
}

/// The full fixed-order plan a configuration snapshot turns into when a
/// handle is constructed from it: the present text fields, then the
/// ephemeral flag if set, then the log sink.
pub open spec fn config_ops_view(c: ConfigView) -> Seq<OpView> {
    present_string_ops(c) + (if c.ephemeral {
        seq![OpView::SetEphemeral(true)]
    } else {
        seq![]
    }) + seq![OpView::SetLogFd(c.logging_fd)]
}

/// Law: the operation plan is a function of the configuration value alone.
/// In whatever order setters for pairwise distinct fields were applied, the
/// same plan is sent to the engine; a driver applies it in order and stops
/// at the first rejected status, so for the same engine answers the
/// externally observable outcome of a build — success or the same specific
/// rejection — is deterministic over all such orderings.
pub proof fn lemma_build_outcome_deterministic(
    v: ConfigView,
    ss1: Seq<crate::config::SetterStep>,
    ss2: Seq<crate::config::SetterStep>,
)
    requires
        crate::config::distinct_fields(ss1),
        ss1.to_multiset() == ss2.to_multiset(),
    ensures
        config_ops_view(crate::config::apply_steps(v, ss1)) == config_ops_view(
            crate::config::apply_steps(v, ss2),
        ),
{
    crate::config::lemma_apply_steps_order_irrelevant(v, ss1, ss2);
}

/// The validated request for an outbound stream: what to hand the engine,
/// and whether the engine must be started first.
pub struct DialCall {
    pub network: String,
    pub addr: String,
    pub start_first: bool,
}

/// The validated request for a virtual listener.
pub struct ListenCall {
    pub network: String,
    pub addr: String,
    pub start_first: bool,
}

/// The validated request for the textual peer address of a connection
/// accepted on a listener.
pub struct RemoteAddrCall {
    pub listener_fd: i32,
    pub conn_fd: i32,
}

} // verus!
