//! Engine configuration: an immutable snapshot of the optional parameters
//! that must all be applied before the engine starts, and the builder that
//! collects them. The model below also states the law that the snapshot a
//! builder produces depends only on which values were given, never on the
//! order in which distinct fields were set.

use vstd::prelude::*;

verus! {

/// Immutable snapshot of the optional engine parameters, consumed once when
/// a server handle is constructed. An absent field leaves the engine default.
pub struct Config {
    pub dir: Option<String>,
    pub hostname: Option<String>,
    pub authkey: Option<String>,
    pub control_url: Option<String>,
    pub ephemeral: bool,
    pub logging_fd: i32,
}

/// The mathematical content of a configuration: each text field as its
/// character sequence.
pub ghost struct ConfigView {
    pub dir: Option<Seq<char>>,
    pub hostname: Option<Seq<char>>,
    pub authkey: Option<Seq<char>>,
    pub control_url: Option<Seq<char>>,
    pub ephemeral: bool,
    pub logging_fd: int,
}

pub open spec fn str_opt_view(o: Option<String>) -> Option<Seq<char>> {
    match o {
        Some(s) => Some(s@),
        None => None,
    }
}

impl View for Config {
    type V = ConfigView;

    open spec fn view(&self) -> ConfigView {
        ConfigView {
            dir: str_opt_view(self.dir),
            hostname: str_opt_view(self.hostname),
            authkey: str_opt_view(self.authkey),
            control_url: str_opt_view(self.control_url),
            ephemeral: self.ephemeral,
            logging_fd: self.logging_fd as int,
        }
    }
}

/// The configuration every builder starts from: nothing set, logging
/// discarded (a log descriptor of -1 means discard).
pub open spec fn default_config_view() -> ConfigView {
    ConfigView {
        dir: None,
        hostname: None,
        authkey: None,
        control_url: None,
        ephemeral: false,
        logging_fd: -1,
    }
}

/// One application of a builder setter, as a value: which field, and what it
/// was set to.
pub ghost enum SetterStep {
    Dir(Seq<char>),
    Hostname(Seq<char>),
    Authkey(Seq<char>),
    ControlUrl(Seq<char>),
    Ephemeral(bool),
    LogFd(int),
}

/// Which field a step sets.
pub open spec fn field_tag(s: SetterStep) -> int {
    match s {
        SetterStep::Dir(_) => 0,
        SetterStep::Hostname(_) => 1,
        SetterStep::Authkey(_) => 2,
        SetterStep::ControlUrl(_) => 3,
        SetterStep::Ephemeral(_) => 4,
        SetterStep::LogFd(_) => 5,
    }
}

pub open spec fn same_field(a: SetterStep, b: SetterStep) -> bool {
    field_tag(a) == field_tag(b)
}

/// Effect of one setter application on a configuration.
pub open spec fn apply_step(v: ConfigView, s: SetterStep) -> ConfigView {
    match s {
        SetterStep::Dir(d) => ConfigView { dir: Some(d), ..v },
        SetterStep::Hostname(h) => ConfigView { hostname: Some(h), ..v },
        SetterStep::Authkey(k) => ConfigView { authkey: Some(k), ..v },
        SetterStep::ControlUrl(u) => ConfigView { control_url: Some(u), ..v },
        SetterStep::Ephemeral(e) => ConfigView { ephemeral: e, ..v },
        SetterStep::LogFd(fd) => ConfigView { logging_fd: fd, ..v },
    }
}

/// Effect of a whole sequence of setter applications, in order.
pub open spec fn apply_steps(v: ConfigView, ss: Seq<SetterStep>) -> ConfigView
    decreases ss.len(),
{
    if ss.len() == 0 {
        v
    } else {
        apply_step(apply_steps(v, ss.drop_last()), ss.last())
    }
}

/// No two steps set the same field.
pub open spec fn distinct_fields(ss: Seq<SetterStep>) -> bool {
    forall|i: int, j: int| 0 <= i < j < ss.len() ==> !same_field(ss[i], ss[j])
}

/// Setters of distinct fields commute.
pub proof fn lemma_steps_commute(v: ConfigView, a: SetterStep, b: SetterStep)
    requires
        !same_field(a, b),
    ensures
        apply_step(apply_step(v, a), b) == apply_step(apply_step(v, b), a),
{
}

/// Unfolding one step from the end of a sequence of applications.
proof fn lemma_apply_push(v: ConfigView, ss: Seq<SetterStep>, a: SetterStep)
    ensures
        apply_steps(v, ss.push(a)) == apply_step(apply_steps(v, ss), a),
{
    assert(ss.push(a).drop_last() =~= ss);
    assert(ss.push(a).last() == a);
}

/// Appending a step whose field no later step touches can be deferred past
/// those later steps.
proof fn lemma_defer_step(v: ConfigView, u: Seq<SetterStep>, a: SetterStep, w: Seq<SetterStep>)
    requires
        forall|l: int| 0 <= l < w.len() ==> !same_field(a, #[trigger] w[l]),
    ensures
        apply_steps(v, u + seq![a] + w) == apply_steps(v, (u + w).push(a)),
    decreases w.len(),
{
    if w.len() == 0 {
        assert(u + seq![a] + w =~= (u + w).push(a));
    } else {
        let b = w.last();
        let w0 = w.drop_last();
        assert((u + seq![a] + w).drop_last() =~= u + seq![a] + w0);
        assert((u + seq![a] + w).last() == b);
        lemma_defer_step(v, u, a, w0);
        let base = apply_steps(v, u + w0);
        lemma_apply_push(v, u + w0, a);
        lemma_steps_commute(base, a, b);
        assert(apply_steps(v, u + seq![a] + w) == apply_step(apply_step(base, a), b));
        assert((u + w0).push(b) =~= u + w);
        lemma_apply_push(v, u + w0, b);
        lemma_apply_push(v, u + w, a);
        assert(apply_steps(v, (u + w).push(a)) == apply_step(apply_step(base, b), a));
    }
}

/// Two same-field steps somewhere in `ss` contradict `distinct_fields` of any
/// sequence with the same multiset of steps.
proof fn lemma_multiset_distinct_fields(ss1: Seq<SetterStep>, ss2: Seq<SetterStep>)
    requires
        distinct_fields(ss1),
        ss1.to_multiset() == ss2.to_multiset(),
    ensures
        distinct_fields(ss2),
{
    ss1.to_multiset_ensures();
    ss2.to_multiset_ensures();
    assert forall|i: int, j: int| 0 <= i < j < ss2.len() implies !same_field(ss2[i], ss2[j]) by {
        if same_field(ss2[i], ss2[j]) {
            if ss2[i] == ss2[j] {
                let x = ss2[i];
                let r2 = ss2.remove(i);
                r2.to_multiset_ensures();
                assert(r2.to_multiset() =~= ss2.to_multiset().remove(x));
                assert(r2[j - 1] == x);
                assert(r2.contains(x));
                assert(r2.to_multiset().count(x) > 0);
                assert(ss1.to_multiset().count(x) >= 2);
                assert(ss1.contains(x));
                let p = choose|p: int| 0 <= p < ss1.len() && ss1[p] == x;
                let r1 = ss1.remove(p);
                r1.to_multiset_ensures();
                assert(r1.to_multiset() =~= ss1.to_multiset().remove(x));
                assert(r1.to_multiset().count(x) > 0);
                assert(r1.contains(x));
                let q = choose|q: int| 0 <= q < r1.len() && r1[q] == x;
                let q2 = if q < p {
                    q
                } else {
                    q + 1
                };
                assert(ss1[q2] == x);
                assert(p != q2);
                if p < q2 {
                    assert(!same_field(ss1[p], ss1[q2]));
                } else {
                    assert(!same_field(ss1[q2], ss1[p]));
                }
                assert(false);
            } else {
                let x = ss2[i];
                let y = ss2[j];
                assert(ss2.contains(x) && ss2.contains(y));
                assert(ss1.to_multiset().count(x) > 0 && ss1.to_multiset().count(y) > 0);
                assert(ss1.contains(x) && ss1.contains(y));
                let p = choose|p: int| 0 <= p < ss1.len() && ss1[p] == x;
                let q = choose|q: int| 0 <= q < ss1.len() && ss1[q] == y;
                assert(p != q);
                if p < q {
                    assert(!same_field(ss1[p], ss1[q]));
                } else {
                    assert(!same_field(ss1[q], ss1[p]));
                }
                assert(false);
            }
        }
    }
}

/// Law: for any collection of configuration-setter applications that touch
/// pairwise distinct fields, the configuration reached is the same in
/// whatever order they are applied. Together with the fact that the
/// operation plan and the build outcome are functions of the configuration
/// value, the externally observable outcome of a build is deterministic over
/// all orderings of the fields applied before start.
pub proof fn lemma_apply_steps_order_irrelevant(
    v: ConfigView,
    ss1: Seq<SetterStep>,
    ss2: Seq<SetterStep>,
)
    requires
        distinct_fields(ss1),
        ss1.to_multiset() == ss2.to_multiset(),
    ensures
        apply_steps(v, ss1) == apply_steps(v, ss2),
    decreases ss1.len(),
{
    ss1.to_multiset_ensures();
    ss2.to_multiset_ensures();
    if ss1.len() == 0 {
        assert(ss2.to_multiset().len() == 0);
        assert(ss2.len() == 0);
    } else {
        let a = ss1.last();
        assert(ss1.contains(a));
        assert(ss2.to_multiset().count(a) > 0);
        assert(ss2.contains(a));
        let k = choose|k: int| 0 <= k < ss2.len() && ss2[k] == a;
        let u = ss2.take(k);
        let w = ss2.skip(k + 1);
        assert(ss2 =~= u + seq![a] + w);
        lemma_multiset_distinct_fields(ss1, ss2);
        assert forall|l: int| 0 <= l < w.len() implies !same_field(a, #[trigger] w[l]) by {
            assert(w[l] == ss2[k + 1 + l]);
        }
        lemma_defer_step(v, u, a, w);
        let rest1 = ss1.drop_last();
        let rest2 = u + w;
        assert(ss1 =~= rest1.push(a));
        assert(ss2.remove(k) =~= rest2);
        assert(ss2.remove(k).to_multiset() =~= ss2.to_multiset().remove(a));
        assert(rest1.to_multiset() =~= ss1.to_multiset().remove(a)) by {
            assert(ss1.remove(ss1.len() - 1) =~= rest1);
            assert(ss1.remove(ss1.len() - 1).to_multiset() =~= ss1.to_multiset().remove(
                ss1[ss1.len() - 1],
            ));
        }
        assert(distinct_fields(rest1));
        lemma_apply_steps_order_irrelevant(v, rest1, rest2);
        lemma_apply_push(v, rest1, a);
        lemma_apply_push(v, rest2, a);
        assert(apply_steps(v, rest1.push(a)) == apply_steps(v, ss1));
    }
}

/// A convenience builder that collects the optional engine parameters and
/// produces the immutable configuration snapshot.
pub struct ConfigBuilder {
    pub dir: Option<String>,
    pub hostname: Option<String>,
    pub authkey: Option<String>,
    pub control_url: Option<String>,
    pub ephemeral: bool,
    pub logging_fd: i32,
}

impl View for ConfigBuilder {
    type V = ConfigView;

    open spec fn view(&self) -> ConfigView {
        ConfigView {
            dir: str_opt_view(self.dir),
            hostname: str_opt_view(self.hostname),
            authkey: str_opt_view(self.authkey),
            control_url: str_opt_view(self.control_url),
            ephemeral: self.ephemeral,
            logging_fd: self.logging_fd as int,
        }
    }
}

impl ConfigBuilder {
    pub fn new() -> (r: ConfigBuilder)
        ensures
            r@ == default_config_view(),
    {
        ConfigBuilder {
            dir: None,
            hostname: None,
            authkey: None,
            control_url: None,
            ephemeral: false,
            logging_fd: -1,
        }
    }

    /// Directory the engine stores its persistent state in.
    pub fn dir(self, dir: &str) -> (r: Self)
        ensures
            r@ == apply_step(self@, SetterStep::Dir(dir@)),
    {
        Self { dir: Some(dir.to_owned()), ..self }
    }

    /// Host name of this node on the overlay network.
    pub fn hostname(self, hostname: &str) -> (r: Self)
        ensures
            r@ == apply_step(self@, SetterStep::Hostname(hostname@)),
    {
        Self { hostname: Some(hostname.to_owned()), ..self }
    }

    /// Key used to authenticate with the control plane automatically.
    pub fn authkey(self, authkey: &str) -> (r: Self)
        ensures
            r@ == apply_step(self@, SetterStep::Authkey(authkey@)),
    {
        Self { authkey: Some(authkey.to_owned()), ..self }
    }

    /// Coordination-server URL; absent means the engine default.
    pub fn control_url(self, control_url: &str) -> (r: Self)
        ensures
            r@ == apply_step(self@, SetterStep::ControlUrl(control_url@)),
    {
        Self { control_url: Some(control_url.to_owned()), ..self }
    }

    /// Whether the node deregisters automatically after disconnecting.
    pub fn ephemeral(self, ephemeral: bool) -> (r: Self)
        ensures
            r@ == apply_step(self@, SetterStep::Ephemeral(ephemeral)),
    {
        Self { ephemeral, ..self }
    }

    /// Descriptor the engine writes its logs to; -1 discards all logging.
    pub fn logging_fd(self, logging_fd: i32) -> (r: Self)
        ensures
            r@ == apply_step(self@, SetterStep::LogFd(logging_fd as int)),
    {
        Self { logging_fd, ..self }
    }

    /// Produces the immutable snapshot of everything collected so far.
    pub fn build(self) -> (r: Result<Config, String>)
        ensures
            r matches Ok(c) && c@ == self@,
    {
        Ok(
            Config {
                dir: self.dir,
                hostname: self.hostname,
                authkey: self.authkey,
                control_url: self.control_url,
                ephemeral: self.ephemeral,
                logging_fd: self.logging_fd,
            },
        )
    }
}

} // verus!
