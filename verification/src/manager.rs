//! Bringing the namespaces of a container into being.
//!
//! The manager works out, before anything is done, which calls are to be
//! made and in which order; a process between `fork` and `exec` can then
//! make them without deciding anything.

use vstd::prelude::*;
use vstd::string::StringExecFns;
use crate::config::{option_text, NamespaceConfig, NamespaceConfigView};
use crate::error::{Error, ErrorView, IoFailure, IoFailureView};
use crate::text::{decimal, push_decimal};

verus! {

/// One call that brings namespaces into being.
#[derive(Debug, Clone, PartialEq, Eq)]
pub enum NamespaceAction {
    /// Call `unshare(2)` with these flags.
    Unshare {
        /// The flags, taken together.
        flags: i32,
    },
    /// Set the host name.
    SetHostname {
        /// The name.
        name: String,
    },
    /// Set the domain name.
    SetDomainname {
        /// The name.
        name: String,
    },
}

/// The mathematical content of a [`NamespaceAction`].
pub enum ActionView {
    Unshare { flags: i32 },
    SetHostname { name: Seq<char> },
    SetDomainname { name: Seq<char> },
}

impl View for NamespaceAction {
    type V = ActionView;

    open spec fn view(&self) -> ActionView {
        match *self {
            NamespaceAction::Unshare { flags } => ActionView::Unshare { flags },
            NamespaceAction::SetHostname { name } => ActionView::SetHostname { name: name@ },
            NamespaceAction::SetDomainname { name } => ActionView::SetDomainname { name: name@ },
        }
    }
}

/// The views of a sequence of actions.
pub open spec fn action_views(actions: Seq<NamespaceAction>) -> Seq<ActionView> {
    actions.map_values(|a: NamespaceAction| a@)
}

impl ActionView {
    /// What is said to have gone wrong where the action fails.
    pub open spec fn complaint(self) -> Seq<char> {
        match self {
            ActionView::Unshare { .. } => "Failed to unshare namespaces"@,
            ActionView::SetHostname { .. } => "Failed to set hostname"@,
            ActionView::SetDomainname { .. } => "Failed to set domain name"@,
        }
    }
}

/// An action that failed, and why.
#[derive(Debug, Clone, PartialEq, Eq)]
pub struct FailedAction {
    /// The action.
    pub action: NamespaceAction,
    /// Why it failed.
    pub failure: IoFailure,
}

/// How bringing the namespaces into being went.
pub type Outcome = Result<(), FailedAction>;

/// The mathematical content of an [`Outcome`].
pub open spec fn outcome_view(outcome: Outcome) -> Result<(), (ActionView, IoFailureView)> {
    match outcome {
        Ok(_) => Ok(()),
        Err(failed) => Err((failed.action@, failed.failure@)),
    }
}

/// The mathematical content of a [`NamespaceManager`].
pub struct ManagerView {
    pub config: NamespaceConfigView,
    pub created: bool,
}

impl ManagerView {
    /// The flags for `unshare(2)`: those of the configuration but for the
    /// flag of the PID namespace, which takes effect only in a child.
    pub open spec fn unshare_flags(self) -> int {
        (NamespaceConfigView { pid: false, ..self.config }).clone_flags()
    }

    /// Whether a PID namespace is to come with the next child.
    pub open spec fn pid_namespace_pending(self) -> bool {
        self.config.pid
    }

    /// Whether there is anything to do: the namespaces have not been made,
    /// and at least one is asked for.
    pub open spec fn has_work(self) -> bool {
        !self.created && self.config.has_any()
    }

    /// The calls to make, in this order: `unshare` where a namespace other
    /// than the PID namespace is asked for, then, with a UTS namespace, the
    /// host name and the domain name where they are given.
    pub open spec fn plan(self) -> Seq<ActionView> {
        if !self.has_work() {
            Seq::empty()
        } else {
            (if self.unshare_flags() != 0 {
                seq![ActionView::Unshare { flags: self.unshare_flags() as i32 }]
            } else {
                Seq::empty()
            }) + (if self.config.uts && self.config.hostname is Some {
                seq![ActionView::SetHostname { name: self.config.hostname->0 }]
            } else {
                Seq::empty()
            }) + (if self.config.uts && self.config.domainname is Some {
                seq![ActionView::SetDomainname { name: self.config.domainname->0 }]
            } else {
                Seq::empty()
            })
        }
    }

    /// The manager after the calls were made: the namespaces are made
    /// where there was work and every call succeeded.
    pub open spec fn after(self, outcome: Result<(), (ActionView, IoFailureView)>) -> ManagerView {
        if self.has_work() && outcome is Ok {
            ManagerView { created: true, ..self }
        } else {
            self
        }
    }

    /// What is reported after the calls were made: where there was work and
    /// a call failed, a namespace failure that names the call.
    pub open spec fn report(self, outcome: Result<(), (ActionView, IoFailureView)>) -> Result<
        (),
        ErrorView,
    > {
        if !self.has_work() {
            Ok(())
        } else {
            match outcome {
                Ok(_) => Ok(()),
                Err((action, failure)) => Err(
                    ErrorView::namespace_failure(action.complaint(), failure),
                ),
            }
        }
    }
}

/// The manager of the namespaces of one container.
#[derive(Debug)]
pub struct NamespaceManager {
    config: NamespaceConfig,
    created: bool,
}

impl View for NamespaceManager {
    type V = ManagerView;

    closed spec fn view(&self) -> ManagerView {
        ManagerView { config: self.config@, created: self.created }
    }
}

impl NamespaceManager {
    /// A manager for the given configuration. Nothing has been made yet.
    pub fn new(config: NamespaceConfig) -> (m: NamespaceManager)
        ensures
            m@ == (ManagerView { config: config@, created: false }),
    {
        NamespaceManager { config, created: false }
    }

    /// A manager for the usual configuration.
    pub fn with_defaults() -> (m: NamespaceManager)
        ensures
            m@ == (ManagerView { config: NamespaceConfigView::usual(), created: false }),
    {
        NamespaceManager::new(NamespaceConfig::default())
    }

    /// The configuration.
    pub fn config(&self) -> (config: &NamespaceConfig)
        ensures
            config@ == self@.config,
    {
        &self.config
    }

    /// Whether the namespaces have been made.
    pub fn is_created(&self) -> (r: bool)
        ensures
            r == self@.created,
    {
        self.created
    }

    /// Whether a PID namespace is to come with the next child.
    pub fn pid_namespace_pending(&self) -> (r: bool)
        ensures
            r == self@.pid_namespace_pending(),
    {
        self.config.pid
    }

    /// The calls to make to bring the namespaces into being, in the order
    /// in which they are to be made. The first that fails ends the attempt.
    pub fn create_plan(&self) -> (plan: Vec<NamespaceAction>)
        ensures
            action_views(plan@) == self@.plan(),
    {
        let mut plan: Vec<NamespaceAction> = Vec::new();
        assert(action_views(plan@) =~= Seq::<ActionView>::empty());
        if self.created || !self.config.has_any() {
            return plan;
        }
        let others = self.config.clone().with_pid(false);
        let flags = others.to_clone_flags();
        if flags != 0 {
            plan.push(NamespaceAction::Unshare { flags });
        }
        assert(action_views(plan@) =~= if self@.unshare_flags() != 0 {
            seq![ActionView::Unshare { flags: self@.unshare_flags() as i32 }]
        } else {
            Seq::empty()
        });
        let ghost first = action_views(plan@);
        if self.config.uts {
            match &self.config.hostname {
                Some(name) => {
                    plan.push(NamespaceAction::SetHostname { name: name.clone() });
                },
                None => {},
            }
        }
        assert(action_views(plan@) =~= first + if self@.config.uts && self@.config.hostname
            is Some {
            seq![ActionView::SetHostname { name: self@.config.hostname->0 }]
        } else {
            Seq::empty()
        });
        let ghost second = action_views(plan@);
        if self.config.uts {
            match &self.config.domainname {
                Some(name) => {
                    plan.push(NamespaceAction::SetDomainname { name: name.clone() });
                },
                None => {},
            }
        }
        assert(action_views(plan@) =~= second + if self@.config.uts && self@.config.domainname
            is Some {
            seq![ActionView::SetDomainname { name: self@.config.domainname->0 }]
        } else {
            Seq::empty()
        });
        plan
    }

    /// Takes note of how the calls of the plan went. Where there was
    /// nothing to do this changes nothing and reports nothing.
    pub fn create(&mut self, outcome: Outcome) -> (r: Result<(), Error>)
        ensures
            final(self)@ == old(self)@.after(outcome_view(outcome)),
            match old(self)@.report(outcome_view(outcome)) {
                Ok(_) => r is Ok,
                Err(e) => r is Err && r->Err_0@ == e,
            },
    {
        if self.created || !self.config.has_any() {
            return Ok(());
        }
        match outcome {
            Ok(_) => {
                self.created = true;
                Ok(())
            },
            Err(failed) => {
                let what = match &failed.action {
                    NamespaceAction::Unshare { .. } => "Failed to unshare namespaces",
                    NamespaceAction::SetHostname { .. } => "Failed to set hostname",
                    NamespaceAction::SetDomainname { .. } => "Failed to set domain name",
                };
                Err(Error::namespace_failure(what, &failed.failure))
            },
        }
    }

    /// Joins the namespaces of the process `pid`. Joining is not provided
    /// for: this does nothing, and succeeds.
    pub fn enter(&self, pid: i32) -> (r: Result<(), Error>)
        ensures
            r is Ok,
    {
        Ok(())
    }
}

/// The names of the links under `/proc/<pid>/ns`, in the order of the fields
/// of [`NamespaceInfo`].
pub open spec fn link_names() -> Seq<Seq<char>> {
    seq!["pid"@, "net"@, "mnt"@, "uts"@, "ipc"@, "user"@, "cgroup"@]
}

/// The link that tells the namespace of a kind of the process `pid`.
pub open spec fn link_path(pid: u32, name: Seq<char>) -> Seq<char> {
    "/proc/"@ + decimal(pid as nat) + "/ns/"@ + name
}

/// The links that tell the namespaces of the process `pid`.
pub open spec fn link_paths(pid: u32) -> Seq<Seq<char>> {
    link_names().map_values(|name: Seq<char>| link_path(pid, name))
}

/// The link that tells the namespace of a kind of the process `pid`.
fn link_to(pid: u32, name: &str) -> (path: String)
    ensures
        path@ == link_path(pid, name@),
{
    let mut path = String::from_str("/proc/");
    push_decimal(&mut path, pid as u64);
    path.append("/ns/");
    path.append(name);
    path
}

/// The links to read to learn the namespaces of the process `pid`, in the
/// order of the fields of [`NamespaceInfo`].
pub fn namespace_links(pid: u32) -> (paths: Vec<String>)
    ensures
        crate::text::string_texts(paths@) == link_paths(pid),
{
    let mut paths: Vec<String> = Vec::new();
    paths.push(link_to(pid, "pid"));
    paths.push(link_to(pid, "net"));
    paths.push(link_to(pid, "mnt"));
    paths.push(link_to(pid, "uts"));
    paths.push(link_to(pid, "ipc"));
    paths.push(link_to(pid, "user"));
    paths.push(link_to(pid, "cgroup"));
    assert(crate::text::string_texts(paths@) =~= link_paths(pid));
    paths
}

/// The namespaces of a process, each by the text of its link; nothing for a
/// link that could not be read.
#[derive(Debug, Clone, PartialEq, Eq)]
pub struct NamespaceInfo {
    /// The PID namespace.
    pub pid: Option<String>,
    /// The network namespace.
    pub net: Option<String>,
    /// The mount namespace.
    pub mnt: Option<String>,
    /// The UTS namespace.
    pub uts: Option<String>,
    /// The IPC namespace.
    pub ipc: Option<String>,
    /// The user namespace.
    pub user: Option<String>,
    /// The cgroup namespace.
    pub cgroup: Option<String>,
}

/// The mathematical content of a [`NamespaceInfo`].
pub struct NamespaceInfoView {
    pub pid: Option<Seq<char>>,
    pub net: Option<Seq<char>>,
    pub mnt: Option<Seq<char>>,
    pub uts: Option<Seq<char>>,
    pub ipc: Option<Seq<char>>,
    pub user: Option<Seq<char>>,
    pub cgroup: Option<Seq<char>>,
}

impl View for NamespaceInfo {
    type V = NamespaceInfoView;

    open spec fn view(&self) -> NamespaceInfoView {
        NamespaceInfoView {
            pid: option_text(self.pid),
            net: option_text(self.net),
            mnt: option_text(self.mnt),
            uts: option_text(self.uts),
            ipc: option_text(self.ipc),
            user: option_text(self.user),
            cgroup: option_text(self.cgroup),
        }
    }
}

/// One line of the text of a [`NamespaceInfo`], or nothing for a namespace
/// that is not known.
pub open spec fn info_line(label: Seq<char>, link: Option<Seq<char>>) -> Seq<char> {
    match link {
        Some(text) => label + text + "\n"@,
        None => Seq::empty(),
    }
}

impl NamespaceInfoView {
    /// Nothing is known.
    pub open spec fn unknown() -> NamespaceInfoView {
        NamespaceInfoView {
            pid: None,
            net: None,
            mnt: None,
            uts: None,
            ipc: None,
            user: None,
            cgroup: None,
        }
    }

    /// The process is apart from the process `init`: its PID, network or
    /// mount namespace is another.
    pub open spec fn is_isolated_from(self, init: NamespaceInfoView) -> bool {
        self.pid != init.pid || self.net != init.net || self.mnt != init.mnt
    }

    /// The text by which the namespaces are shown: a heading, and a line for
    /// each namespace that is known.
    pub open spec fn description(self) -> Seq<char> {
        "Namespace Info:\n"@ + info_line("  PID:    "@, self.pid) + info_line(
            "  NET:    "@,
            self.net,
        ) + info_line("  MNT:    "@, self.mnt) + info_line("  UTS:    "@, self.uts) + info_line(
            "  IPC:    "@,
            self.ipc,
        ) + info_line("  USER:   "@, self.user) + info_line("  CGROUP: "@, self.cgroup)
    }
}

/// Whether two optional strings hold the same text, or both nothing.
fn same_option(a: &Option<String>, b: &Option<String>) -> (r: bool)
    ensures
        r == (option_text(*a) == option_text(*b)),
{
    match (a, b) {
        (Some(x), Some(y)) => crate::text::str_eq(x.as_str(), y.as_str()),
        (None, None) => true,
        _ => false,
    }
}

/// Appends one line of the text of a [`NamespaceInfo`].
fn push_info_line(s: &mut String, label: &str, link: &Option<String>)
    ensures
        final(s)@ == old(s)@ + info_line(label@, option_text(*link)),
{
    match link {
        Some(text) => {
            s.append(label);
            s.append(text.as_str());
            s.append("\n");
            assert(s@ =~= old(s)@ + (label@ + text@ + "\n"@));
        },
        None => {
            assert(s@ =~= old(s)@ + Seq::<char>::empty());
        },
    }
}

impl NamespaceInfo {
    /// What the seven links of a process gave, in the order PID, network,
    /// mount, UTS, IPC, user, cgroup.
    pub fn from_links(
        pid: Option<String>,
        net: Option<String>,
        mnt: Option<String>,
        uts: Option<String>,
        ipc: Option<String>,
        user: Option<String>,
        cgroup: Option<String>,
    ) -> (info: NamespaceInfo)
        ensures
            info@ == (NamespaceInfoView {
                pid: option_text(pid),
                net: option_text(net),
                mnt: option_text(mnt),
                uts: option_text(uts),
                ipc: option_text(ipc),
                user: option_text(user),
                cgroup: option_text(cgroup),
            }),
    {
        NamespaceInfo { pid, net, mnt, uts, ipc, user, cgroup }
    }

    /// Whether the process is apart from the process `init`, whose
    /// namespaces are given.
    pub fn is_isolated(&self, init: &NamespaceInfo) -> (r: Result<bool, Error>)
        ensures
            r is Ok,
            r->Ok_0 == self@.is_isolated_from(init@),
    {
        Ok(
            !same_option(&self.pid, &init.pid) || !same_option(&self.net, &init.net)
                || !same_option(&self.mnt, &init.mnt),
        )
    }

    /// The text by which the namespaces are shown.
    pub fn to_string(&self) -> (s: String)
        ensures
            s@ == self@.description(),
    {
        let mut s = String::from_str("Namespace Info:\n");
        push_info_line(&mut s, "  PID:    ", &self.pid);
        push_info_line(&mut s, "  NET:    ", &self.net);
        push_info_line(&mut s, "  MNT:    ", &self.mnt);
        push_info_line(&mut s, "  UTS:    ", &self.uts);
        push_info_line(&mut s, "  IPC:    ", &self.ipc);
        push_info_line(&mut s, "  USER:   ", &self.user);
        push_info_line(&mut s, "  CGROUP: ", &self.cgroup);
        s
    }
}

impl Default for NamespaceInfo {
    /// Nothing is known.
    fn default() -> (info: NamespaceInfo)
        ensures
            info@ == NamespaceInfoView::unknown(),
    {
        NamespaceInfo {
            pid: None,
            net: None,
            mnt: None,
            uts: None,
            ipc: None,
            user: None,
            cgroup: None,
        }
    }
}

/// The flag of the PID namespace is never handed to `unshare`, and the names
/// are set only after `unshare`, and only with a UTS namespace.
pub proof fn lemma_plan_order(m: ManagerView)
    ensures
        forall|i: int|
            0 <= i < m.plan().len() ==> {
                let a = #[trigger] m.plan()[i];
                &&& a is Unshare ==> i == 0 && a->flags == m.unshare_flags() && a->flags != 0
                &&& !(a is Unshare) ==> m.config.uts
                &&& a is SetDomainname ==> i == m.plan().len() - 1
            },
        m.unshare_flags() == m.config.clone_flags() - if m.config.pid {
            crate::config::CLONE_NEWPID as int
        } else {
            0
        },
        m.config.uts && m.has_work() ==> m.plan().len() >= 1 && m.plan()[0] is Unshare,
        (m.unshare_flags() as u32) & 0x2000_0000 == 0,
{
    crate::config::lemma_clone_flags(NamespaceConfigView { pid: false, ..m.config });
}

/// Where a call fails there is a namespace failure to report, whatever made
/// the call fail, and the manager stays as it was: nothing is made.
pub proof fn lemma_failed_create(m: ManagerView, action: ActionView, failure: IoFailureView)
    requires
        m.has_work(),
    ensures
        m.report(Err((action, failure))) == Err::<(), ErrorView>(
            ErrorView::Namespace { message: action.complaint() + ": "@ + failure.detail },
        ),
        m.after(Err((action, failure))) == m,
        !m.after(Err((action, failure))).created,
{
}

/// Once the namespaces are made, making them again is nothing: there is no
/// call to make, and whatever is noted changes and reports nothing.
pub proof fn lemma_created_is_final(
    m: ManagerView,
    outcome: Result<(), (ActionView, IoFailureView)>,
)
    requires
        m.created,
    ensures
        m.plan().len() == 0,
        m.after(outcome) == m,
        m.report(outcome) is Ok,
{
}

} // verus!
