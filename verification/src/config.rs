//! Which namespaces a container gets, and under which names.

use vstd::prelude::*;
use vstd::string::StringExecFns;

verus! {

/// The flag of `unshare(2)` for a new mount namespace.
pub const CLONE_NEWNS: i32 = 0x0002_0000;

/// The flag of `unshare(2)` for a new cgroup namespace.
pub const CLONE_NEWCGROUP: i32 = 0x0200_0000;

/// The flag of `unshare(2)` for a new UTS namespace.
pub const CLONE_NEWUTS: i32 = 0x0400_0000;

/// The flag of `unshare(2)` for a new IPC namespace.
pub const CLONE_NEWIPC: i32 = 0x0800_0000;

/// The flag of `unshare(2)` for a new user namespace.
pub const CLONE_NEWUSER: i32 = 0x1000_0000;

/// The flag of `unshare(2)` for a new PID namespace.
pub const CLONE_NEWPID: i32 = 0x2000_0000;

/// The flag of `unshare(2)` for a new network namespace.
pub const CLONE_NEWNET: i32 = 0x4000_0000;

/// The namespaces that a container is to get.
#[derive(Debug, PartialEq, Eq)]
pub struct NamespaceConfig {
    /// A new PID namespace.
    pub pid: bool,
    /// A new network namespace.
    pub network: bool,
    /// A new mount namespace.
    pub mount: bool,
    /// A new UTS namespace, which holds the host and domain names.
    pub uts: bool,
    /// A new IPC namespace.
    pub ipc: bool,
    /// A new user namespace.
    pub user: bool,
    /// A new cgroup namespace.
    pub cgroup: bool,
    /// The host name to set in the UTS namespace.
    pub hostname: Option<String>,
    /// The domain name to set in the UTS namespace.
    pub domainname: Option<String>,
    /// The directory that is to become the container's root.
    pub rootfs: Option<String>,
}

/// The mathematical content of a [`NamespaceConfig`].
pub struct NamespaceConfigView {
    pub pid: bool,
    pub network: bool,
    pub mount: bool,
    pub uts: bool,
    pub ipc: bool,
    pub user: bool,
    pub cgroup: bool,
    pub hostname: Option<Seq<char>>,
    pub domainname: Option<Seq<char>>,
    pub rootfs: Option<Seq<char>>,
}

/// The text of an optional string.
pub open spec fn option_text(s: Option<String>) -> Option<Seq<char>> {
    match s {
        Some(t) => Some(t@),
        None => None,
    }
}

impl View for NamespaceConfig {
    type V = NamespaceConfigView;

    open spec fn view(&self) -> NamespaceConfigView {
        NamespaceConfigView {
            pid: self.pid,
            network: self.network,
            mount: self.mount,
            uts: self.uts,
            ipc: self.ipc,
            user: self.user,
            cgroup: self.cgroup,
            hostname: option_text(self.hostname),
            domainname: option_text(self.domainname),
            rootfs: option_text(self.rootfs),
        }
    }
}

impl NamespaceConfigView {
    /// The configuration without any namespace and without names.
    pub open spec fn none() -> NamespaceConfigView {
        NamespaceConfigView {
            pid: false,
            network: false,
            mount: false,
            uts: false,
            ipc: false,
            user: false,
            cgroup: false,
            hostname: None,
            domainname: None,
            rootfs: None,
        }
    }

    /// The usual configuration: PID, mount, UTS and IPC namespaces.
    pub open spec fn usual() -> NamespaceConfigView {
        NamespaceConfigView { pid: true, mount: true, uts: true, ipc: true, ..Self::none() }
    }

    /// Every namespace but the user namespace.
    pub open spec fn all() -> NamespaceConfigView {
        NamespaceConfigView {
            pid: true,
            network: true,
            mount: true,
            uts: true,
            ipc: true,
            cgroup: true,
            ..Self::none()
        }
    }

    /// The least isolation: PID and mount namespaces.
    pub open spec fn minimal() -> NamespaceConfigView {
        NamespaceConfigView { pid: true, mount: true, ..Self::none() }
    }

    /// At least one namespace is asked for.
    pub open spec fn has_any(self) -> bool {
        self.pid || self.network || self.mount || self.uts || self.ipc || self.user || self.cgroup
    }

    /// The flags of `unshare(2)` for the namespaces asked for, taken together.
    pub open spec fn clone_flags(self) -> int {
        (if self.pid {
            CLONE_NEWPID as int
        } else {
            0
        }) + (if self.network {
            CLONE_NEWNET as int
        } else {
            0
        }) + (if self.mount {
            CLONE_NEWNS as int
        } else {
            0
        }) + (if self.uts {
            CLONE_NEWUTS as int
        } else {
            0
        }) + (if self.ipc {
            CLONE_NEWIPC as int
        } else {
            0
        }) + (if self.user {
            CLONE_NEWUSER as int
        } else {
            0
        }) + (if self.cgroup {
            CLONE_NEWCGROUP as int
        } else {
            0
        })
    }

    /// The short names of the namespaces asked for, in the order PID, network,
    /// mount, UTS, IPC, user, cgroup.
    pub open spec fn enabled_names(self) -> Seq<Seq<char>> {
        (if self.pid {
            seq!["pid"@]
        } else {
            Seq::empty()
        }) + (if self.network {
            seq!["net"@]
        } else {
            Seq::empty()
        }) + (if self.mount {
            seq!["mnt"@]
        } else {
            Seq::empty()
        }) + (if self.uts {
            seq!["uts"@]
        } else {
            Seq::empty()
        }) + (if self.ipc {
            seq!["ipc"@]
        } else {
            Seq::empty()
        }) + (if self.user {
            seq!["user"@]
        } else {
            Seq::empty()
        }) + (if self.cgroup {
            seq!["cgroup"@]
        } else {
            Seq::empty()
        })
    }
}

/// The texts of a vector of string slices.
pub open spec fn name_texts(v: Seq<&'static str>) -> Seq<Seq<char>> {
    v.map_values(|s: &'static str| s@)
}

/// A copy of an optional string.
fn clone_option(s: &Option<String>) -> (r: Option<String>)
    ensures
        option_text(r) == option_text(*s),
{
    match s {
        Some(text) => Some(text.clone()),
        None => None,
    }
}

impl Clone for NamespaceConfig {
    /// A second configuration that asks for the same.
    fn clone(&self) -> (c: NamespaceConfig)
        ensures
            c@ == self@,
    {
        NamespaceConfig {
            pid: self.pid,
            network: self.network,
            mount: self.mount,
            uts: self.uts,
            ipc: self.ipc,
            user: self.user,
            cgroup: self.cgroup,
            hostname: clone_option(&self.hostname),
            domainname: clone_option(&self.domainname),
            rootfs: clone_option(&self.rootfs),
        }
    }
}

impl Default for NamespaceConfig {
    /// The usual configuration: PID, mount, UTS and IPC namespaces.
    fn default() -> (c: NamespaceConfig)
        ensures
            c@ == NamespaceConfigView::usual(),
    {
        NamespaceConfig {
            pid: true,
            network: false,
            mount: true,
            uts: true,
            ipc: true,
            user: false,
            cgroup: false,
            hostname: None,
            domainname: None,
            rootfs: None,
        }
    }
}

impl NamespaceConfig {
    /// The usual configuration, from which the builder methods go on: PID,
    /// mount, UTS and IPC namespaces.
    pub fn new() -> (c: NamespaceConfig)
        ensures
            c@ == NamespaceConfigView::usual(),
    {
        NamespaceConfig {
            pid: true,
            network: false,
            mount: true,
            uts: true,
            ipc: true,
            user: false,
            cgroup: false,
            hostname: None,
            domainname: None,
            rootfs: None,
        }
    }

    /// The configuration without any namespace and without names: no
    /// isolation at all.
    pub fn none() -> (c: NamespaceConfig)
        ensures
            c@ == NamespaceConfigView::none(),
    {
        NamespaceConfig {
            pid: false,
            network: false,
            mount: false,
            uts: false,
            ipc: false,
            user: false,
            cgroup: false,
            hostname: None,
            domainname: None,
            rootfs: None,
        }
    }

    /// Every namespace but the user namespace.
    pub fn all() -> (c: NamespaceConfig)
        ensures
            c@ == NamespaceConfigView::all(),
    {
        NamespaceConfig {
            pid: true,
            network: true,
            mount: true,
            uts: true,
            ipc: true,
            user: false,
            cgroup: true,
            hostname: None,
            domainname: None,
            rootfs: None,
        }
    }

    /// The least isolation: PID and mount namespaces.
    pub fn minimal() -> (c: NamespaceConfig)
        ensures
            c@ == NamespaceConfigView::minimal(),
    {
        NamespaceConfig {
            pid: true,
            network: false,
            mount: true,
            uts: false,
            ipc: false,
            user: false,
            cgroup: false,
            hostname: None,
            domainname: None,
            rootfs: None,
        }
    }

    /// The same configuration with the PID namespace switched as `enable` says.
    pub fn with_pid(self, enable: bool) -> (c: NamespaceConfig)
        ensures
            c@ == (NamespaceConfigView { pid: enable, ..self@ }),
    {
        let mut c = self;
        c.pid = enable;
        c
    }

    /// The same configuration with the network namespace switched as `enable` says.
    pub fn with_network(self, enable: bool) -> (c: NamespaceConfig)
        ensures
            c@ == (NamespaceConfigView { network: enable, ..self@ }),
    {
        let mut c = self;
        c.network = enable;
        c
    }

    /// The same configuration with the mount namespace switched as `enable` says.
    pub fn with_mount(self, enable: bool) -> (c: NamespaceConfig)
        ensures
            c@ == (NamespaceConfigView { mount: enable, ..self@ }),
    {
        let mut c = self;
        c.mount = enable;
        c
    }

    /// The same configuration with the UTS namespace switched as `enable` says.
    pub fn with_uts(self, enable: bool) -> (c: NamespaceConfig)
        ensures
            c@ == (NamespaceConfigView { uts: enable, ..self@ }),
    {
        let mut c = self;
        c.uts = enable;
        c
    }

    /// The same configuration with the IPC namespace switched as `enable` says.
    pub fn with_ipc(self, enable: bool) -> (c: NamespaceConfig)
        ensures
            c@ == (NamespaceConfigView { ipc: enable, ..self@ }),
    {
        let mut c = self;
        c.ipc = enable;
        c
    }

    /// The same configuration with the user namespace switched as `enable` says.
    pub fn with_user(self, enable: bool) -> (c: NamespaceConfig)
        ensures
            c@ == (NamespaceConfigView { user: enable, ..self@ }),
    {
        let mut c = self;
        c.user = enable;
        c
    }

    /// The same configuration with the cgroup namespace switched as `enable` says.
    pub fn with_cgroup(self, enable: bool) -> (c: NamespaceConfig)
        ensures
            c@ == (NamespaceConfigView { cgroup: enable, ..self@ }),
    {
        let mut c = self;
        c.cgroup = enable;
        c
    }

    /// The same configuration with the given host name.
    pub fn with_hostname(self, hostname: &str) -> (c: NamespaceConfig)
        ensures
            c@ == (NamespaceConfigView { hostname: Some(hostname@), ..self@ }),
    {
        let mut c = self;
        c.hostname = Some(String::from_str(hostname));
        c
    }

    /// The same configuration with the given domain name.
    pub fn with_domainname(self, domainname: &str) -> (c: NamespaceConfig)
        ensures
            c@ == (NamespaceConfigView { domainname: Some(domainname@), ..self@ }),
    {
        let mut c = self;
        c.domainname = Some(String::from_str(domainname));
        c
    }

    /// The same configuration with the given directory as the root.
    pub fn with_rootfs(self, rootfs: &str) -> (c: NamespaceConfig)
        ensures
            c@ == (NamespaceConfigView { rootfs: Some(rootfs@), ..self@ }),
    {
        let mut c = self;
        c.rootfs = Some(String::from_str(rootfs));
        c
    }

    /// The flags of `unshare(2)` for the namespaces asked for, taken together.
    pub fn to_clone_flags(&self) -> (flags: i32)
        ensures
            flags == self@.clone_flags(),
    {
        let mut flags: i32 = 0;
        if self.pid {
            flags = flags + CLONE_NEWPID;
        }
        if self.network {
            flags = flags + CLONE_NEWNET;
        }
        if self.mount {
            flags = flags + CLONE_NEWNS;
        }
        if self.uts {
            flags = flags + CLONE_NEWUTS;
        }
        if self.ipc {
            flags = flags + CLONE_NEWIPC;
        }
        if self.user {
            flags = flags + CLONE_NEWUSER;
        }
        if self.cgroup {
            flags = flags + CLONE_NEWCGROUP;
        }
        flags
    }

    /// Whether at least one namespace is asked for.
    pub fn has_any(&self) -> (r: bool)
        ensures
            r == self@.has_any(),
    {
        self.pid || self.network || self.mount || self.uts || self.ipc || self.user || self.cgroup
    }

    /// The short names of the namespaces asked for, in the order PID, network,
    /// mount, UTS, IPC, user, cgroup.
    pub fn enabled_namespaces(&self) -> (names: Vec<&'static str>)
        ensures
            name_texts(names@) == self@.enabled_names(),
    {
        let mut names: Vec<&'static str> = Vec::new();
        push_name_if(&mut names, self.pid, "pid");
        assert(name_texts(names@) =~= if self.pid {
            seq!["pid"@]
        } else {
            Seq::empty()
        });
        push_name_if(&mut names, self.network, "net");
        push_name_if(&mut names, self.mount, "mnt");
        push_name_if(&mut names, self.uts, "uts");
        push_name_if(&mut names, self.ipc, "ipc");
        push_name_if(&mut names, self.user, "user");
        push_name_if(&mut names, self.cgroup, "cgroup");
        names
    }
}

/// Appends `name` to `names` where `wanted` holds.
fn push_name_if(names: &mut Vec<&'static str>, wanted: bool, name: &'static str)
    ensures
        name_texts(final(names)@) == name_texts(old(names)@) + (if wanted {
            seq![name@]
        } else {
            Seq::empty()
        }),
{
    if wanted {
        names.push(name);
    }
    assert(name_texts(names@) =~= name_texts(old(names)@) + (if wanted {
        seq![name@]
    } else {
        Seq::empty()
    }));
}

/// The flags of a configuration fit in 32 bits, and each flag is among
/// them exactly where its namespace is asked for.
pub proof fn lemma_clone_flags(v: NamespaceConfigView)
    ensures
        0 <= v.clone_flags() <= 0x7e02_0000,
        (v.clone_flags() as u32) & 0x2000_0000 != 0 <==> v.pid,
        (v.clone_flags() as u32) & 0x4000_0000 != 0 <==> v.network,
        (v.clone_flags() as u32) & 0x0002_0000 != 0 <==> v.mount,
        (v.clone_flags() as u32) & 0x0400_0000 != 0 <==> v.uts,
        (v.clone_flags() as u32) & 0x0800_0000 != 0 <==> v.ipc,
        (v.clone_flags() as u32) & 0x1000_0000 != 0 <==> v.user,
        (v.clone_flags() as u32) & 0x0200_0000 != 0 <==> v.cgroup,
{
    let p: u32 = if v.pid { 0x2000_0000 } else { 0 };
    let n: u32 = if v.network { 0x4000_0000 } else { 0 };
    let m: u32 = if v.mount { 0x0002_0000 } else { 0 };
    let u: u32 = if v.uts { 0x0400_0000 } else { 0 };
    let i: u32 = if v.ipc { 0x0800_0000 } else { 0 };
    let s: u32 = if v.user { 0x1000_0000 } else { 0 };
    let c: u32 = if v.cgroup { 0x0200_0000 } else { 0 };
    let f: u32 = (p + n + m + u + i + s + c) as u32;
    assert(f == v.clone_flags());
    assert((f & 0x2000_0000 != 0 <==> p != 0) && (f & 0x4000_0000 != 0 <==> n != 0) && (f
        & 0x0002_0000 != 0 <==> m != 0) && (f & 0x0400_0000 != 0 <==> u != 0) && (f & 0x0800_0000
        != 0 <==> i != 0) && (f & 0x1000_0000 != 0 <==> s != 0) && (f & 0x0200_0000 != 0 <==> c
        != 0)) by (bit_vector)
        requires
            p == 0x2000_0000u32 || p == 0,
            n == 0x4000_0000u32 || n == 0,
            m == 0x0002_0000u32 || m == 0,
            u == 0x0400_0000u32 || u == 0,
            i == 0x0800_0000u32 || i == 0,
            s == 0x1000_0000u32 || s == 0,
            c == 0x0200_0000u32 || c == 0,
            f == p + n + m + u + i + s + c,
    ;
}

/// A set of namespace kinds, one bit for each.
#[derive(Debug, Clone, Copy, PartialEq, Eq, Structural)]
pub struct NamespaceFlags(pub u32);

impl NamespaceFlags {
    /// The PID namespace.
    pub fn pid() -> (f: NamespaceFlags)
        ensures
            f.0 == 0b0000_0001u32,
    {
        NamespaceFlags(0b0000_0001)
    }

    /// The network namespace.
    pub fn net() -> (f: NamespaceFlags)
        ensures
            f.0 == 0b0000_0010u32,
    {
        NamespaceFlags(0b0000_0010)
    }

    /// The mount namespace.
    pub fn mnt() -> (f: NamespaceFlags)
        ensures
            f.0 == 0b0000_0100u32,
    {
        NamespaceFlags(0b0000_0100)
    }

    /// The UTS namespace.
    pub fn uts() -> (f: NamespaceFlags)
        ensures
            f.0 == 0b0000_1000u32,
    {
        NamespaceFlags(0b0000_1000)
    }

    /// The IPC namespace.
    pub fn ipc() -> (f: NamespaceFlags)
        ensures
            f.0 == 0b0001_0000u32,
    {
        NamespaceFlags(0b0001_0000)
    }

    /// The user namespace.
    pub fn user() -> (f: NamespaceFlags)
        ensures
            f.0 == 0b0010_0000u32,
    {
        NamespaceFlags(0b0010_0000)
    }

    /// The cgroup namespace.
    pub fn cgroup() -> (f: NamespaceFlags)
        ensures
            f.0 == 0b0100_0000u32,
    {
        NamespaceFlags(0b0100_0000)
    }

    /// Every kind of namespace.
    pub fn all() -> (f: NamespaceFlags)
        ensures
            f.0 == 0b0111_1111u32,
    {
        NamespaceFlags(0b0111_1111)
    }

    /// No namespace.
    pub fn none() -> (f: NamespaceFlags)
        ensures
            f.0 == 0u32,
    {
        NamespaceFlags(0)
    }

    /// The set with the given bits.
    pub fn from_bits(bits: u32) -> (f: NamespaceFlags)
        ensures
            f.0 == bits,
    {
        NamespaceFlags(bits)
    }

    /// The bits of the set.
    pub fn bits(self) -> (bits: u32)
        ensures
            bits == self.0,
    {
        self.0
    }

    /// Whether every kind in `other` is in this set.
    pub fn contains(self, other: NamespaceFlags) -> (r: bool)
        ensures
            r == (self.0 & other.0 == other.0),
    {
        (self.0 & other.0) == other.0
    }
}

impl core::ops::BitOr for NamespaceFlags {
    type Output = NamespaceFlags;

    /// The kinds that are in either set.
    fn bitor(self, rhs: NamespaceFlags) -> (f: NamespaceFlags) {
        NamespaceFlags(self.0 | rhs.0)
    }
}

impl vstd::std_specs::ops::BitOrSpecImpl for NamespaceFlags {
    open spec fn obeys_bitor_spec() -> bool {
        true
    }

    open spec fn bitor_req(self, rhs: NamespaceFlags) -> bool {
        true
    }

    open spec fn bitor_spec(self, rhs: NamespaceFlags) -> NamespaceFlags {
        NamespaceFlags(self.0 | rhs.0)
    }
}

impl core::ops::BitAnd for NamespaceFlags {
    type Output = NamespaceFlags;

    /// The kinds that are in both sets.
    fn bitand(self, rhs: NamespaceFlags) -> (f: NamespaceFlags) {
        NamespaceFlags(self.0 & rhs.0)
    }
}

impl vstd::std_specs::ops::BitAndSpecImpl for NamespaceFlags {
    open spec fn obeys_bitand_spec() -> bool {
        true
    }

    open spec fn bitand_req(self, rhs: NamespaceFlags) -> bool {
        true
    }

    open spec fn bitand_spec(self, rhs: NamespaceFlags) -> NamespaceFlags {
        NamespaceFlags(self.0 & rhs.0)
    }
}

/// A union holds each of its two parts, and a set holds another exactly where
/// their intersection is that other.
pub proof fn lemma_flags(a: NamespaceFlags, b: NamespaceFlags)
    ensures
        (a.0 | b.0) & a.0 == a.0,
        (a.0 | b.0) & b.0 == b.0,
        a.0 & b.0 == b.0 <==> a.0 | b.0 == a.0,
{
    let x = a.0;
    let y = b.0;
    assert((x | y) & x == x) by (bit_vector);
    assert((x | y) & y == y) by (bit_vector);
    assert((x & y == y) <==> (x | y == x)) by (bit_vector);
}

} // verus!
