use vstd::prelude::*;
use vstd::string::*;
use vstd::seq_lib::group_filter_ensures;
use libcontainer::oci_spec::runtime::LinuxNamespaceType as Nt;

verus! {

/// The kinds of Linux namespace a runtime specification can ask for.
#[derive(Clone, Copy, Debug, PartialEq, Eq, Structural)]
pub enum NamespaceKind {
    Mount,
    Cgroup,
    Uts,
    Ipc,
    User,
    Pid,
    Network,
    Time,
}

/// One UID or GID mapping: `size` ids from `host_id` on the host appear
/// from `container_id` on inside the container.
#[derive(Clone, Copy, Debug, PartialEq, Eq, Structural)]
pub struct IdMapping {
    pub host_id: u32,
    pub container_id: u32,
    pub size: u32,
}

/// One mount entry of a runtime specification.
#[derive(Clone, Debug)]
pub struct MountEntry {
    pub destination: String,
    pub typ: Option<String>,
    pub source: Option<String>,
    pub options: Option<Vec<String>>,
}

/// The parts of a runtime specification that rootless execution changes;
/// every other field keeps the template's default.
#[derive(Clone, Debug)]
pub struct RootlessSpec {
    pub namespaces: Vec<NamespaceKind>,
    pub uid_mappings: Vec<IdMapping>,
    pub gid_mappings: Vec<IdMapping>,
    pub mounts: Vec<MountEntry>,
}

pub open spec fn sys_path() -> Seq<char> {
    seq!['/', 's', 'y', 's']
}

pub open spec fn has_prefix(s: Seq<char>, p: Seq<char>) -> bool {
    p.len() <= s.len() && s.subrange(0, p.len() as int) == p
}

/// A mount option that names a uid or gid (`uid=...`, `gid=...`).
pub open spec fn is_id_option(o: Seq<char>) -> bool {
    has_prefix(o, seq!['u', 'i', 'd', '=']) || has_prefix(o, seq!['g', 'i', 'd', '='])
}

pub open spec fn keeps_option(o: Seq<char>) -> bool {
    !is_id_option(o)
}

pub open spec fn option_views(v: Seq<String>) -> Seq<Seq<char>> {
    v.map_values(|s: String| s@)
}

/// A mount as plain text: destination, type, source and options.
pub type MountView = (Seq<char>, Option<Seq<char>>, Option<Seq<char>>, Option<Seq<Seq<char>>>);

pub open spec fn text_view(o: Option<String>) -> Option<Seq<char>> {
    match o {
        Some(s) => Some(s@),
        None => None,
    }
}

pub open spec fn mount_view(m: MountEntry) -> MountView {
    (
        m.destination@,
        text_view(m.typ),
        text_view(m.source),
        match m.options {
            Some(v) => Some(option_views(v@)),
            None => None,
        },
    )
}

/// The options of a mount view, with no options read as an empty list.
pub open spec fn view_options(v: MountView) -> Seq<Seq<char>> {
    match v.3 {
        Some(o) => o,
        None => Seq::empty(),
    }
}

/// The options of a mount as written, with no options read as an empty list.
pub open spec fn options_of(m: MountEntry) -> Seq<Seq<char>> {
    view_options(mount_view(m))
}

/// The option list with every `uid=` / `gid=` option taken out, order kept.
pub open spec fn stripped_options(opts: Seq<Seq<char>>) -> Seq<Seq<char>> {
    opts.filter(|o: Seq<char>| keeps_option(o))
}

pub open spec fn hardened_sys_options() -> Seq<Seq<char>> {
    seq![
        seq!['r', 'b', 'i', 'n', 'd'],
        seq!['n', 'o', 's', 'u', 'i', 'd'],
        seq!['n', 'o', 'e', 'x', 'e', 'c'],
        seq!['n', 'o', 'd', 'e', 'v'],
        seq!['r', 'o'],
    ]
}

/// How the rootless builder rewrites one template mount: a mount at `/sys`
/// becomes a read-only, nosuid, noexec, nodev recursive bind of the host's
/// `/sys`; any other keeps destination, type and source and loses its
/// uid/gid options.
pub open spec fn rebuilt_view(m: MountView) -> MountView {
    if m.0 == sys_path() {
        (m.0, Some(seq!['n', 'o', 'n', 'e']), Some(sys_path()), Some(hardened_sys_options()))
    } else {
        (m.0, m.1, m.2, Some(stripped_options(view_options(m))))
    }
}

pub open spec fn is_rebuilt_mount(m: MountEntry, r: MountEntry) -> bool {
    mount_view(r) == rebuilt_view(mount_view(m))
}

pub open spec fn keeps_namespace(k: NamespaceKind) -> bool {
    k != NamespaceKind::Network && k != NamespaceKind::User
}

/// The template's namespaces without Network and User, then one User namespace.
pub open spec fn rootless_namespace_set(defaults: Seq<NamespaceKind>) -> Seq<NamespaceKind> {
    defaults.filter(|k: NamespaceKind| keeps_namespace(k)).push(NamespaceKind::User)
}

/// One id mapped to container root.
pub open spec fn root_mapping(host_id: u32) -> IdMapping {
    IdMapping { host_id, container_id: 0, size: 1 }
}

/// `s` is the rootless specification built from the two templates and the
/// invoking user's effective ids.
pub open spec fn is_rootless_spec_of(
    s: RootlessSpec,
    default_namespaces: Seq<NamespaceKind>,
    default_mounts: Seq<MountEntry>,
    uid: u32,
    gid: u32,
) -> bool {
    &&& s.namespaces@ == rootless_namespace_set(default_namespaces)
    &&& s.uid_mappings@ == seq![root_mapping(uid)]
    &&& s.gid_mappings@ == seq![root_mapping(gid)]
    &&& s.mounts@.len() == default_mounts.len()
    &&& forall|i: int|
        0 <= i < default_mounts.len() ==> #[trigger] is_rebuilt_mount(
            default_mounts[i],
            s.mounts@[i],
        )
}

/// Whether `s` starts with the four characters `p0 p1 p2 p3`.
fn starts_with4(s: &str, p0: char, p1: char, p2: char, p3: char) -> (r: bool)
    ensures
        r == has_prefix(s@, seq![p0, p1, p2, p3]),
{
    let n = s.unicode_len();
    if n < 4 {
        return false;
    }
    let r = s.get_char(0) == p0 && s.get_char(1) == p1 && s.get_char(2) == p2 && s.get_char(3)
        == p3;
    assert(r == (s@.subrange(0, 4) =~= seq![p0, p1, p2, p3]));
    r
}

/// Whether a mount option names a uid or gid.
pub fn is_id_mount_option(o: &String) -> (r: bool)
    ensures
        r == is_id_option(o@),
{
    starts_with4(o.as_str(), 'u', 'i', 'd', '=') || starts_with4(o.as_str(), 'g', 'i', 'd', '=')
}

/// Whether a mount destination is exactly `/sys`.
pub fn is_sys_destination(d: &String) -> (r: bool)
    ensures
        r == (d@ == sys_path()),
{
    let s = d.as_str();
    if s.unicode_len() != 4 {
        return false;
    }
    let r = s.get_char(0) == '/' && s.get_char(1) == 's' && s.get_char(2) == 'y' && s.get_char(3)
        == 's';
    assert(r == (s@ =~= sys_path()));
    r
}

/// The options with every `uid=` and `gid=` option removed, the rest in order.
pub fn strip_id_options(opts: &Vec<String>) -> (r: Vec<String>)
    ensures
        option_views(r@) == stripped_options(option_views(opts@)),
{
    let mut out: Vec<String> = Vec::new();
    let mut i: usize = 0;
    while i < opts.len()
        invariant
            i <= opts@.len(),
            option_views(out@) == stripped_options(option_views(opts@.subrange(0, i as int))),
        decreases opts@.len() - i,
    {
        let o = &opts[i];
        let keep = !is_id_mount_option(o);
        proof {
            let pre = option_views(opts@.subrange(0, i as int));
            let next = option_views(opts@.subrange(0, i as int + 1));
            assert(next.drop_last() =~= pre);
            assert(next.last() == o@);
            reveal_with_fuel(Seq::filter, 1);
        }
        if keep {
            out.push(o.clone());
        }
        proof {
            assert(option_views(out@) =~= stripped_options(
                option_views(opts@.subrange(0, i as int + 1)),
            ));
        }
        i = i + 1;
    }
    assert(opts@.subrange(0, i as int) =~= opts@);
    out
}

/// The rebuilt form of one template mount: `/sys` hardened, every other
/// mount with its uid/gid options stripped.
pub fn rebuild_mount(m: &MountEntry) -> (r: MountEntry)
    ensures
        is_rebuilt_mount(*m, r),
{
    if is_sys_destination(&m.destination) {
        let rbind = "rbind".to_owned();
        let nosuid = "nosuid".to_owned();
        let noexec = "noexec".to_owned();
        let nodev = "nodev".to_owned();
        let ro = "ro".to_owned();
        let none = "none".to_owned();
        let sys = "/sys".to_owned();
        proof {
            reveal_strlit("rbind");
            reveal_strlit("nosuid");
            reveal_strlit("noexec");
            reveal_strlit("nodev");
            reveal_strlit("ro");
            reveal_strlit("none");
            reveal_strlit("/sys");
            assert(rbind@ =~= seq!['r', 'b', 'i', 'n', 'd']);
            assert(nosuid@ =~= seq!['n', 'o', 's', 'u', 'i', 'd']);
            assert(noexec@ =~= seq!['n', 'o', 'e', 'x', 'e', 'c']);
            assert(nodev@ =~= seq!['n', 'o', 'd', 'e', 'v']);
            assert(ro@ =~= seq!['r', 'o']);
        }
        let options = vec![rbind, nosuid, noexec, nodev, ro];
        let r = MountEntry {
            destination: m.destination.clone(),
            typ: Some(none),
            source: Some(sys),
            options: Some(options),
        };
        assert(options_of(r) =~= hardened_sys_options());
        assert(sys_path() =~= r.source->Some_0@);
        assert(seq!['n', 'o', 'n', 'e'] =~= r.typ->Some_0@);
        r
    } else {
        let options = match &m.options {
            Some(v) => strip_id_options(v),
            None => {
                proof {
                    reveal_with_fuel(Seq::filter, 1);
                }
                Vec::new()
            },
        };
        proof {
            if m.options.is_none() {
                assert(option_views(options@) =~= stripped_options(options_of(*m)));
            }
        }
        MountEntry {
            destination: m.destination.clone(),
            typ: m.typ.clone(),
            source: m.source.clone(),
            options: Some(options),
        }
    }
}

/// Every template mount rewritten by [`rebuild_mount`], in order.
pub fn rebuild_mounts(defaults: &Vec<MountEntry>) -> (r: Vec<MountEntry>)
    ensures
        r@.len() == defaults@.len(),
        forall|i: int|
            0 <= i < defaults@.len() ==> #[trigger] is_rebuilt_mount(defaults@[i], r@[i]),
{
    let mut out: Vec<MountEntry> = Vec::new();
    let mut i: usize = 0;
    while i < defaults.len()
        invariant
            i <= defaults@.len(),
            out@.len() == i,
            forall|j: int| 0 <= j < i ==> #[trigger] is_rebuilt_mount(defaults@[j], out@[j]),
        decreases defaults@.len() - i,
    {
        let m = rebuild_mount(&defaults[i]);
        out.push(m);
        i = i + 1;
    }
    out
}

/// The template's namespaces without Network and User, followed by exactly
/// one User namespace.
pub fn rootless_namespaces(defaults: &Vec<NamespaceKind>) -> (r: Vec<NamespaceKind>)
    ensures
        r@ == rootless_namespace_set(defaults@),
{
    let mut out: Vec<NamespaceKind> = Vec::new();
    let mut i: usize = 0;
    while i < defaults.len()
        invariant
            i <= defaults@.len(),
            out@ == defaults@.subrange(0, i as int).filter(|k: NamespaceKind| keeps_namespace(k)),
        decreases defaults@.len() - i,
    {
        let k = defaults[i];
        proof {
            assert(defaults@.subrange(0, i as int + 1).drop_last() =~= defaults@.subrange(
                0,
                i as int,
            ));
            reveal_with_fuel(Seq::filter, 1);
        }
        if k != NamespaceKind::Network && k != NamespaceKind::User {
            out.push(k);
        }
        i = i + 1;
    }
    assert(defaults@.subrange(0, i as int) =~= defaults@);
    out.push(NamespaceKind::User);
    out
}

/// The mapping of one host id to container root.
pub fn root_id_mapping(host_id: u32) -> (r: IdMapping)
    ensures
        r == root_mapping(host_id),
{
    IdMapping { host_id, container_id: 0, size: 1 }
}

/// The rootless specification from the two templates and the invoking
/// user's effective uid and gid.
pub fn build_rootless_spec(
    default_namespaces: &Vec<NamespaceKind>,
    default_mounts: &Vec<MountEntry>,
    uid: u32,
    gid: u32,
) -> (r: RootlessSpec)
    ensures
        is_rootless_spec_of(r, default_namespaces@, default_mounts@, uid, gid),
{
    let namespaces = rootless_namespaces(default_namespaces);
    let uid_mappings = vec![root_id_mapping(uid)];
    let gid_mappings = vec![root_id_mapping(gid)];
    let mounts = rebuild_mounts(default_mounts);
    let r = RootlessSpec { namespaces, uid_mappings, gid_mappings, mounts };
    assert(r.uid_mappings@ =~= seq![root_mapping(uid)]);
    assert(r.gid_mappings@ =~= seq![root_mapping(gid)]);
    r
}

/// The namespace template of the container engine, as plain kinds.
pub open spec fn template_namespace_kinds() -> Seq<NamespaceKind> {
    seq![
        NamespaceKind::Pid,
        NamespaceKind::Network,
        NamespaceKind::Ipc,
        NamespaceKind::Uts,
        NamespaceKind::Mount,
        NamespaceKind::Cgroup,
    ]
}

/// Relies on `oci_spec::runtime::get_default_namespaces` (re-exported by
/// libcontainer): the default template lists Pid, Network, Ipc, Uts, Mount
/// and Cgroup, in that order.
#[verifier::external_body]
fn template_namespaces() -> (r: Vec<NamespaceKind>)
    ensures
        r@ == template_namespace_kinds(),
{
    libcontainer::oci_spec::runtime::get_default_namespaces().iter().map(|ns| match ns.typ() {
        Nt::Mount => NamespaceKind::Mount,
        Nt::Cgroup => NamespaceKind::Cgroup,
        Nt::Uts => NamespaceKind::Uts,
        Nt::Ipc => NamespaceKind::Ipc,
        Nt::User => NamespaceKind::User,
        Nt::Pid => NamespaceKind::Pid,
        Nt::Network => NamespaceKind::Network,
        Nt::Time => NamespaceKind::Time,
    }).collect()
}

/// The mount template of the container engine, as plain text.
pub open spec fn template_mount_views() -> Seq<MountView> {
    seq![
        (
            seq!['/', 'p', 'r', 'o', 'c'],
            Some(seq!['p', 'r', 'o', 'c']),
            Some(seq!['p', 'r', 'o', 'c']),
            None,
        ),
        (
            seq!['/', 'd', 'e', 'v'],
            Some(seq!['t', 'm', 'p', 'f', 's']),
            Some(seq!['t', 'm', 'p', 'f', 's']),
            Some(seq![
                seq!['n', 'o', 's', 'u', 'i', 'd'],
                seq!['s', 't', 'r', 'i', 'c', 't', 'a', 't', 'i', 'm', 'e'],
                seq!['m', 'o', 'd', 'e', '=', '7', '5', '5'],
                seq!['s', 'i', 'z', 'e', '=', '6', '5', '5', '3', '6', 'k'],
            ]),
        ),
        (
            seq!['/', 'd', 'e', 'v', '/', 'p', 't', 's'],
            Some(seq!['d', 'e', 'v', 'p', 't', 's']),
            Some(seq!['d', 'e', 'v', 'p', 't', 's']),
            Some(seq![
                seq!['n', 'o', 's', 'u', 'i', 'd'],
                seq!['n', 'o', 'e', 'x', 'e', 'c'],
                seq!['n', 'e', 'w', 'i', 'n', 's', 't', 'a', 'n', 'c', 'e'],
                seq!['p', 't', 'm', 'x', 'm', 'o', 'd', 'e', '=', '0', '6', '6', '6'],
                seq!['m', 'o', 'd', 'e', '=', '0', '6', '2', '0'],
                seq!['g', 'i', 'd', '=', '5'],
            ]),
        ),
        (
            seq!['/', 'd', 'e', 'v', '/', 's', 'h', 'm'],
            Some(seq!['t', 'm', 'p', 'f', 's']),
            Some(seq!['s', 'h', 'm']),
            Some(seq![
                seq!['n', 'o', 's', 'u', 'i', 'd'],
                seq!['n', 'o', 'e', 'x', 'e', 'c'],
                seq!['n', 'o', 'd', 'e', 'v'],
                seq!['m', 'o', 'd', 'e', '=', '1', '7', '7', '7'],
                seq!['s', 'i', 'z', 'e', '=', '6', '5', '5', '3', '6', 'k'],
            ]),
        ),
        (
            seq!['/', 'd', 'e', 'v', '/', 'm', 'q', 'u', 'e', 'u', 'e'],
            Some(seq!['m', 'q', 'u', 'e', 'u', 'e']),
            Some(seq!['m', 'q', 'u', 'e', 'u', 'e']),
            Some(seq![
                seq!['n', 'o', 's', 'u', 'i', 'd'],
                seq!['n', 'o', 'e', 'x', 'e', 'c'],
                seq!['n', 'o', 'd', 'e', 'v'],
            ]),
        ),
        (
            seq!['/', 's', 'y', 's'],
            Some(seq!['s', 'y', 's', 'f', 's']),
            Some(seq!['s', 'y', 's', 'f', 's']),
            Some(seq![
                seq!['n', 'o', 's', 'u', 'i', 'd'],
                seq!['n', 'o', 'e', 'x', 'e', 'c'],
                seq!['n', 'o', 'd', 'e', 'v'],
                seq!['r', 'o'],
            ]),
        ),
        (
            seq!['/', 's', 'y', 's', '/', 'f', 's', '/', 'c', 'g', 'r', 'o', 'u', 'p'],
            Some(seq!['c', 'g', 'r', 'o', 'u', 'p']),
            Some(seq!['c', 'g', 'r', 'o', 'u', 'p']),
            Some(seq![
                seq!['n', 'o', 's', 'u', 'i', 'd'],
                seq!['n', 'o', 'e', 'x', 'e', 'c'],
                seq!['n', 'o', 'd', 'e', 'v'],
                seq!['r', 'e', 'l', 'a', 't', 'i', 'm', 'e'],
                seq!['r', 'o'],
            ]),
        ),
    ]
}

/// Relies on `oci_spec::runtime::get_default_mounts` (re-exported by
/// libcontainer): the seven mounts of its template, in order.
#[verifier::external_body]
fn template_mounts() -> (r: Vec<MountEntry>)
    ensures
        r@.len() == template_mount_views().len(),
        forall|i: int| 0 <= i < r@.len() ==> mount_view(#[trigger] r@[i]) == template_mount_views()[i],
{
    libcontainer::oci_spec::runtime::get_default_mounts().into_iter().map(|m| MountEntry {
        destination: m.destination().to_string_lossy().into_owned(),
        typ: m.typ().clone(),
        source: m.source().as_ref().map(|p| p.to_string_lossy().into_owned()),
        options: m.options().clone(),
    }).collect()
}

/// Relies on `nix::unistd::geteuid`: the effective uid of this process.
#[verifier::external_body]
fn effective_uid() -> (r: u32) {
    nix::unistd::geteuid().as_raw()
}

/// Relies on `nix::unistd::getegid`: the effective gid of this process.
#[verifier::external_body]
fn effective_gid() -> (r: u32) {
    nix::unistd::getegid().as_raw()
}

/// What every rootless specification satisfies: exactly one User namespace,
/// no Network namespace, one uid and one gid mapping onto container root of
/// size one, every `/sys` mount read-only with nosuid, noexec and nodev and
/// without `rw`, and no uid/gid option on any other mount.
pub open spec fn has_rootless_shape(s: RootlessSpec) -> bool {
    let ns = s.namespaces@;
    &&& exists|i: int| 0 <= i < ns.len() && ns[i] == NamespaceKind::User
    &&& forall|i: int, j: int|
        0 <= i < ns.len() && 0 <= j < ns.len() && ns[i] == NamespaceKind::User && ns[j]
            == NamespaceKind::User ==> i == j
    &&& forall|i: int| 0 <= i < ns.len() ==> ns[i] != NamespaceKind::Network
    &&& s.uid_mappings@.len() == 1 && s.uid_mappings@[0].size == 1
        && s.uid_mappings@[0].container_id == 0
    &&& s.gid_mappings@.len() == 1 && s.gid_mappings@[0].size == 1
        && s.gid_mappings@[0].container_id == 0
    &&& forall|i: int|
        0 <= i < s.mounts@.len() && s.mounts@[i].destination@ == sys_path() ==> {
            let o = #[trigger] options_of(s.mounts@[i]);
            &&& o.contains(seq!['r', 'o'])
            &&& o.contains(seq!['n', 'o', 's', 'u', 'i', 'd'])
            &&& o.contains(seq!['n', 'o', 'e', 'x', 'e', 'c'])
            &&& o.contains(seq!['n', 'o', 'd', 'e', 'v'])
            &&& !o.contains(seq!['r', 'w'])
        }
    &&& forall|i: int, k: int|
        0 <= i < s.mounts@.len() && s.mounts@[i].destination@ != sys_path() && 0 <= k
            < options_of(s.mounts@[i]).len() ==> !is_id_option(
            #[trigger] options_of(s.mounts@[i])[k],
        )
}

/// Rebuilding a mount other than `/sys` keeps every option that names no uid
/// or gid, and drops every option that does.
pub proof fn lemma_rebuilt_options(m: MountEntry, r: MountEntry)
    requires
        is_rebuilt_mount(m, r),
        m.destination@ != sys_path(),
    ensures
        forall|o: Seq<char>|
            options_of(m).contains(o) && !is_id_option(o) ==> #[trigger] options_of(r).contains(o),
        forall|o: Seq<char>| #[trigger] options_of(r).contains(o) ==> !is_id_option(o),
{
    broadcast use group_filter_ensures;

    let pred = |o: Seq<char>| keeps_option(o);
    assert forall|o: Seq<char>|
        options_of(m).contains(o) && !is_id_option(o) implies #[trigger] options_of(r).contains(
        o,
    ) by {
        let i = choose|i: int| 0 <= i < options_of(m).len() && options_of(m)[i] == o;
        options_of(m).lemma_filter_contains(pred, i);
    }
    assert forall|o: Seq<char>| #[trigger] options_of(r).contains(o) implies !is_id_option(o) by {
        let k = choose|k: int| 0 <= k < options_of(r).len() && options_of(r)[k] == o;
        options_of(m).lemma_filter_pred(pred, k);
    }
}

/// Every specification built by [`build_rootless_spec`], from any templates
/// and any ids, has the rootless shape.
pub proof fn lemma_rootless_shape(
    s: RootlessSpec,
    default_namespaces: Seq<NamespaceKind>,
    default_mounts: Seq<MountEntry>,
    uid: u32,
    gid: u32,
)
    requires
        is_rootless_spec_of(s, default_namespaces, default_mounts, uid, gid),
    ensures
        has_rootless_shape(s),
{
    broadcast use group_filter_ensures;

    let kept = default_namespaces.filter(|k: NamespaceKind| keeps_namespace(k));
    let ns = s.namespaces@;
    assert(ns == kept.push(NamespaceKind::User));
    assert forall|i: int| 0 <= i < kept.len() implies keeps_namespace(#[trigger] kept[i]) by {
        default_namespaces.lemma_filter_pred(|k: NamespaceKind| keeps_namespace(k), i);
    }
    assert(ns[kept.len() as int] == NamespaceKind::User);
    assert forall|i: int|
        0 <= i < s.mounts@.len() && s.mounts@[i].destination@ == sys_path() implies {
        let o = #[trigger] options_of(s.mounts@[i]);
        &&& o.contains(seq!['r', 'o'])
        &&& o.contains(seq!['n', 'o', 's', 'u', 'i', 'd'])
        &&& o.contains(seq!['n', 'o', 'e', 'x', 'e', 'c'])
        &&& o.contains(seq!['n', 'o', 'd', 'e', 'v'])
        &&& !o.contains(seq!['r', 'w'])
    } by {
        assert(is_rebuilt_mount(default_mounts[i], s.mounts@[i]));
        let o = options_of(s.mounts@[i]);
        assert(o == hardened_sys_options());
        assert(o[4] == seq!['r', 'o']);
        assert(o[1] == seq!['n', 'o', 's', 'u', 'i', 'd']);
        assert(o[2] == seq!['n', 'o', 'e', 'x', 'e', 'c']);
        assert(o[3] == seq!['n', 'o', 'd', 'e', 'v']);
        assert forall|k: int| 0 <= k < o.len() implies o[k] != seq!['r', 'w'] by {
            assert(o[k].len() != 2 || o[k][1] == 'o');
        }
    }
    assert forall|i: int, k: int|
        0 <= i < s.mounts@.len() && s.mounts@[i].destination@ != sys_path() && 0 <= k
            < options_of(s.mounts@[i]).len() implies !is_id_option(
        #[trigger] options_of(s.mounts@[i])[k],
    ) by {
        assert(is_rebuilt_mount(default_mounts[i], s.mounts@[i]));
        lemma_rebuilt_options(default_mounts[i], s.mounts@[i]);
        assert(options_of(s.mounts@[i]).contains(options_of(s.mounts@[i])[k]));
    }
}

/// The rootless specification for the invoking user: the engine's default
/// namespaces and mounts rebuilt by [`build_rootless_spec`] with this
/// process's effective uid and gid.
pub fn get_rootless() -> (r: RootlessSpec)
    ensures
        has_rootless_shape(r),
        r.namespaces@ == rootless_namespace_set(template_namespace_kinds()),
        r.mounts@.len() == template_mount_views().len(),
        forall|i: int|
            0 <= i < r.mounts@.len() ==> mount_view(#[trigger] r.mounts@[i]) == rebuilt_view(
                template_mount_views()[i],
            ),
{
    let namespaces = template_namespaces();
    let mounts = template_mounts();
    let uid = effective_uid();
    let gid = effective_gid();
    let r = build_rootless_spec(&namespaces, &mounts, uid, gid);
    proof {
        lemma_rootless_shape(r, namespaces@, mounts@, uid, gid);
        assert forall|i: int| 0 <= i < r.mounts@.len() implies mount_view(#[trigger] r.mounts@[i])
            == rebuilt_view(template_mount_views()[i]) by {
            assert(is_rebuilt_mount(mounts@[i], r.mounts@[i]));
        }
    }
    r
}

} // verus!
