use container_supervisor::rootless::{
    build_rootless_spec, get_rootless, is_id_mount_option, is_sys_destination, rebuild_mount,
    rebuild_mounts, root_id_mapping, rootless_namespaces, strip_id_options, IdMapping, MountEntry,
    NamespaceKind,
};

fn strings(v: &[&str]) -> Vec<String> {
    v.iter().map(|s| s.to_string()).collect()
}

fn mount(dest: &str, typ: &str, source: &str, options: Option<&[&str]>) -> MountEntry {
    MountEntry {
        destination: dest.to_string(),
        typ: Some(typ.to_string()),
        source: Some(source.to_string()),
        options: options.map(strings),
    }
}

#[test]
fn strip_keeps_rw_and_drops_uid() {
    let r = strip_id_options(&strings(&["uid=1000", "rw"]));
    assert_eq!(r, strings(&["rw"]));
}

#[test]
fn strip_keeps_order_and_drops_gid() {
    let r = strip_id_options(&strings(&["nosuid", "gid=5", "mode=0620", "uid=0", "noexec"]));
    assert_eq!(r, strings(&["nosuid", "mode=0620", "noexec"]));
}

#[test]
fn strip_empty_list() {
    assert!(strip_id_options(&Vec::new()).is_empty());
}

#[test]
fn id_option_prefixes() {
    assert!(is_id_mount_option(&"uid=1000".to_string()));
    assert!(is_id_mount_option(&"gid=".to_string()));
    assert!(!is_id_mount_option(&"uid".to_string()));
    assert!(!is_id_mount_option(&"rw".to_string()));
    assert!(!is_id_mount_option(&"xuid=1".to_string()));
    assert!(!is_id_mount_option(&"Uid=1".to_string()));
}

#[test]
fn sys_destination_is_exact() {
    assert!(is_sys_destination(&"/sys".to_string()));
    assert!(!is_sys_destination(&"/sys/fs/cgroup".to_string()));
    assert!(!is_sys_destination(&"/proc".to_string()));
    assert!(!is_sys_destination(&"".to_string()));
}

#[test]
fn sys_mount_is_hardened() {
    let m = mount("/sys", "sysfs", "sysfs", Some(&["nosuid", "rw"]));
    let r = rebuild_mount(&m);
    assert_eq!(r.destination, "/sys");
    assert_eq!(r.source, Some("/sys".to_string()));
    assert_eq!(r.typ, Some("none".to_string()));
    assert_eq!(
        r.options,
        Some(strings(&["rbind", "nosuid", "noexec", "nodev", "ro"]))
    );
}

#[test]
fn other_mount_keeps_fields_and_strips_ids() {
    let m = mount("/dev/pts", "devpts", "devpts", Some(&["nosuid", "uid=1000", "rw", "gid=5"]));
    let r = rebuild_mount(&m);
    assert_eq!(r.destination, "/dev/pts");
    assert_eq!(r.source, Some("devpts".to_string()));
    assert_eq!(r.typ, Some("devpts".to_string()));
    assert_eq!(r.options, Some(strings(&["nosuid", "rw"])));
}

#[test]
fn mount_without_options_gets_empty_list() {
    let m = mount("/proc", "proc", "proc", None);
    let r = rebuild_mount(&m);
    assert_eq!(r.options, Some(Vec::new()));
}

#[test]
fn rebuild_mounts_keeps_order() {
    let ms = vec![
        mount("/proc", "proc", "proc", None),
        mount("/sys", "sysfs", "sysfs", Some(&["ro"])),
        mount("/dev", "tmpfs", "tmpfs", Some(&["uid=1000", "rw"])),
    ];
    let r = rebuild_mounts(&ms);
    assert_eq!(r.len(), 3);
    assert_eq!(r[0].destination, "/proc");
    assert_eq!(r[1].typ, Some("none".to_string()));
    assert_eq!(r[2].options, Some(strings(&["rw"])));
}

#[test]
fn namespaces_drop_network_and_user_then_add_user() {
    let d = vec![
        NamespaceKind::Pid,
        NamespaceKind::User,
        NamespaceKind::Network,
        NamespaceKind::Ipc,
        NamespaceKind::User,
    ];
    let r = rootless_namespaces(&d);
    assert_eq!(r, vec![NamespaceKind::Pid, NamespaceKind::Ipc, NamespaceKind::User]);
}

#[test]
fn namespaces_from_empty_template() {
    assert_eq!(rootless_namespaces(&Vec::new()), vec![NamespaceKind::User]);
}

#[test]
fn root_mapping_is_size_one() {
    assert_eq!(
        root_id_mapping(1000),
        IdMapping { host_id: 1000, container_id: 0, size: 1 }
    );
}

#[test]
fn build_spec_from_templates() {
    let ns = vec![NamespaceKind::Pid, NamespaceKind::Network, NamespaceKind::Mount];
    let ms = vec![
        mount("/sys", "sysfs", "sysfs", Some(&["rw"])),
        mount("/dev/pts", "devpts", "devpts", Some(&["gid=5", "newinstance"])),
    ];
    let s = build_rootless_spec(&ns, &ms, 1000, 1001);
    assert_eq!(
        s.namespaces,
        vec![NamespaceKind::Pid, NamespaceKind::Mount, NamespaceKind::User]
    );
    assert_eq!(s.uid_mappings, vec![IdMapping { host_id: 1000, container_id: 0, size: 1 }]);
    assert_eq!(s.gid_mappings, vec![IdMapping { host_id: 1001, container_id: 0, size: 1 }]);
    assert_eq!(s.mounts[0].options, Some(strings(&["rbind", "nosuid", "noexec", "nodev", "ro"])));
    assert_eq!(s.mounts[1].options, Some(strings(&["newinstance"])));
}

#[test]
fn rootless_spec_has_one_user_namespace_and_hardened_sys() {
    let s = get_rootless();
    let users = s.namespaces.iter().filter(|k| **k == NamespaceKind::User).count();
    let nets = s.namespaces.iter().filter(|k| **k == NamespaceKind::Network).count();
    assert_eq!(users, 1);
    assert_eq!(nets, 0);
    assert_eq!(
        s.namespaces,
        vec![
            NamespaceKind::Pid,
            NamespaceKind::Ipc,
            NamespaceKind::Uts,
            NamespaceKind::Mount,
            NamespaceKind::Cgroup,
            NamespaceKind::User,
        ]
    );
    assert_eq!(s.uid_mappings.len(), 1);
    assert_eq!(s.gid_mappings.len(), 1);
    assert_eq!(s.uid_mappings[0].size, 1);
    assert_eq!(s.uid_mappings[0].container_id, 0);
    assert_eq!(s.gid_mappings[0].size, 1);
    assert_eq!(s.mounts.len(), 7);
    let sys: Vec<&MountEntry> = s.mounts.iter().filter(|m| m.destination == "/sys").collect();
    assert_eq!(sys.len(), 1);
    let opts = sys[0].options.clone().unwrap();
    for want in ["ro", "nosuid", "noexec", "nodev"] {
        assert!(opts.iter().any(|o| o == want));
    }
    assert!(!opts.iter().any(|o| o == "rw"));
    for m in s.mounts.iter().filter(|m| m.destination != "/sys") {
        for o in m.options.clone().unwrap() {
            assert!(!o.starts_with("uid=") && !o.starts_with("gid="));
        }
    }
    let pts = s.mounts.iter().find(|m| m.destination == "/dev/pts").unwrap();
    assert_eq!(
        pts.options,
        Some(strings(&["nosuid", "noexec", "newinstance", "ptmxmode=0666", "mode=0620"]))
    );
}
