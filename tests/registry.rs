use std::collections::HashSet;
use wasi_abi::{
    binding_for, exports_for_version, generate_import_object_from_env,
    import_object_for_all_wasi_versions, Binding, Implementation, MemoryWidth, Namespace, Syscall,
    WasiVersion,
};

const PREVIEW1_NAMES: [&str; 45] = [
    "args_get",
    "args_sizes_get",
    "clock_res_get",
    "clock_time_get",
    "environ_get",
    "environ_sizes_get",
    "fd_advise",
    "fd_allocate",
    "fd_close",
    "fd_datasync",
    "fd_fdstat_get",
    "fd_fdstat_set_flags",
    "fd_fdstat_set_rights",
    "fd_filestat_get",
    "fd_filestat_set_size",
    "fd_filestat_set_times",
    "fd_pread",
    "fd_prestat_get",
    "fd_prestat_dir_name",
    "fd_pwrite",
    "fd_read",
    "fd_readdir",
    "fd_renumber",
    "fd_seek",
    "fd_sync",
    "fd_tell",
    "fd_write",
    "path_create_directory",
    "path_filestat_get",
    "path_filestat_set_times",
    "path_link",
    "path_open",
    "path_readlink",
    "path_remove_directory",
    "path_rename",
    "path_symlink",
    "path_unlink_file",
    "poll_oneoff",
    "proc_exit",
    "proc_raise",
    "random_get",
    "sched_yield",
    "sock_recv",
    "sock_send",
    "sock_shutdown",
];

const WASIX_NAMES: [&str; 128] = [
    "args_get",
    "args_sizes_get",
    "clock_res_get",
    "clock_time_get",
    "clock_time_set",
    "environ_get",
    "environ_sizes_get",
    "fd_advise",
    "fd_allocate",
    "fd_close",
    "fd_datasync",
    "fd_fdstat_get",
    "fd_fdstat_set_flags",
    "fd_fdstat_set_rights",
    "fd_filestat_get",
    "fd_filestat_set_size",
    "fd_filestat_set_times",
    "fd_pread",
    "fd_prestat_get",
    "fd_prestat_dir_name",
    "fd_pwrite",
    "fd_read",
    "fd_readdir",
    "fd_renumber",
    "fd_dup",
    "fd_event",
    "fd_seek",
    "fd_sync",
    "fd_tell",
    "fd_write",
    "fd_pipe",
    "path_create_directory",
    "path_filestat_get",
    "path_filestat_set_times",
    "path_link",
    "path_open",
    "path_readlink",
    "path_remove_directory",
    "path_rename",
    "path_symlink",
    "path_unlink_file",
    "poll_oneoff",
    "proc_exit",
    "proc_fork",
    "proc_join",
    "proc_signal",
    "proc_exec",
    "proc_raise",
    "proc_raise_interval",
    "proc_spawn",
    "proc_id",
    "proc_parent",
    "random_get",
    "tty_get",
    "tty_set",
    "getcwd",
    "chdir",
    "callback_signal",
    "callback_thread",
    "callback_reactor",
    "callback_thread_local_destroy",
    "thread_spawn",
    "thread_local_create",
    "thread_local_destroy",
    "thread_local_set",
    "thread_local_get",
    "thread_sleep",
    "thread_id",
    "thread_signal",
    "thread_join",
    "thread_parallelism",
    "thread_exit",
    "sched_yield",
    "stack_checkpoint",
    "stack_restore",
    "futex_wait",
    "futex_wake",
    "futex_wake_all",
    "bus_open_local",
    "bus_open_remote",
    "bus_close",
    "bus_call",
    "bus_subcall",
    "bus_poll",
    "call_reply",
    "call_fault",
    "call_close",
    "ws_connect",
    "http_request",
    "http_status",
    "port_bridge",
    "port_unbridge",
    "port_dhcp_acquire",
    "port_addr_add",
    "port_addr_remove",
    "port_addr_clear",
    "port_addr_list",
    "port_mac",
    "port_gateway_set",
    "port_route_add",
    "port_route_remove",
    "port_route_clear",
    "port_route_list",
    "sock_status",
    "sock_addr_local",
    "sock_addr_peer",
    "sock_open",
    "sock_set_opt_flag",
    "sock_get_opt_flag",
    "sock_set_opt_time",
    "sock_get_opt_time",
    "sock_set_opt_size",
    "sock_get_opt_size",
    "sock_join_multicast_v4",
    "sock_leave_multicast_v4",
    "sock_join_multicast_v6",
    "sock_leave_multicast_v6",
    "sock_bind",
    "sock_listen",
    "sock_accept",
    "sock_connect",
    "sock_recv",
    "sock_recv_from",
    "sock_send",
    "sock_send_to",
    "sock_send_file",
    "sock_shutdown",
    "resolve",
];

const LEGACY_NAMES: [&str; 4] = ["fd_filestat_get", "fd_seek", "path_filestat_get", "poll_oneoff"];

fn sorted_names(ns: &Namespace) -> Vec<&'static str> {
    let mut names = ns.names();
    names.sort();
    names
}

fn sorted(list: &[&'static str]) -> Vec<&'static str> {
    let mut names = list.to_vec();
    names.sort();
    names
}

fn binding_by_name(ns: &Namespace, name: &str) -> Option<Binding> {
    let mut i: usize = 0;
    while i < ns.len() {
        let e = ns.entry(i);
        if e.syscall.name() == name {
            return Some(e.binding);
        }
        i += 1;
    }
    None
}

#[test]
fn unstable_names_are_exactly_the_documented_set() {
    let ns = exports_for_version(WasiVersion::Snapshot0);
    assert_eq!(ns.len(), 45);
    assert_eq!(sorted_names(&ns), sorted(&PREVIEW1_NAMES));
}

#[test]
fn preview1_names_are_exactly_the_documented_set() {
    for v in [WasiVersion::Snapshot1, WasiVersion::Latest] {
        let ns = exports_for_version(v);
        assert_eq!(ns.len(), 45);
        assert_eq!(sorted_names(&ns), sorted(&PREVIEW1_NAMES));
    }
}

#[test]
fn wasix_names_are_exactly_the_documented_set() {
    for v in [WasiVersion::Wasix32v1, WasiVersion::Wasix64v1] {
        let ns = exports_for_version(v);
        assert_eq!(ns.len(), 128);
        assert_eq!(sorted_names(&ns), sorted(&WASIX_NAMES));
    }
}

#[test]
fn no_namespace_repeats_a_name() {
    for v in [
        WasiVersion::Snapshot0,
        WasiVersion::Snapshot1,
        WasiVersion::Latest,
        WasiVersion::Wasix32v1,
        WasiVersion::Wasix64v1,
    ] {
        let names = exports_for_version(v).names();
        let set: HashSet<&str> = names.iter().copied().collect();
        assert_eq!(set.len(), names.len());
    }
}

#[test]
fn every_call_has_its_own_name() {
    let mut set: HashSet<&str> = HashSet::new();
    let mut i: usize = 0;
    while i < 128 {
        assert!(set.insert(Syscall::at(i).name()));
        i += 1;
    }
    assert_eq!(set.len(), 128);
}

#[test]
fn legacy_calls_bind_the_legacy_implementation() {
    let u = exports_for_version(WasiVersion::Snapshot0);
    let p = exports_for_version(WasiVersion::Snapshot1);
    for name in LEGACY_NAMES {
        let bu = binding_by_name(&u, name).unwrap();
        let bp = binding_by_name(&p, name).unwrap();
        assert_eq!(bu.implementation, Implementation::LegacySnapshot0);
        assert_eq!(bp.implementation, Implementation::Current);
        assert_ne!(bu, bp);
    }
}

#[test]
fn other_unstable_calls_bind_as_preview1() {
    let u = exports_for_version(WasiVersion::Snapshot0);
    let p = exports_for_version(WasiVersion::Snapshot1);
    for name in PREVIEW1_NAMES {
        if LEGACY_NAMES.contains(&name) {
            continue;
        }
        assert_eq!(binding_by_name(&u, name), binding_by_name(&p, name));
        assert_eq!(binding_by_name(&u, name).unwrap().implementation, Implementation::Current);
    }
}

#[test]
fn wasix_widths_differ_only_on_offset_calls() {
    let n32 = exports_for_version(WasiVersion::Wasix32v1);
    let n64 = exports_for_version(WasiVersion::Wasix64v1);
    assert_eq!(sorted_names(&n32), sorted_names(&n64));
    for name in WASIX_NAMES {
        let b32 = binding_by_name(&n32, name).unwrap();
        let b64 = binding_by_name(&n64, name).unwrap();
        assert_eq!(b32.implementation, Implementation::Current);
        assert_eq!(b64.implementation, Implementation::Current);
        match (b32.width, b64.width) {
            (Some(MemoryWidth::Memory32), Some(MemoryWidth::Memory64)) => {}
            (None, None) => {}
            other => panic!("unexpected widths for {}: {:?}", name, other),
        }
    }
}

#[test]
fn offset_free_calls_have_one_instantiation() {
    let n64 = exports_for_version(WasiVersion::Wasix64v1);
    for name in ["fd_close", "sched_yield", "proc_raise", "thread_sleep", "sock_shutdown"] {
        assert_eq!(binding_by_name(&n64, name).unwrap().width, None);
    }
    for name in ["fd_read", "thread_spawn", "futex_wait", "bus_call", "resolve"] {
        assert_eq!(binding_by_name(&n64, name).unwrap().width, Some(MemoryWidth::Memory64));
    }
}

#[test]
fn old_generations_use_32_bit_offsets() {
    for v in [WasiVersion::Snapshot0, WasiVersion::Snapshot1] {
        let ns = exports_for_version(v);
        let mut i: usize = 0;
        while i < ns.len() {
            assert_ne!(ns.entry(i).binding.width, Some(MemoryWidth::Memory64));
            i += 1;
        }
    }
}

#[test]
fn binding_for_exact_values() {
    assert_eq!(
        binding_for(WasiVersion::Snapshot0, Syscall::FdSeek),
        Binding { implementation: Implementation::LegacySnapshot0, width: Some(MemoryWidth::Memory32) }
    );
    assert_eq!(
        binding_for(WasiVersion::Wasix64v1, Syscall::FdSeek),
        Binding { implementation: Implementation::Current, width: Some(MemoryWidth::Memory64) }
    );
    assert_eq!(
        binding_for(WasiVersion::Snapshot0, Syscall::FdClose),
        Binding { implementation: Implementation::Current, width: None }
    );
}

#[test]
fn all_versions_table_scenario() {
    let table = import_object_for_all_wasi_versions();
    assert_eq!(table.len(), 4);
    let keys: HashSet<&str> = table.namespace_names().into_iter().collect();
    let expected: HashSet<&str> =
        ["wasi_unstable", "wasi_snapshot_preview1", "wasix_32v1", "wasix_64v1"].into_iter().collect();
    assert_eq!(keys, expected);
    let wasix = table.exports(WasiVersion::Wasix32v1).unwrap();
    let unstable = table.exports(WasiVersion::Snapshot0).unwrap();
    let wasix_names = wasix.names();
    let unstable_names = unstable.names();
    assert!(wasix_names.contains(&"thread_spawn"));
    assert!(wasix_names.contains(&"futex_wait"));
    assert!(!unstable_names.contains(&"thread_spawn"));
    assert!(!unstable_names.contains(&"futex_wait"));
    assert!(wasix.contains(Syscall::ThreadSpawn));
    assert!(!unstable.contains(Syscall::FutexWait));
}

#[test]
fn single_version_tables() {
    let cases = [
        (WasiVersion::Snapshot0, "wasi_unstable", 45),
        (WasiVersion::Snapshot1, "wasi_snapshot_preview1", 45),
        (WasiVersion::Latest, "wasi_snapshot_preview1", 45),
        (WasiVersion::Wasix32v1, "wasix_32v1", 128),
        (WasiVersion::Wasix64v1, "wasix_64v1", 128),
    ];
    for (v, name, count) in cases {
        let table = generate_import_object_from_env(v);
        assert_eq!(table.len(), 1);
        assert_eq!(table.namespace_names(), vec![name]);
        assert_eq!(v.namespace_name(), name);
        assert_eq!(table.exports(v).unwrap().len(), count);
    }
    let latest = generate_import_object_from_env(WasiVersion::Latest);
    assert!(latest.exports(WasiVersion::Snapshot1).is_some());
    assert!(latest.exports(WasiVersion::Snapshot0).is_none());
}

#[test]
fn binding_of_absent_call_is_none() {
    let p = exports_for_version(WasiVersion::Snapshot1);
    assert_eq!(p.binding_of(Syscall::ProcFork), None);
    assert!(!p.contains(Syscall::ProcFork));
    assert!(p.contains(Syscall::FdWrite));
}

#[test]
fn every_documented_name_reads_back_to_its_call() {
    for name in WASIX_NAMES {
        let s = Syscall::from_name(name).unwrap();
        assert_eq!(s.name(), name);
    }
    assert_eq!(Syscall::from_name("fd_seek"), Some(Syscall::FdSeek));
    assert_eq!(Syscall::from_name("thread_spawn"), Some(Syscall::ThreadSpawn));
}

#[test]
fn unknown_names_read_back_to_nothing() {
    for name in ["", "fd_seek ", "FD_SEEK", "fd_see", "not_a_call", "sock_send_files", "wasi_unstable"] {
        assert_eq!(Syscall::from_name(name), None);
    }
}

#[test]
fn namespace_strings_read_back_to_their_generation() {
    assert_eq!(WasiVersion::from_namespace_name("wasi_unstable"), Some(WasiVersion::Snapshot0));
    assert_eq!(WasiVersion::from_namespace_name("wasi_snapshot_preview1"), Some(WasiVersion::Snapshot1));
    assert_eq!(WasiVersion::from_namespace_name("wasix_32v1"), Some(WasiVersion::Wasix32v1));
    assert_eq!(WasiVersion::from_namespace_name("wasix_64v1"), Some(WasiVersion::Wasix64v1));
    assert_eq!(WasiVersion::from_namespace_name("wasix_128v1"), None);
    assert_eq!(WasiVersion::from_namespace_name(""), None);
}

#[test]
fn namespace_lookup_by_name() {
    let u = exports_for_version(WasiVersion::Snapshot0);
    assert_eq!(
        u.lookup("poll_oneoff"),
        Some(Binding { implementation: Implementation::LegacySnapshot0, width: Some(MemoryWidth::Memory32) })
    );
    assert_eq!(u.lookup("sched_yield"), Some(Binding { implementation: Implementation::Current, width: None }));
    assert_eq!(u.lookup("futex_wait"), None);
    assert_eq!(u.lookup("no_such_call"), None);
}

#[test]
fn import_resolution_by_namespace_and_name() {
    let table = import_object_for_all_wasi_versions();
    assert_eq!(
        table.resolve("wasix_32v1", "thread_spawn"),
        Some(Binding { implementation: Implementation::Current, width: Some(MemoryWidth::Memory32) })
    );
    assert_eq!(
        table.resolve("wasix_64v1", "futex_wait"),
        Some(Binding { implementation: Implementation::Current, width: Some(MemoryWidth::Memory64) })
    );
    assert_eq!(
        table.resolve("wasi_unstable", "fd_seek"),
        Some(Binding { implementation: Implementation::LegacySnapshot0, width: Some(MemoryWidth::Memory32) })
    );
    assert_eq!(
        table.resolve("wasi_snapshot_preview1", "fd_seek"),
        Some(Binding { implementation: Implementation::Current, width: Some(MemoryWidth::Memory32) })
    );
    assert_eq!(table.resolve("wasi_unstable", "thread_spawn"), None);
    assert_eq!(table.resolve("wasi_unstable", "futex_wait"), None);
    assert_eq!(table.resolve("env", "fd_read"), None);
    let single = generate_import_object_from_env(WasiVersion::Latest);
    assert!(single.resolve("wasi_snapshot_preview1", "fd_read").is_some());
    assert_eq!(single.resolve("wasix_32v1", "fd_read"), None);
}
