use crate::text::same_text;
use vstd::prelude::*;

verus! {

/// How many calls the widest generation exposes.
pub const SYSCALL_COUNT: usize = 128;

/// How many calls `wasi_unstable` and `wasi_snapshot_preview1` expose: the
/// first ones of the enumeration order.
pub const PREVIEW1_COUNT: usize = 45;

/// Every system call that some ABI generation exposes, identified by its
/// entry-point name. The calls of `wasi_snapshot_preview1` come first, in
/// that generation's order; the calls that only the WASIX generations add
/// follow.
#[derive(Debug, Clone, Copy, PartialEq, Eq, Structural, Hash)]
pub enum Syscall {
    ArgsGet,
    ArgsSizesGet,
    ClockResGet,
    ClockTimeGet,
    EnvironGet,
    EnvironSizesGet,
    FdAdvise,
    FdAllocate,
    FdClose,
    FdDatasync,
    FdFdstatGet,
    FdFdstatSetFlags,
    FdFdstatSetRights,
    FdFilestatGet,
    FdFilestatSetSize,
    FdFilestatSetTimes,
    FdPread,
    FdPrestatGet,
    FdPrestatDirName,
    FdPwrite,
    FdRead,
    FdReaddir,
    FdRenumber,
    FdSeek,
    FdSync,
    FdTell,
    FdWrite,
    PathCreateDirectory,
    PathFilestatGet,
    PathFilestatSetTimes,
    PathLink,
    PathOpen,
    PathReadlink,
    PathRemoveDirectory,
    PathRename,
    PathSymlink,
    PathUnlinkFile,
    PollOneoff,
    ProcExit,
    ProcRaise,
    RandomGet,
    SchedYield,
    SockRecv,
    SockSend,
    SockShutdown,
    ClockTimeSet,
    FdDup,
    FdEvent,
    FdPipe,
    ProcFork,
    ProcJoin,
    ProcSignal,
    ProcExec,
    ProcRaiseInterval,
    ProcSpawn,
    ProcId,
    ProcParent,
    TtyGet,
    TtySet,
    Getcwd,
    Chdir,
    CallbackSignal,
    CallbackThread,
    CallbackReactor,
    CallbackThreadLocalDestroy,
    ThreadSpawn,
    ThreadLocalCreate,
    ThreadLocalDestroy,
    ThreadLocalSet,
    ThreadLocalGet,
    ThreadSleep,
    ThreadId,
    ThreadSignal,
    ThreadJoin,
    ThreadParallelism,
    ThreadExit,
    StackCheckpoint,
    StackRestore,
    FutexWait,
    FutexWake,
    FutexWakeAll,
    BusOpenLocal,
    BusOpenRemote,
    BusClose,
    BusCall,
    BusSubcall,
    BusPoll,
    CallReply,
    CallFault,
    CallClose,
    WsConnect,
    HttpRequest,
    HttpStatus,
    PortBridge,
    PortUnbridge,
    PortDhcpAcquire,
    PortAddrAdd,
    PortAddrRemove,
    PortAddrClear,
    PortAddrList,
    PortMac,
    PortGatewaySet,
    PortRouteAdd,
    PortRouteRemove,
    PortRouteClear,
    PortRouteList,
    SockStatus,
    SockAddrLocal,
    SockAddrPeer,
    SockOpen,
    SockSetOptFlag,
    SockGetOptFlag,
    SockSetOptTime,
    SockGetOptTime,
    SockSetOptSize,
    SockGetOptSize,
    SockJoinMulticastV4,
    SockLeaveMulticastV4,
    SockJoinMulticastV6,
    SockLeaveMulticastV6,
    SockBind,
    SockListen,
    SockAccept,
    SockConnect,
    SockRecvFrom,
    SockSendTo,
    SockSendFile,
    Resolve,
}

/// The position of a call in the enumeration order of [`Syscall`].
pub open spec fn index_of(s: Syscall) -> nat {
    match s {
        Syscall::ArgsGet => 0,
        Syscall::ArgsSizesGet => 1,
        Syscall::ClockResGet => 2,
        Syscall::ClockTimeGet => 3,
        Syscall::EnvironGet => 4,
        Syscall::EnvironSizesGet => 5,
        Syscall::FdAdvise => 6,
        Syscall::FdAllocate => 7,
        Syscall::FdClose => 8,
        Syscall::FdDatasync => 9,
        Syscall::FdFdstatGet => 10,
        Syscall::FdFdstatSetFlags => 11,
        Syscall::FdFdstatSetRights => 12,
        Syscall::FdFilestatGet => 13,
        Syscall::FdFilestatSetSize => 14,
        Syscall::FdFilestatSetTimes => 15,
        Syscall::FdPread => 16,
        Syscall::FdPrestatGet => 17,
        Syscall::FdPrestatDirName => 18,
        Syscall::FdPwrite => 19,
        Syscall::FdRead => 20,
        Syscall::FdReaddir => 21,
        Syscall::FdRenumber => 22,
        Syscall::FdSeek => 23,
        Syscall::FdSync => 24,
        Syscall::FdTell => 25,
        Syscall::FdWrite => 26,
        Syscall::PathCreateDirectory => 27,
        Syscall::PathFilestatGet => 28,
        Syscall::PathFilestatSetTimes => 29,
        Syscall::PathLink => 30,
        Syscall::PathOpen => 31,
        Syscall::PathReadlink => 32,
        Syscall::PathRemoveDirectory => 33,
        Syscall::PathRename => 34,
        Syscall::PathSymlink => 35,
        Syscall::PathUnlinkFile => 36,
        Syscall::PollOneoff => 37,
        Syscall::ProcExit => 38,
        Syscall::ProcRaise => 39,
        Syscall::RandomGet => 40,
        Syscall::SchedYield => 41,
        Syscall::SockRecv => 42,
        Syscall::SockSend => 43,
        Syscall::SockShutdown => 44,
        Syscall::ClockTimeSet => 45,
        Syscall::FdDup => 46,
        Syscall::FdEvent => 47,
        Syscall::FdPipe => 48,
        Syscall::ProcFork => 49,
        Syscall::ProcJoin => 50,
        Syscall::ProcSignal => 51,
        Syscall::ProcExec => 52,
        Syscall::ProcRaiseInterval => 53,
        Syscall::ProcSpawn => 54,
        Syscall::ProcId => 55,
        Syscall::ProcParent => 56,
        Syscall::TtyGet => 57,
        Syscall::TtySet => 58,
        Syscall::Getcwd => 59,
        Syscall::Chdir => 60,
        Syscall::CallbackSignal => 61,
        Syscall::CallbackThread => 62,
        Syscall::CallbackReactor => 63,
        Syscall::CallbackThreadLocalDestroy => 64,
        Syscall::ThreadSpawn => 65,
        Syscall::ThreadLocalCreate => 66,
        Syscall::ThreadLocalDestroy => 67,
        Syscall::ThreadLocalSet => 68,
        Syscall::ThreadLocalGet => 69,
        Syscall::ThreadSleep => 70,
        Syscall::ThreadId => 71,
        Syscall::ThreadSignal => 72,
        Syscall::ThreadJoin => 73,
        Syscall::ThreadParallelism => 74,
        Syscall::ThreadExit => 75,
        Syscall::StackCheckpoint => 76,
        Syscall::StackRestore => 77,
        Syscall::FutexWait => 78,
        Syscall::FutexWake => 79,
        Syscall::FutexWakeAll => 80,
        Syscall::BusOpenLocal => 81,
        Syscall::BusOpenRemote => 82,
        Syscall::BusClose => 83,
        Syscall::BusCall => 84,
        Syscall::BusSubcall => 85,
        Syscall::BusPoll => 86,
        Syscall::CallReply => 87,
        Syscall::CallFault => 88,
        Syscall::CallClose => 89,
        Syscall::WsConnect => 90,
        Syscall::HttpRequest => 91,
        Syscall::HttpStatus => 92,
        Syscall::PortBridge => 93,
        Syscall::PortUnbridge => 94,
        Syscall::PortDhcpAcquire => 95,
        Syscall::PortAddrAdd => 96,
        Syscall::PortAddrRemove => 97,
        Syscall::PortAddrClear => 98,
        Syscall::PortAddrList => 99,
        Syscall::PortMac => 100,
        Syscall::PortGatewaySet => 101,
        Syscall::PortRouteAdd => 102,
        Syscall::PortRouteRemove => 103,
        Syscall::PortRouteClear => 104,
        Syscall::PortRouteList => 105,
        Syscall::SockStatus => 106,
        Syscall::SockAddrLocal => 107,
        Syscall::SockAddrPeer => 108,
        Syscall::SockOpen => 109,
        Syscall::SockSetOptFlag => 110,
        Syscall::SockGetOptFlag => 111,
        Syscall::SockSetOptTime => 112,
        Syscall::SockGetOptTime => 113,
        Syscall::SockSetOptSize => 114,
        Syscall::SockGetOptSize => 115,
        Syscall::SockJoinMulticastV4 => 116,
        Syscall::SockLeaveMulticastV4 => 117,
        Syscall::SockJoinMulticastV6 => 118,
        Syscall::SockLeaveMulticastV6 => 119,
        Syscall::SockBind => 120,
        Syscall::SockListen => 121,
        Syscall::SockAccept => 122,
        Syscall::SockConnect => 123,
        Syscall::SockRecvFrom => 124,
        Syscall::SockSendTo => 125,
        Syscall::SockSendFile => 126,
        Syscall::Resolve => 127,
    }
}

/// The call at a position of the enumeration order of [`Syscall`].
pub open spec fn syscall_at(i: usize) -> Syscall {
    match i {
        0 => Syscall::ArgsGet,
        1 => Syscall::ArgsSizesGet,
        2 => Syscall::ClockResGet,
        3 => Syscall::ClockTimeGet,
        4 => Syscall::EnvironGet,
        5 => Syscall::EnvironSizesGet,
        6 => Syscall::FdAdvise,
        7 => Syscall::FdAllocate,
        8 => Syscall::FdClose,
        9 => Syscall::FdDatasync,
        10 => Syscall::FdFdstatGet,
        11 => Syscall::FdFdstatSetFlags,
        12 => Syscall::FdFdstatSetRights,
        13 => Syscall::FdFilestatGet,
        14 => Syscall::FdFilestatSetSize,
        15 => Syscall::FdFilestatSetTimes,
        16 => Syscall::FdPread,
        17 => Syscall::FdPrestatGet,
        18 => Syscall::FdPrestatDirName,
        19 => Syscall::FdPwrite,
        20 => Syscall::FdRead,
        21 => Syscall::FdReaddir,
        22 => Syscall::FdRenumber,
        23 => Syscall::FdSeek,
        24 => Syscall::FdSync,
        25 => Syscall::FdTell,
        26 => Syscall::FdWrite,
        27 => Syscall::PathCreateDirectory,
        28 => Syscall::PathFilestatGet,
        29 => Syscall::PathFilestatSetTimes,
        30 => Syscall::PathLink,
        31 => Syscall::PathOpen,
        32 => Syscall::PathReadlink,
        33 => Syscall::PathRemoveDirectory,
        34 => Syscall::PathRename,
        35 => Syscall::PathSymlink,
        36 => Syscall::PathUnlinkFile,
        37 => Syscall::PollOneoff,
        38 => Syscall::ProcExit,
        39 => Syscall::ProcRaise,
        40 => Syscall::RandomGet,
        41 => Syscall::SchedYield,
        42 => Syscall::SockRecv,
        43 => Syscall::SockSend,
        44 => Syscall::SockShutdown,
        45 => Syscall::ClockTimeSet,
        46 => Syscall::FdDup,
        47 => Syscall::FdEvent,
        48 => Syscall::FdPipe,
        49 => Syscall::ProcFork,
        50 => Syscall::ProcJoin,
        51 => Syscall::ProcSignal,
        52 => Syscall::ProcExec,
        53 => Syscall::ProcRaiseInterval,
        54 => Syscall::ProcSpawn,
        55 => Syscall::ProcId,
        56 => Syscall::ProcParent,
        57 => Syscall::TtyGet,
        58 => Syscall::TtySet,
        59 => Syscall::Getcwd,
        60 => Syscall::Chdir,
        61 => Syscall::CallbackSignal,
        62 => Syscall::CallbackThread,
        63 => Syscall::CallbackReactor,
        64 => Syscall::CallbackThreadLocalDestroy,
        65 => Syscall::ThreadSpawn,
        66 => Syscall::ThreadLocalCreate,
        67 => Syscall::ThreadLocalDestroy,
        68 => Syscall::ThreadLocalSet,
        69 => Syscall::ThreadLocalGet,
        70 => Syscall::ThreadSleep,
        71 => Syscall::ThreadId,
        72 => Syscall::ThreadSignal,
        73 => Syscall::ThreadJoin,
        74 => Syscall::ThreadParallelism,
        75 => Syscall::ThreadExit,
        76 => Syscall::StackCheckpoint,
        77 => Syscall::StackRestore,
        78 => Syscall::FutexWait,
        79 => Syscall::FutexWake,
        80 => Syscall::FutexWakeAll,
        81 => Syscall::BusOpenLocal,
        82 => Syscall::BusOpenRemote,
        83 => Syscall::BusClose,
        84 => Syscall::BusCall,
        85 => Syscall::BusSubcall,
        86 => Syscall::BusPoll,
        87 => Syscall::CallReply,
        88 => Syscall::CallFault,
        89 => Syscall::CallClose,
        90 => Syscall::WsConnect,
        91 => Syscall::HttpRequest,
        92 => Syscall::HttpStatus,
        93 => Syscall::PortBridge,
        94 => Syscall::PortUnbridge,
        95 => Syscall::PortDhcpAcquire,
        96 => Syscall::PortAddrAdd,
        97 => Syscall::PortAddrRemove,
        98 => Syscall::PortAddrClear,
        99 => Syscall::PortAddrList,
        100 => Syscall::PortMac,
        101 => Syscall::PortGatewaySet,
        102 => Syscall::PortRouteAdd,
        103 => Syscall::PortRouteRemove,
        104 => Syscall::PortRouteClear,
        105 => Syscall::PortRouteList,
        106 => Syscall::SockStatus,
        107 => Syscall::SockAddrLocal,
        108 => Syscall::SockAddrPeer,
        109 => Syscall::SockOpen,
        110 => Syscall::SockSetOptFlag,
        111 => Syscall::SockGetOptFlag,
        112 => Syscall::SockSetOptTime,
        113 => Syscall::SockGetOptTime,
        114 => Syscall::SockSetOptSize,
        115 => Syscall::SockGetOptSize,
        116 => Syscall::SockJoinMulticastV4,
        117 => Syscall::SockLeaveMulticastV4,
        118 => Syscall::SockJoinMulticastV6,
        119 => Syscall::SockLeaveMulticastV6,
        120 => Syscall::SockBind,
        121 => Syscall::SockListen,
        122 => Syscall::SockAccept,
        123 => Syscall::SockConnect,
        124 => Syscall::SockRecvFrom,
        125 => Syscall::SockSendTo,
        126 => Syscall::SockSendFile,
        _ => Syscall::Resolve,
    }
}

/// The entry-point name under which a call is imported.
pub open spec fn syscall_name(s: Syscall) -> Seq<char> {
    match s {
        Syscall::ArgsGet => "args_get"@,
        Syscall::ArgsSizesGet => "args_sizes_get"@,
        Syscall::ClockResGet => "clock_res_get"@,
        Syscall::ClockTimeGet => "clock_time_get"@,
        Syscall::EnvironGet => "environ_get"@,
        Syscall::EnvironSizesGet => "environ_sizes_get"@,
        Syscall::FdAdvise => "fd_advise"@,
        Syscall::FdAllocate => "fd_allocate"@,
        Syscall::FdClose => "fd_close"@,
        Syscall::FdDatasync => "fd_datasync"@,
        Syscall::FdFdstatGet => "fd_fdstat_get"@,
        Syscall::FdFdstatSetFlags => "fd_fdstat_set_flags"@,
        Syscall::FdFdstatSetRights => "fd_fdstat_set_rights"@,
        Syscall::FdFilestatGet => "fd_filestat_get"@,
        Syscall::FdFilestatSetSize => "fd_filestat_set_size"@,
        Syscall::FdFilestatSetTimes => "fd_filestat_set_times"@,
        Syscall::FdPread => "fd_pread"@,
        Syscall::FdPrestatGet => "fd_prestat_get"@,
        Syscall::FdPrestatDirName => "fd_prestat_dir_name"@,
        Syscall::FdPwrite => "fd_pwrite"@,
        Syscall::FdRead => "fd_read"@,
        Syscall::FdReaddir => "fd_readdir"@,
        Syscall::FdRenumber => "fd_renumber"@,
        Syscall::FdSeek => "fd_seek"@,
        Syscall::FdSync => "fd_sync"@,
        Syscall::FdTell => "fd_tell"@,
        Syscall::FdWrite => "fd_write"@,
        Syscall::PathCreateDirectory => "path_create_directory"@,
        Syscall::PathFilestatGet => "path_filestat_get"@,
        Syscall::PathFilestatSetTimes => "path_filestat_set_times"@,
        Syscall::PathLink => "path_link"@,
        Syscall::PathOpen => "path_open"@,
        Syscall::PathReadlink => "path_readlink"@,
        Syscall::PathRemoveDirectory => "path_remove_directory"@,
        Syscall::PathRename => "path_rename"@,
        Syscall::PathSymlink => "path_symlink"@,
        Syscall::PathUnlinkFile => "path_unlink_file"@,
        Syscall::PollOneoff => "poll_oneoff"@,
        Syscall::ProcExit => "proc_exit"@,
        Syscall::ProcRaise => "proc_raise"@,
        Syscall::RandomGet => "random_get"@,
        Syscall::SchedYield => "sched_yield"@,
        Syscall::SockRecv => "sock_recv"@,
        Syscall::SockSend => "sock_send"@,
        Syscall::SockShutdown => "sock_shutdown"@,
        Syscall::ClockTimeSet => "clock_time_set"@,
        Syscall::FdDup => "fd_dup"@,
        Syscall::FdEvent => "fd_event"@,
        Syscall::FdPipe => "fd_pipe"@,
        Syscall::ProcFork => "proc_fork"@,
        Syscall::ProcJoin => "proc_join"@,
        Syscall::ProcSignal => "proc_signal"@,
        Syscall::ProcExec => "proc_exec"@,
        Syscall::ProcRaiseInterval => "proc_raise_interval"@,
        Syscall::ProcSpawn => "proc_spawn"@,
        Syscall::ProcId => "proc_id"@,
        Syscall::ProcParent => "proc_parent"@,
        Syscall::TtyGet => "tty_get"@,
        Syscall::TtySet => "tty_set"@,
        Syscall::Getcwd => "getcwd"@,
        Syscall::Chdir => "chdir"@,
        Syscall::CallbackSignal => "callback_signal"@,
        Syscall::CallbackThread => "callback_thread"@,
        Syscall::CallbackReactor => "callback_reactor"@,
        Syscall::CallbackThreadLocalDestroy => "callback_thread_local_destroy"@,
        Syscall::ThreadSpawn => "thread_spawn"@,
        Syscall::ThreadLocalCreate => "thread_local_create"@,
        Syscall::ThreadLocalDestroy => "thread_local_destroy"@,
        Syscall::ThreadLocalSet => "thread_local_set"@,
        Syscall::ThreadLocalGet => "thread_local_get"@,
        Syscall::ThreadSleep => "thread_sleep"@,
        Syscall::ThreadId => "thread_id"@,
        Syscall::ThreadSignal => "thread_signal"@,
        Syscall::ThreadJoin => "thread_join"@,
        Syscall::ThreadParallelism => "thread_parallelism"@,
        Syscall::ThreadExit => "thread_exit"@,
        Syscall::StackCheckpoint => "stack_checkpoint"@,
        Syscall::StackRestore => "stack_restore"@,
        Syscall::FutexWait => "futex_wait"@,
        Syscall::FutexWake => "futex_wake"@,
        Syscall::FutexWakeAll => "futex_wake_all"@,
        Syscall::BusOpenLocal => "bus_open_local"@,
        Syscall::BusOpenRemote => "bus_open_remote"@,
        Syscall::BusClose => "bus_close"@,
        Syscall::BusCall => "bus_call"@,
        Syscall::BusSubcall => "bus_subcall"@,
        Syscall::BusPoll => "bus_poll"@,
        Syscall::CallReply => "call_reply"@,
        Syscall::CallFault => "call_fault"@,
        Syscall::CallClose => "call_close"@,
        Syscall::WsConnect => "ws_connect"@,
        Syscall::HttpRequest => "http_request"@,
        Syscall::HttpStatus => "http_status"@,
        Syscall::PortBridge => "port_bridge"@,
        Syscall::PortUnbridge => "port_unbridge"@,
        Syscall::PortDhcpAcquire => "port_dhcp_acquire"@,
        Syscall::PortAddrAdd => "port_addr_add"@,
        Syscall::PortAddrRemove => "port_addr_remove"@,
        Syscall::PortAddrClear => "port_addr_clear"@,
        Syscall::PortAddrList => "port_addr_list"@,
        Syscall::PortMac => "port_mac"@,
        Syscall::PortGatewaySet => "port_gateway_set"@,
        Syscall::PortRouteAdd => "port_route_add"@,
        Syscall::PortRouteRemove => "port_route_remove"@,
        Syscall::PortRouteClear => "port_route_clear"@,
        Syscall::PortRouteList => "port_route_list"@,
        Syscall::SockStatus => "sock_status"@,
        Syscall::SockAddrLocal => "sock_addr_local"@,
        Syscall::SockAddrPeer => "sock_addr_peer"@,
        Syscall::SockOpen => "sock_open"@,
        Syscall::SockSetOptFlag => "sock_set_opt_flag"@,
        Syscall::SockGetOptFlag => "sock_get_opt_flag"@,
        Syscall::SockSetOptTime => "sock_set_opt_time"@,
        Syscall::SockGetOptTime => "sock_get_opt_time"@,
        Syscall::SockSetOptSize => "sock_set_opt_size"@,
        Syscall::SockGetOptSize => "sock_get_opt_size"@,
        Syscall::SockJoinMulticastV4 => "sock_join_multicast_v4"@,
        Syscall::SockLeaveMulticastV4 => "sock_leave_multicast_v4"@,
        Syscall::SockJoinMulticastV6 => "sock_join_multicast_v6"@,
        Syscall::SockLeaveMulticastV6 => "sock_leave_multicast_v6"@,
        Syscall::SockBind => "sock_bind"@,
        Syscall::SockListen => "sock_listen"@,
        Syscall::SockAccept => "sock_accept"@,
        Syscall::SockConnect => "sock_connect"@,
        Syscall::SockRecvFrom => "sock_recv_from"@,
        Syscall::SockSendTo => "sock_send_to"@,
        Syscall::SockSendFile => "sock_send_file"@,
        Syscall::Resolve => "resolve"@,
    }
}

/// Whether a call takes guest-memory offsets or lengths, and so exists once
/// per address width; the others have one instantiation for every width.
pub open spec fn takes_guest_offsets(s: Syscall) -> bool {
    !matches!(s,
        Syscall::FdAdvise
        | Syscall::FdAllocate
        | Syscall::FdClose
        | Syscall::FdDatasync
        | Syscall::FdFdstatSetFlags
        | Syscall::FdFdstatSetRights
        | Syscall::FdFilestatSetSize
        | Syscall::FdFilestatSetTimes
        | Syscall::FdRenumber
        | Syscall::FdSync
        | Syscall::ProcRaise
        | Syscall::SchedYield
        | Syscall::SockShutdown
        | Syscall::ProcRaiseInterval
        | Syscall::ThreadLocalDestroy
        | Syscall::ThreadLocalSet
        | Syscall::ThreadSleep
        | Syscall::ThreadSignal
        | Syscall::ThreadJoin
        | Syscall::ThreadExit
        | Syscall::BusClose
        | Syscall::CallFault
        | Syscall::CallClose
        | Syscall::PortUnbridge
        | Syscall::PortDhcpAcquire
        | Syscall::PortAddrClear
        | Syscall::PortRouteClear
        | Syscall::SockSetOptFlag
        | Syscall::SockSetOptSize
    )
}

/// Whether `wasi_unstable` binds a call to a legacy implementation of its
/// own rather than to the current one.
pub open spec fn has_legacy_variant(s: Syscall) -> bool {
    matches!(s,
        Syscall::FdFilestatGet
        | Syscall::FdSeek
        | Syscall::PathFilestatGet
        | Syscall::PollOneoff
    )
}

impl Syscall {
    /// The call at position `i` of the enumeration order.
    pub fn at(i: usize) -> (r: Syscall)
        requires
            i < SYSCALL_COUNT,
        ensures
            r == syscall_at(i),
            index_of(r) == i,
    {
        match i {
            0 => Syscall::ArgsGet,
            1 => Syscall::ArgsSizesGet,
            2 => Syscall::ClockResGet,
            3 => Syscall::ClockTimeGet,
            4 => Syscall::EnvironGet,
            5 => Syscall::EnvironSizesGet,
            6 => Syscall::FdAdvise,
            7 => Syscall::FdAllocate,
            8 => Syscall::FdClose,
            9 => Syscall::FdDatasync,
            10 => Syscall::FdFdstatGet,
            11 => Syscall::FdFdstatSetFlags,
            12 => Syscall::FdFdstatSetRights,
            13 => Syscall::FdFilestatGet,
            14 => Syscall::FdFilestatSetSize,
            15 => Syscall::FdFilestatSetTimes,
            16 => Syscall::FdPread,
            17 => Syscall::FdPrestatGet,
            18 => Syscall::FdPrestatDirName,
            19 => Syscall::FdPwrite,
            20 => Syscall::FdRead,
            21 => Syscall::FdReaddir,
            22 => Syscall::FdRenumber,
            23 => Syscall::FdSeek,
            24 => Syscall::FdSync,
            25 => Syscall::FdTell,
            26 => Syscall::FdWrite,
            27 => Syscall::PathCreateDirectory,
            28 => Syscall::PathFilestatGet,
            29 => Syscall::PathFilestatSetTimes,
            30 => Syscall::PathLink,
            31 => Syscall::PathOpen,
            32 => Syscall::PathReadlink,
            33 => Syscall::PathRemoveDirectory,
            34 => Syscall::PathRename,
            35 => Syscall::PathSymlink,
            36 => Syscall::PathUnlinkFile,
            37 => Syscall::PollOneoff,
            38 => Syscall::ProcExit,
            39 => Syscall::ProcRaise,
            40 => Syscall::RandomGet,
            41 => Syscall::SchedYield,
            42 => Syscall::SockRecv,
            43 => Syscall::SockSend,
            44 => Syscall::SockShutdown,
            45 => Syscall::ClockTimeSet,
            46 => Syscall::FdDup,
            47 => Syscall::FdEvent,
            48 => Syscall::FdPipe,
            49 => Syscall::ProcFork,
            50 => Syscall::ProcJoin,
            51 => Syscall::ProcSignal,
            52 => Syscall::ProcExec,
            53 => Syscall::ProcRaiseInterval,
            54 => Syscall::ProcSpawn,
            55 => Syscall::ProcId,
            56 => Syscall::ProcParent,
            57 => Syscall::TtyGet,
            58 => Syscall::TtySet,
            59 => Syscall::Getcwd,
            60 => Syscall::Chdir,
            61 => Syscall::CallbackSignal,
            62 => Syscall::CallbackThread,
            63 => Syscall::CallbackReactor,
            64 => Syscall::CallbackThreadLocalDestroy,
            65 => Syscall::ThreadSpawn,
            66 => Syscall::ThreadLocalCreate,
            67 => Syscall::ThreadLocalDestroy,
            68 => Syscall::ThreadLocalSet,
            69 => Syscall::ThreadLocalGet,
            70 => Syscall::ThreadSleep,
            71 => Syscall::ThreadId,
            72 => Syscall::ThreadSignal,
            73 => Syscall::ThreadJoin,
            74 => Syscall::ThreadParallelism,
            75 => Syscall::ThreadExit,
            76 => Syscall::StackCheckpoint,
            77 => Syscall::StackRestore,
            78 => Syscall::FutexWait,
            79 => Syscall::FutexWake,
            80 => Syscall::FutexWakeAll,
            81 => Syscall::BusOpenLocal,
            82 => Syscall::BusOpenRemote,
            83 => Syscall::BusClose,
            84 => Syscall::BusCall,
            85 => Syscall::BusSubcall,
            86 => Syscall::BusPoll,
            87 => Syscall::CallReply,
            88 => Syscall::CallFault,
            89 => Syscall::CallClose,
            90 => Syscall::WsConnect,
            91 => Syscall::HttpRequest,
            92 => Syscall::HttpStatus,
            93 => Syscall::PortBridge,
            94 => Syscall::PortUnbridge,
            95 => Syscall::PortDhcpAcquire,
            96 => Syscall::PortAddrAdd,
            97 => Syscall::PortAddrRemove,
            98 => Syscall::PortAddrClear,
            99 => Syscall::PortAddrList,
            100 => Syscall::PortMac,
            101 => Syscall::PortGatewaySet,
            102 => Syscall::PortRouteAdd,
            103 => Syscall::PortRouteRemove,
            104 => Syscall::PortRouteClear,
            105 => Syscall::PortRouteList,
            106 => Syscall::SockStatus,
            107 => Syscall::SockAddrLocal,
            108 => Syscall::SockAddrPeer,
            109 => Syscall::SockOpen,
            110 => Syscall::SockSetOptFlag,
            111 => Syscall::SockGetOptFlag,
            112 => Syscall::SockSetOptTime,
            113 => Syscall::SockGetOptTime,
            114 => Syscall::SockSetOptSize,
            115 => Syscall::SockGetOptSize,
            116 => Syscall::SockJoinMulticastV4,
            117 => Syscall::SockLeaveMulticastV4,
            118 => Syscall::SockJoinMulticastV6,
            119 => Syscall::SockLeaveMulticastV6,
            120 => Syscall::SockBind,
            121 => Syscall::SockListen,
            122 => Syscall::SockAccept,
            123 => Syscall::SockConnect,
            124 => Syscall::SockRecvFrom,
            125 => Syscall::SockSendTo,
            126 => Syscall::SockSendFile,
            _ => Syscall::Resolve,
        }
    }

    /// The entry-point name of this call.
    pub fn name(&self) -> (r: &'static str)
        ensures
            r@ == syscall_name(*self),
    {
        match self {
            Syscall::ArgsGet => "args_get",
            Syscall::ArgsSizesGet => "args_sizes_get",
            Syscall::ClockResGet => "clock_res_get",
            Syscall::ClockTimeGet => "clock_time_get",
            Syscall::EnvironGet => "environ_get",
            Syscall::EnvironSizesGet => "environ_sizes_get",
            Syscall::FdAdvise => "fd_advise",
            Syscall::FdAllocate => "fd_allocate",
            Syscall::FdClose => "fd_close",
            Syscall::FdDatasync => "fd_datasync",
            Syscall::FdFdstatGet => "fd_fdstat_get",
            Syscall::FdFdstatSetFlags => "fd_fdstat_set_flags",
            Syscall::FdFdstatSetRights => "fd_fdstat_set_rights",
            Syscall::FdFilestatGet => "fd_filestat_get",
            Syscall::FdFilestatSetSize => "fd_filestat_set_size",
            Syscall::FdFilestatSetTimes => "fd_filestat_set_times",
            Syscall::FdPread => "fd_pread",
            Syscall::FdPrestatGet => "fd_prestat_get",
            Syscall::FdPrestatDirName => "fd_prestat_dir_name",
            Syscall::FdPwrite => "fd_pwrite",
            Syscall::FdRead => "fd_read",
            Syscall::FdReaddir => "fd_readdir",
            Syscall::FdRenumber => "fd_renumber",
            Syscall::FdSeek => "fd_seek",
            Syscall::FdSync => "fd_sync",
            Syscall::FdTell => "fd_tell",
            Syscall::FdWrite => "fd_write",
            Syscall::PathCreateDirectory => "path_create_directory",
            Syscall::PathFilestatGet => "path_filestat_get",
            Syscall::PathFilestatSetTimes => "path_filestat_set_times",
            Syscall::PathLink => "path_link",
            Syscall::PathOpen => "path_open",
            Syscall::PathReadlink => "path_readlink",
            Syscall::PathRemoveDirectory => "path_remove_directory",
            Syscall::PathRename => "path_rename",
            Syscall::PathSymlink => "path_symlink",
            Syscall::PathUnlinkFile => "path_unlink_file",
            Syscall::PollOneoff => "poll_oneoff",
            Syscall::ProcExit => "proc_exit",
            Syscall::ProcRaise => "proc_raise",
            Syscall::RandomGet => "random_get",
            Syscall::SchedYield => "sched_yield",
            Syscall::SockRecv => "sock_recv",
            Syscall::SockSend => "sock_send",
            Syscall::SockShutdown => "sock_shutdown",
            Syscall::ClockTimeSet => "clock_time_set",
            Syscall::FdDup => "fd_dup",
            Syscall::FdEvent => "fd_event",
            Syscall::FdPipe => "fd_pipe",
            Syscall::ProcFork => "proc_fork",
            Syscall::ProcJoin => "proc_join",
            Syscall::ProcSignal => "proc_signal",
            Syscall::ProcExec => "proc_exec",
            Syscall::ProcRaiseInterval => "proc_raise_interval",
            Syscall::ProcSpawn => "proc_spawn",
            Syscall::ProcId => "proc_id",
            Syscall::ProcParent => "proc_parent",
            Syscall::TtyGet => "tty_get",
            Syscall::TtySet => "tty_set",
            Syscall::Getcwd => "getcwd",
            Syscall::Chdir => "chdir",
            Syscall::CallbackSignal => "callback_signal",
            Syscall::CallbackThread => "callback_thread",
            Syscall::CallbackReactor => "callback_reactor",
            Syscall::CallbackThreadLocalDestroy => "callback_thread_local_destroy",
            Syscall::ThreadSpawn => "thread_spawn",
            Syscall::ThreadLocalCreate => "thread_local_create",
            Syscall::ThreadLocalDestroy => "thread_local_destroy",
            Syscall::ThreadLocalSet => "thread_local_set",
            Syscall::ThreadLocalGet => "thread_local_get",
            Syscall::ThreadSleep => "thread_sleep",
            Syscall::ThreadId => "thread_id",
            Syscall::ThreadSignal => "thread_signal",
            Syscall::ThreadJoin => "thread_join",
            Syscall::ThreadParallelism => "thread_parallelism",
            Syscall::ThreadExit => "thread_exit",
            Syscall::StackCheckpoint => "stack_checkpoint",
            Syscall::StackRestore => "stack_restore",
            Syscall::FutexWait => "futex_wait",
            Syscall::FutexWake => "futex_wake",
            Syscall::FutexWakeAll => "futex_wake_all",
            Syscall::BusOpenLocal => "bus_open_local",
            Syscall::BusOpenRemote => "bus_open_remote",
            Syscall::BusClose => "bus_close",
            Syscall::BusCall => "bus_call",
            Syscall::BusSubcall => "bus_subcall",
            Syscall::BusPoll => "bus_poll",
            Syscall::CallReply => "call_reply",
            Syscall::CallFault => "call_fault",
            Syscall::CallClose => "call_close",
            Syscall::WsConnect => "ws_connect",
            Syscall::HttpRequest => "http_request",
            Syscall::HttpStatus => "http_status",
            Syscall::PortBridge => "port_bridge",
            Syscall::PortUnbridge => "port_unbridge",
            Syscall::PortDhcpAcquire => "port_dhcp_acquire",
            Syscall::PortAddrAdd => "port_addr_add",
            Syscall::PortAddrRemove => "port_addr_remove",
            Syscall::PortAddrClear => "port_addr_clear",
            Syscall::PortAddrList => "port_addr_list",
            Syscall::PortMac => "port_mac",
            Syscall::PortGatewaySet => "port_gateway_set",
            Syscall::PortRouteAdd => "port_route_add",
            Syscall::PortRouteRemove => "port_route_remove",
            Syscall::PortRouteClear => "port_route_clear",
            Syscall::PortRouteList => "port_route_list",
            Syscall::SockStatus => "sock_status",
            Syscall::SockAddrLocal => "sock_addr_local",
            Syscall::SockAddrPeer => "sock_addr_peer",
            Syscall::SockOpen => "sock_open",
            Syscall::SockSetOptFlag => "sock_set_opt_flag",
            Syscall::SockGetOptFlag => "sock_get_opt_flag",
            Syscall::SockSetOptTime => "sock_set_opt_time",
            Syscall::SockGetOptTime => "sock_get_opt_time",
            Syscall::SockSetOptSize => "sock_set_opt_size",
            Syscall::SockGetOptSize => "sock_get_opt_size",
            Syscall::SockJoinMulticastV4 => "sock_join_multicast_v4",
            Syscall::SockLeaveMulticastV4 => "sock_leave_multicast_v4",
            Syscall::SockJoinMulticastV6 => "sock_join_multicast_v6",
            Syscall::SockLeaveMulticastV6 => "sock_leave_multicast_v6",
            Syscall::SockBind => "sock_bind",
            Syscall::SockListen => "sock_listen",
            Syscall::SockAccept => "sock_accept",
            Syscall::SockConnect => "sock_connect",
            Syscall::SockRecvFrom => "sock_recv_from",
            Syscall::SockSendTo => "sock_send_to",
            Syscall::SockSendFile => "sock_send_file",
            Syscall::Resolve => "resolve",
        }
    }

    /// Whether this call takes guest-memory offsets or lengths.
    pub fn takes_guest_offsets(&self) -> (r: bool)
        ensures
            r == takes_guest_offsets(*self),
    {
        !matches!(self,
            Syscall::FdAdvise
            | Syscall::FdAllocate
            | Syscall::FdClose
            | Syscall::FdDatasync
            | Syscall::FdFdstatSetFlags
            | Syscall::FdFdstatSetRights
            | Syscall::FdFilestatSetSize
            | Syscall::FdFilestatSetTimes
            | Syscall::FdRenumber
            | Syscall::FdSync
            | Syscall::ProcRaise
            | Syscall::SchedYield
            | Syscall::SockShutdown
            | Syscall::ProcRaiseInterval
            | Syscall::ThreadLocalDestroy
            | Syscall::ThreadLocalSet
            | Syscall::ThreadSleep
            | Syscall::ThreadSignal
            | Syscall::ThreadJoin
            | Syscall::ThreadExit
            | Syscall::BusClose
            | Syscall::CallFault
            | Syscall::CallClose
            | Syscall::PortUnbridge
            | Syscall::PortDhcpAcquire
            | Syscall::PortAddrClear
            | Syscall::PortRouteClear
            | Syscall::SockSetOptFlag
            | Syscall::SockSetOptSize
        )
    }

    /// Whether `wasi_unstable` binds this call to a legacy implementation.
    pub fn has_legacy_variant(&self) -> (r: bool)
        ensures
            r == has_legacy_variant(*self),
    {
        matches!(self,
            Syscall::FdFilestatGet
            | Syscall::FdSeek
            | Syscall::PathFilestatGet
            | Syscall::PollOneoff
        )
    }
}

/// Every call sits at its own position of the enumeration order.
pub proof fn lemma_index_of_inverse(s: Syscall)
    ensures
        index_of(s) < SYSCALL_COUNT,
        syscall_at(index_of(s) as usize) == s,
{
}

/// The call that an entry-point name names, read from the name's length and
/// a few of its characters; meaningful only on the names of calls.
pub open spec fn call_named(n: Seq<char>) -> Syscall {
    if n.len() == 5 {
        Syscall::Chdir
    } else if n.len() == 6 {
        if n[0] == 'f' {
            Syscall::FdDup
        } else {
            Syscall::Getcwd
        }
    } else if n.len() == 7 {
        if n[3] == 'r' {
            Syscall::FdRead
        } else if n[3] == 's' {
            if n[4] == 'e' {
                Syscall::FdSeek
            } else {
                Syscall::FdSync
            }
        } else if n[3] == 't' {
            Syscall::FdTell
        } else if n[3] == 'p' {
            Syscall::FdPipe
        } else if n[3] == 'c' {
            Syscall::ProcId
        } else if n[3] == '_' {
            if n[4] == 'g' {
                Syscall::TtyGet
            } else {
                Syscall::TtySet
            }
        } else {
            Syscall::Resolve
        }
    } else if n.len() == 8 {
        if n[3] == 's' {
            Syscall::ArgsGet
        } else if n[3] == 'c' {
            Syscall::FdClose
        } else if n[3] == 'p' {
            Syscall::FdPread
        } else if n[3] == 'w' {
            Syscall::FdWrite
        } else if n[3] == 'e' {
            Syscall::FdEvent
        } else if n[3] == '_' {
            if n[4] == 'c' {
                Syscall::BusCall
            } else {
                Syscall::BusPoll
            }
        } else {
            Syscall::PortMac
        }
    } else if n.len() == 9 {
        if n[5] == 'v' {
            Syscall::FdAdvise
        } else if n[5] == 'r' {
            if n[0] == 'f' {
                Syscall::FdPwrite
            } else {
                Syscall::SockRecv
            }
        } else if n[5] == 'l' {
            if n[0] == 'p' {
                Syscall::PathLink
            } else {
                Syscall::BusClose
            }
        } else if n[5] == 'o' {
            if n[0] == 'p' {
                Syscall::PathOpen
            } else {
                Syscall::SockOpen
            }
        } else if n[5] == 'e' {
            if n[7] == 'i' {
                Syscall::ProcExit
            } else {
                Syscall::ProcExec
            }
        } else if n[5] == 's' {
            Syscall::SockSend
        } else if n[5] == 'f' {
            Syscall::ProcFork
        } else if n[5] == 'j' {
            Syscall::ProcJoin
        } else if n[5] == 'd' {
            Syscall::ThreadId
        } else {
            Syscall::SockBind
        }
    } else if n.len() == 10 {
        if n[5] == 'a' {
            Syscall::FdReaddir
        } else if n[5] == 'r' {
            if n[0] == 'p' {
                Syscall::ProcRaise
            } else {
                Syscall::CallReply
            }
        } else if n[5] == 'm' {
            Syscall::RandomGet
        } else if n[5] == 's' {
            Syscall::ProcSpawn
        } else if n[5] == '_' {
            if n[8] == 'i' {
                Syscall::FutexWait
            } else {
                Syscall::FutexWake
            }
        } else if n[5] == 'f' {
            Syscall::CallFault
        } else if n[5] == 'c' {
            Syscall::CallClose
        } else {
            Syscall::WsConnect
        }
    } else if n.len() == 11 {
        if n[3] == 'i' {
            Syscall::EnvironGet
        } else if n[3] == 'a' {
            Syscall::FdAllocate
        } else if n[3] == 'd' {
            Syscall::FdDatasync
        } else if n[3] == 'r' {
            Syscall::FdRenumber
        } else if n[3] == 'h' {
            Syscall::PathRename
        } else if n[3] == 'l' {
            Syscall::PollOneoff
        } else if n[3] == 'e' {
            if n[7] == 'i' {
                Syscall::SchedYield
            } else if n[7] == 'j' {
                Syscall::ThreadJoin
            } else {
                Syscall::ThreadExit
            }
        } else if n[3] == 'c' {
            if n[5] == 's' {
                Syscall::ProcSignal
            } else {
                Syscall::ProcParent
            }
        } else if n[3] == '_' {
            Syscall::BusSubcall
        } else if n[3] == 'p' {
            Syscall::HttpStatus
        } else if n[3] == 't' {
            Syscall::PortBridge
        } else {
            if n[5] == 's' {
                Syscall::SockStatus
            } else if n[5] == 'l' {
                Syscall::SockListen
            } else {
                Syscall::SockAccept
            }
        }
    } else if n.len() == 12 {
        if n[10] == 'n' {
            Syscall::PathSymlink
        } else if n[10] == 'w' {
            Syscall::ThreadSpawn
        } else if n[10] == 'e' {
            Syscall::ThreadSleep
        } else if n[10] == 's' {
            Syscall::HttpRequest
        } else if n[10] == 'c' {
            Syscall::SockConnect
        } else {
            Syscall::SockSendTo
        }
    } else if n.len() == 13 {
        if n[6] == 'r' {
            if n[0] == 'c' {
                Syscall::ClockResGet
            } else {
                Syscall::StackRestore
            }
        } else if n[6] == 't' {
            Syscall::FdFdstatGet
        } else if n[6] == 'e' {
            Syscall::PathReadlink
        } else if n[6] == 'h' {
            Syscall::SockShutdown
        } else if n[6] == '_' {
            Syscall::ThreadSignal
        } else if n[6] == 'n' {
            Syscall::PortUnbridge
        } else {
            Syscall::PortAddrAdd
        }
    } else if n.len() == 14 {
        if n[8] == 'e' {
            Syscall::ArgsSizesGet
        } else if n[8] == 'm' {
            if n[11] == 'g' {
                Syscall::ClockTimeGet
            } else {
                Syscall::ClockTimeSet
            }
        } else if n[8] == 'a' {
            Syscall::FdPrestatGet
        } else if n[8] == 'k' {
            Syscall::FutexWakeAll
        } else if n[8] == '_' {
            Syscall::BusOpenLocal
        } else if n[8] == 'r' {
            if n[0] == 'p' {
                Syscall::PortAddrList
            } else {
                Syscall::SockAddrPeer
            }
        } else if n[8] == 't' {
            Syscall::PortRouteAdd
        } else if n[8] == 'v' {
            Syscall::SockRecvFrom
        } else {
            Syscall::SockSendFile
        }
    } else if n.len() == 15 {
        if n[10] == 't' {
            Syscall::FdFilestatGet
        } else if n[10] == 'i' {
            Syscall::CallbackSignal
        } else if n[10] == 'h' {
            Syscall::CallbackThread
        } else if n[10] == 'e' {
            Syscall::BusOpenRemote
        } else if n[10] == 'c' {
            Syscall::PortAddrClear
        } else if n[10] == '_' {
            Syscall::PortRouteList
        } else {
            Syscall::SockAddrLocal
        }
    } else if n.len() == 16 {
        if n[11] == '_' {
            Syscall::PathUnlinkFile
        } else if n[11] == 'a' {
            Syscall::CallbackReactor
        } else if n[11] == 'l' {
            if n[13] == 's' {
                Syscall::ThreadLocalSet
            } else {
                Syscall::ThreadLocalGet
            }
        } else if n[11] == 'p' {
            Syscall::StackCheckpoint
        } else if n[11] == 'e' {
            Syscall::PortAddrRemove
        } else if n[11] == 'y' {
            Syscall::PortGatewaySet
        } else {
            Syscall::PortRouteClear
        }
    } else if n.len() == 17 {
        if n[5] == 'o' {
            Syscall::EnvironSizesGet
        } else if n[5] == 'f' {
            Syscall::PathFilestatGet
        } else if n[5] == 'd' {
            Syscall::PortDhcpAcquire
        } else if n[5] == 'r' {
            Syscall::PortRouteRemove
        } else if n[5] == 's' {
            if n[13] == 'f' {
                Syscall::SockSetOptFlag
            } else if n[13] == 't' {
                Syscall::SockSetOptTime
            } else {
                Syscall::SockSetOptSize
            }
        } else {
            if n[13] == 'f' {
                Syscall::SockGetOptFlag
            } else if n[13] == 't' {
                Syscall::SockGetOptTime
            } else {
                Syscall::SockGetOptSize
            }
        }
    } else if n.len() == 18 {
        Syscall::ThreadParallelism
    } else if n.len() == 19 {
        if n[3] == 'f' {
            Syscall::FdFdstatSetFlags
        } else if n[3] == 'p' {
            Syscall::FdPrestatDirName
        } else if n[3] == 'c' {
            Syscall::ProcRaiseInterval
        } else {
            Syscall::ThreadLocalCreate
        }
    } else if n.len() == 20 {
        if n[4] == 'd' {
            Syscall::FdFdstatSetRights
        } else if n[4] == 'i' {
            Syscall::FdFilestatSetSize
        } else {
            Syscall::ThreadLocalDestroy
        }
    } else if n.len() == 21 {
        if n[5] == 'l' {
            Syscall::FdFilestatSetTimes
        } else if n[5] == 'c' {
            Syscall::PathCreateDirectory
        } else {
            Syscall::PathRemoveDirectory
        }
    } else if n.len() == 22 {
        if n[21] == '4' {
            Syscall::SockJoinMulticastV4
        } else {
            Syscall::SockJoinMulticastV6
        }
    } else if n.len() == 23 {
        if n[22] == 's' {
            Syscall::PathFilestatSetTimes
        } else if n[22] == '4' {
            Syscall::SockLeaveMulticastV4
        } else {
            Syscall::SockLeaveMulticastV6
        }
    } else {
        Syscall::CallbackThreadLocalDestroy
    }
}

/// Every call can be read back from its name.
pub proof fn lemma_call_named_inverse(s: Syscall)
    ensures
        call_named(syscall_name(s)) == s,
{
    reveal_strlit("args_get");
    reveal_strlit("args_sizes_get");
    reveal_strlit("clock_res_get");
    reveal_strlit("clock_time_get");
    reveal_strlit("environ_get");
    reveal_strlit("environ_sizes_get");
    reveal_strlit("fd_advise");
    reveal_strlit("fd_allocate");
    reveal_strlit("fd_close");
    reveal_strlit("fd_datasync");
    reveal_strlit("fd_fdstat_get");
    reveal_strlit("fd_fdstat_set_flags");
    reveal_strlit("fd_fdstat_set_rights");
    reveal_strlit("fd_filestat_get");
    reveal_strlit("fd_filestat_set_size");
    reveal_strlit("fd_filestat_set_times");
    reveal_strlit("fd_pread");
    reveal_strlit("fd_prestat_get");
    reveal_strlit("fd_prestat_dir_name");
    reveal_strlit("fd_pwrite");
    reveal_strlit("fd_read");
    reveal_strlit("fd_readdir");
    reveal_strlit("fd_renumber");
    reveal_strlit("fd_seek");
    reveal_strlit("fd_sync");
    reveal_strlit("fd_tell");
    reveal_strlit("fd_write");
    reveal_strlit("path_create_directory");
    reveal_strlit("path_filestat_get");
    reveal_strlit("path_filestat_set_times");
    reveal_strlit("path_link");
    reveal_strlit("path_open");
    reveal_strlit("path_readlink");
    reveal_strlit("path_remove_directory");
    reveal_strlit("path_rename");
    reveal_strlit("path_symlink");
    reveal_strlit("path_unlink_file");
    reveal_strlit("poll_oneoff");
    reveal_strlit("proc_exit");
    reveal_strlit("proc_raise");
    reveal_strlit("random_get");
    reveal_strlit("sched_yield");
    reveal_strlit("sock_recv");
    reveal_strlit("sock_send");
    reveal_strlit("sock_shutdown");
    reveal_strlit("clock_time_set");
    reveal_strlit("fd_dup");
    reveal_strlit("fd_event");
    reveal_strlit("fd_pipe");
    reveal_strlit("proc_fork");
    reveal_strlit("proc_join");
    reveal_strlit("proc_signal");
    reveal_strlit("proc_exec");
    reveal_strlit("proc_raise_interval");
    reveal_strlit("proc_spawn");
    reveal_strlit("proc_id");
    reveal_strlit("proc_parent");
    reveal_strlit("tty_get");
    reveal_strlit("tty_set");
    reveal_strlit("getcwd");
    reveal_strlit("chdir");
    reveal_strlit("callback_signal");
    reveal_strlit("callback_thread");
    reveal_strlit("callback_reactor");
    reveal_strlit("callback_thread_local_destroy");
    reveal_strlit("thread_spawn");
    reveal_strlit("thread_local_create");
    reveal_strlit("thread_local_destroy");
    reveal_strlit("thread_local_set");
    reveal_strlit("thread_local_get");
    reveal_strlit("thread_sleep");
    reveal_strlit("thread_id");
    reveal_strlit("thread_signal");
    reveal_strlit("thread_join");
    reveal_strlit("thread_parallelism");
    reveal_strlit("thread_exit");
    reveal_strlit("stack_checkpoint");
    reveal_strlit("stack_restore");
    reveal_strlit("futex_wait");
    reveal_strlit("futex_wake");
    reveal_strlit("futex_wake_all");
    reveal_strlit("bus_open_local");
    reveal_strlit("bus_open_remote");
    reveal_strlit("bus_close");
    reveal_strlit("bus_call");
    reveal_strlit("bus_subcall");
    reveal_strlit("bus_poll");
    reveal_strlit("call_reply");
    reveal_strlit("call_fault");
    reveal_strlit("call_close");
    reveal_strlit("ws_connect");
    reveal_strlit("http_request");
    reveal_strlit("http_status");
    reveal_strlit("port_bridge");
    reveal_strlit("port_unbridge");
    reveal_strlit("port_dhcp_acquire");
    reveal_strlit("port_addr_add");
    reveal_strlit("port_addr_remove");
    reveal_strlit("port_addr_clear");
    reveal_strlit("port_addr_list");
    reveal_strlit("port_mac");
    reveal_strlit("port_gateway_set");
    reveal_strlit("port_route_add");
    reveal_strlit("port_route_remove");
    reveal_strlit("port_route_clear");
    reveal_strlit("port_route_list");
    reveal_strlit("sock_status");
    reveal_strlit("sock_addr_local");
    reveal_strlit("sock_addr_peer");
    reveal_strlit("sock_open");
    reveal_strlit("sock_set_opt_flag");
    reveal_strlit("sock_get_opt_flag");
    reveal_strlit("sock_set_opt_time");
    reveal_strlit("sock_get_opt_time");
    reveal_strlit("sock_set_opt_size");
    reveal_strlit("sock_get_opt_size");
    reveal_strlit("sock_join_multicast_v4");
    reveal_strlit("sock_leave_multicast_v4");
    reveal_strlit("sock_join_multicast_v6");
    reveal_strlit("sock_leave_multicast_v6");
    reveal_strlit("sock_bind");
    reveal_strlit("sock_listen");
    reveal_strlit("sock_accept");
    reveal_strlit("sock_connect");
    reveal_strlit("sock_recv_from");
    reveal_strlit("sock_send_to");
    reveal_strlit("sock_send_file");
    reveal_strlit("resolve");
}

/// Different calls have different names.
pub proof fn lemma_names_distinct(a: Syscall, b: Syscall)
    requires
        a != b,
    ensures
        syscall_name(a) != syscall_name(b),
{
    lemma_call_named_inverse(a);
    lemma_call_named_inverse(b);
}

impl Syscall {
    /// The call whose entry-point name is exactly `name`, if there is one.
    pub fn from_name(name: &str) -> (r: Option<Syscall>)
        ensures
            forall|s: Syscall| #[trigger] syscall_name(s) == name@ <==> r == Some(s),
    {
        let mut i: usize = 0;
        while i < SYSCALL_COUNT
            invariant
                i <= SYSCALL_COUNT,
                forall|j: usize| j < i ==> syscall_name(#[trigger] syscall_at(j)) != name@,
            decreases SYSCALL_COUNT - i,
        {
            let s = Syscall::at(i);
            if same_text(s.name(), name) {
                proof {
                    assert forall|t: Syscall| #[trigger] syscall_name(t) == name@ implies t == s by {
                        if t != s {
                            lemma_names_distinct(t, s);
                        }
                    }
                }
                return Some(s);
            }
            i = i + 1;
        }
        proof {
            assert forall|t: Syscall| syscall_name(t) != name@ by {
                lemma_index_of_inverse(t);
                assert(syscall_at(index_of(t) as usize) == t);
            }
        }
        None
    }
}

} // verus!
