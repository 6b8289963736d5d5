use sandbox::args_parser::{bf, needs_exec_probe, parse, NsSet, SbArgs, NS};

fn no_flags() -> SbArgs {
    SbArgs {
        ns_on: false,
        ns_off: false,
        ns_cgroup_on: false,
        ns_cgroup_off: false,
        ns_ipc_on: false,
        ns_ipc_off: false,
        ns_mnt_on: false,
        ns_mnt_off: false,
        ns_net_on: false,
        ns_net_off: false,
        ns_pid_on: false,
        ns_pid_off: false,
        ns_sysv_on: false,
        ns_sysv_off: false,
        ns_time_on: false,
        ns_time_off: false,
        ns_user_on: false,
        ns_user_off: false,
        ns_uts_on: false,
        ns_uts_off: false,
        run_bash: false,
        program: None,
        args: Vec::new(),
    }
}

fn all_kinds_on() -> SbArgs {
    SbArgs {
        ns_on: true,
        ns_cgroup_on: true,
        ns_ipc_on: true,
        ns_mnt_on: true,
        ns_net_on: true,
        ns_pid_on: true,
        ns_sysv_on: true,
        ns_time_on: true,
        ns_user_on: true,
        ns_uts_on: true,
        ..no_flags()
    }
}

const ALL: [NS; 9] = [
    NS::CGroup,
    NS::IPC,
    NS::Mnt,
    NS::Net,
    NS::Pid,
    NS::SysV,
    NS::Time,
    NS::User,
    NS::UTS,
];

#[test]
fn bf_off_beats_on() {
    assert_eq!(bf(false, true, NS::Net), Some(NS::Net));
    assert_eq!(bf(true, true, NS::Net), None);
    assert_eq!(bf(false, false, NS::Net), None);
    assert_eq!(bf(true, false, NS::Net), None);
}

#[test]
fn ns_on_with_net_off_gives_empty_selection() {
    let a = SbArgs { ns_on: true, ns_net_off: true, ..no_flags() };
    let opts = parse(a, true);
    let set = opts.ns_opts.expect("selection present");
    assert_eq!(set, NsSet::empty());
    assert!(!set.contains(NS::Net));
    assert_eq!(set.bits(), 0);
}

#[test]
fn no_flags_disable_namespaces_and_launch_shell() {
    let opts = parse(no_flags(), true);
    assert!(opts.ns_opts.is_none());
    assert!(opts.run_bash);
    assert!(opts.program_args.is_none());
}

#[test]
fn all_kinds_selected_when_switched_on() {
    let set = parse(all_kinds_on(), true).ns_opts.expect("selection present");
    for k in ALL {
        assert!(set.contains(k), "{:?}", k);
    }
    assert_eq!(set.bits(), 0x1ff);
}

#[test]
fn kind_off_excludes_it_from_selection() {
    let a = SbArgs { ns_pid_off: true, ns_uts_off: true, ..all_kinds_on() };
    let set = parse(a, true).ns_opts.expect("selection present");
    assert!(!set.contains(NS::Pid));
    assert!(!set.contains(NS::UTS));
    assert!(set.contains(NS::Mnt));
    assert_eq!(set.bits(), 0x1ff & !(1 << 4) & !(1 << 8));
}

#[test]
fn global_off_disables_every_kind() {
    let a = SbArgs { ns_off: true, ..all_kinds_on() };
    assert!(parse(a, true).ns_opts.is_none());
}

#[test]
fn kind_on_without_global_on_is_ignored() {
    let a = SbArgs { ns_on: false, ..all_kinds_on() };
    assert!(parse(a, true).ns_opts.is_none());
}

#[test]
fn single_kind_selected_once() {
    let a = SbArgs { ns_on: true, ns_mnt_on: true, ..no_flags() };
    let set = parse(a, true).ns_opts.expect("selection present");
    let mut expected = NsSet::empty();
    expected.insert(NS::Mnt);
    expected.insert(NS::Mnt);
    assert_eq!(set, expected);
    assert_eq!(set.bits(), 1 << 2);
}

#[test]
fn executable_program_runs_directly() {
    let a = SbArgs {
        program: Some(b"/bin/true".to_vec()),
        args: vec![b"-x".to_vec(), b"y".to_vec()],
        ..no_flags()
    };
    assert!(needs_exec_probe(&a));
    let opts = parse(a, true);
    assert!(!opts.run_bash);
    let pa = opts.program_args.expect("program kept");
    assert_eq!(pa.program, b"/bin/true".to_vec());
    assert_eq!(pa.args, vec![b"-x".to_vec(), b"y".to_vec()]);
}

#[test]
fn non_executable_program_falls_back_to_shell() {
    let a = SbArgs { program: Some(b"notes.txt".to_vec()), ..no_flags() };
    let opts = parse(a, false);
    assert!(opts.run_bash);
    assert_eq!(opts.program_args.expect("program kept").program, b"notes.txt".to_vec());
    let a = SbArgs { program: Some(b"notes.txt".to_vec()), run_bash: true, ..no_flags() };
    assert!(parse(a, false).run_bash);
}

#[test]
fn shell_switch_forces_shell() {
    let a = SbArgs { program: Some(b"/bin/true".to_vec()), run_bash: true, ..no_flags() };
    assert!(!needs_exec_probe(&a));
    assert!(parse(a, true).run_bash);
}

#[test]
fn no_program_needs_no_probe() {
    assert!(!needs_exec_probe(&no_flags()));
}
