use vstd::prelude::*;

verus! {

/// A kind of Linux namespace that a sandbox can isolate.
#[derive(Clone, Copy, Debug, PartialEq, Eq, Structural)]
pub enum NS {
    CGroup,
    IPC,
    Mnt,
    Net,
    Pid,
    SysV,
    Time,
    User,
    UTS,
}

/// The bit that stands for each kind in an `NsSet`.
pub open spec fn ns_index(k: NS) -> nat {
    match k {
        NS::CGroup => 0,
        NS::IPC => 1,
        NS::Mnt => 2,
        NS::Net => 3,
        NS::Pid => 4,
        NS::SysV => 5,
        NS::Time => 6,
        NS::User => 7,
        NS::UTS => 8,
    }
}

impl NS {
    /// The single-bit mask of this kind.
    pub fn bit(self) -> (r: u16)
        ensures
            r == 1u16 << ns_index(self),
    {
        match self {
            NS::CGroup => 1u16 << 0u16,
            NS::IPC => 1u16 << 1u16,
            NS::Mnt => 1u16 << 2u16,
            NS::Net => 1u16 << 3u16,
            NS::Pid => 1u16 << 4u16,
            NS::SysV => 1u16 << 5u16,
            NS::Time => 1u16 << 6u16,
            NS::User => 1u16 << 7u16,
            NS::UTS => 1u16 << 8u16,
        }
    }
}

proof fn lemma_bit_or(b: u16, i: u16, j: u16)
    by (bit_vector)
    requires
        i < 9,
        j < 9,
    ensures
        ((b | (1u16 << i)) & (1u16 << j) != 0) == ((b & (1u16 << j) != 0) || i == j),
{
}

proof fn lemma_bit_zero(j: u16)
    by (bit_vector)
    requires
        j < 9,
    ensures
        (0u16 & (1u16 << j)) == 0,
{
}

/// A set of namespace kinds, one bit per kind.
#[derive(Clone, Copy, Debug, PartialEq, Eq, Structural)]
pub struct NsSet {
    bits: u16,
}

impl View for NsSet {
    type V = Set<NS>;

    closed spec fn view(&self) -> Set<NS> {
        Set::new(|k: NS| self.bits & (1u16 << ns_index(k)) != 0)
    }
}

impl NsSet {
    /// The set without any kind.
    pub fn empty() -> (r: NsSet)
        ensures
            r@ == Set::<NS>::empty(),
    {
        let r = NsSet { bits: 0 };
        assert forall|k: NS| !r@.contains(k) by {
            lemma_bit_zero(ns_index(k) as u16);
        }
        assert(r@ =~= Set::<NS>::empty());
        r
    }

    /// Adds `k`.
    pub fn insert(&mut self, k: NS)
        ensures
            final(self)@ == old(self)@.insert(k),
    {
        let ghost before = *self;
        self.bits = self.bits | k.bit();
        assert forall|j: NS| #[trigger] self@.contains(j) == before@.insert(k).contains(j) by {
            lemma_bit_or(before.bits, ns_index(k) as u16, ns_index(j) as u16);
        }
        assert(self@ =~= before@.insert(k));
    }

    /// Whether `k` is in the set.
    pub fn contains(&self, k: NS) -> (r: bool)
        ensures
            r == self@.contains(k),
    {
        self.bits & k.bit() != 0
    }

    /// The raw mask: bit `ns_index(k)` is set for each member `k`.
    pub fn bits(&self) -> (r: u16)
        ensures
            forall|k: NS| (r & (1u16 << ns_index(k)) != 0) == self@.contains(k),
    {
        self.bits
    }
}

/// The command line as parsed: one on/off pair per namespace kind, a global
/// pair, the shell switch, and the program with its arguments.
pub struct SbArgs {
    pub ns_on: bool,
    pub ns_off: bool,
    pub ns_cgroup_on: bool,
    pub ns_cgroup_off: bool,
    pub ns_ipc_on: bool,
    pub ns_ipc_off: bool,
    pub ns_mnt_on: bool,
    pub ns_mnt_off: bool,
    pub ns_net_on: bool,
    pub ns_net_off: bool,
    pub ns_pid_on: bool,
    pub ns_pid_off: bool,
    pub ns_sysv_on: bool,
    pub ns_sysv_off: bool,
    pub ns_time_on: bool,
    pub ns_time_off: bool,
    pub ns_user_on: bool,
    pub ns_user_off: bool,
    pub ns_uts_on: bool,
    pub ns_uts_off: bool,
    pub run_bash: bool,
    pub program: Option<Vec<u8>>,
    pub args: Vec<Vec<u8>>,
}

/// The program to start and its arguments, passed on verbatim.
#[derive(Debug, Clone)]
pub struct ProgramArgs {
    pub program: Vec<u8>,
    pub args: Vec<Vec<u8>>,
}

/// What to run, and in which namespaces.
#[derive(Debug, Clone)]
pub struct SbRunOptions {
    pub program_args: Option<ProgramArgs>,
    pub ns_opts: Option<NsSet>,
    pub run_bash: bool,
}

/// The "on" switch of kind `k`.
pub open spec fn kind_on(a: &SbArgs, k: NS) -> bool {
    match k {
        NS::CGroup => a.ns_cgroup_on,
        NS::IPC => a.ns_ipc_on,
        NS::Mnt => a.ns_mnt_on,
        NS::Net => a.ns_net_on,
        NS::Pid => a.ns_pid_on,
        NS::SysV => a.ns_sysv_on,
        NS::Time => a.ns_time_on,
        NS::User => a.ns_user_on,
        NS::UTS => a.ns_uts_on,
    }
}

/// The "off" switch of kind `k`.
pub open spec fn kind_off(a: &SbArgs, k: NS) -> bool {
    match k {
        NS::CGroup => a.ns_cgroup_off,
        NS::IPC => a.ns_ipc_off,
        NS::Mnt => a.ns_mnt_off,
        NS::Net => a.ns_net_off,
        NS::Pid => a.ns_pid_off,
        NS::SysV => a.ns_sysv_off,
        NS::Time => a.ns_time_off,
        NS::User => a.ns_user_off,
        NS::UTS => a.ns_uts_off,
    }
}

/// A pair selects its kind when it is switched on and not switched off:
/// off wins over on, and on must be explicit.
pub open spec fn switched_on(off: bool, on: bool) -> bool {
    !off && on
}

/// The namespaces that the command line asks for: none at all unless the
/// global pair is switched on, else each kind whose own pair is.
pub open spec fn ns_selection(a: &SbArgs) -> Option<Set<NS>> {
    if switched_on(a.ns_off, a.ns_on) {
        Some(Set::new(|k: NS| switched_on(kind_off(a, k), kind_on(a, k))))
    } else {
        None
    }
}

/// Whether the launch goes through the shell: when asked for, when no
/// program is named, or when the named program cannot be executed.
pub open spec fn launches_shell(a: &SbArgs, program_executable: bool) -> bool {
    a.run_bash || a.program is None || !program_executable
}

/// The view of an optional set of kinds.
pub open spec fn ns_opts_view(o: Option<NsSet>) -> Option<Set<NS>> {
    match o {
        Some(s) => Some(s@),
        None => None,
    }
}

/// `flag` when its pair is switched on, else nothing.
pub fn bf(off: bool, on: bool, flag: NS) -> (r: Option<NS>)
    ensures
        r == (if switched_on(off, on) { Some(flag) } else { None::<NS> }),
{
    if !off && on {
        Some(flag)
    } else {
        None
    }
}

/// The namespace selection of the command line.
pub fn resolve_namespaces(a: &SbArgs) -> (r: Option<NsSet>)
    ensures
        ns_opts_view(r) == ns_selection(a),
{
    if !(!a.ns_off && a.ns_on) {
        return None;
    }
    let picks: [Option<NS>; 9] = [
        bf(a.ns_cgroup_off, a.ns_cgroup_on, NS::CGroup),
        bf(a.ns_ipc_off, a.ns_ipc_on, NS::IPC),
        bf(a.ns_mnt_off, a.ns_mnt_on, NS::Mnt),
        bf(a.ns_net_off, a.ns_net_on, NS::Net),
        bf(a.ns_pid_off, a.ns_pid_on, NS::Pid),
        bf(a.ns_sysv_off, a.ns_sysv_on, NS::SysV),
        bf(a.ns_time_off, a.ns_time_on, NS::Time),
        bf(a.ns_user_off, a.ns_user_on, NS::User),
        bf(a.ns_uts_off, a.ns_uts_on, NS::UTS),
    ];
    let ghost wanted = Set::new(|k: NS| switched_on(kind_off(a, k), kind_on(a, k)));
    let ghost listed = picks@;
    assert forall|k: NS| wanted.contains(k) <==> exists|i: int| 0 <= i < 9 && #[trigger] listed[i] == Some(k) by {
        match k {
            NS::CGroup => { assert(listed[0] == bf_spec(a.ns_cgroup_off, a.ns_cgroup_on, k)); },
            NS::IPC => { assert(listed[1] == bf_spec(a.ns_ipc_off, a.ns_ipc_on, k)); },
            NS::Mnt => { assert(listed[2] == bf_spec(a.ns_mnt_off, a.ns_mnt_on, k)); },
            NS::Net => { assert(listed[3] == bf_spec(a.ns_net_off, a.ns_net_on, k)); },
            NS::Pid => { assert(listed[4] == bf_spec(a.ns_pid_off, a.ns_pid_on, k)); },
            NS::SysV => { assert(listed[5] == bf_spec(a.ns_sysv_off, a.ns_sysv_on, k)); },
            NS::Time => { assert(listed[6] == bf_spec(a.ns_time_off, a.ns_time_on, k)); },
            NS::User => { assert(listed[7] == bf_spec(a.ns_user_off, a.ns_user_on, k)); },
            NS::UTS => { assert(listed[8] == bf_spec(a.ns_uts_off, a.ns_uts_on, k)); },
        }
    }
    let mut set = NsSet::empty();
    let mut i: usize = 0;
    while i < 9
        invariant
            i <= 9,
            listed == picks@,
            forall|k: NS| #[trigger] set@.contains(k) <==> exists|j: int| 0 <= j < i && #[trigger] listed[j] == Some(k),
        decreases 9 - i,
    {
        match picks[i] {
            Some(k) => set.insert(k),
            None => {},
        }
        i = i + 1;
        assert forall|k: NS| #[trigger] set@.contains(k) <==> exists|j: int| 0 <= j < i && #[trigger] listed[j] == Some(k) by {
            if set@.contains(k) && listed[i - 1] != Some(k) {
                let j = choose|j: int| 0 <= j < i - 1 && #[trigger] listed[j] == Some(k);
            }
        }
    }
    assert(set@ =~= wanted);
    Some(set)
}

/// Whether `parse` reads the result of an execute-permission probe of the
/// program: only when a program is named and the shell was not asked for.
pub fn needs_exec_probe(a: &SbArgs) -> (r: bool)
    ensures
        r == (!a.run_bash && a.program is Some),
{
    !a.run_bash && a.program.is_some()
}

/// Turns the command line into run options.
///
/// `program_executable` is the outcome of probing the named program for
/// execute permission; it is read only where `needs_exec_probe` holds. A
/// missing or non-executable program falls back to the shell rather than
/// failing; the program and its arguments are kept either way.
pub fn parse(a: SbArgs, program_executable: bool) -> (r: SbRunOptions)
    ensures
        r.run_bash == launches_shell(&a, program_executable),
        ns_opts_view(r.ns_opts) == ns_selection(&a),
        a.program is None ==> r.program_args is None,
        a.program matches Some(p) ==> (r.program_args matches Some(pa) && pa.program == p && pa.args == a.args),
{
    let ns_opts = resolve_namespaces(&a);
    let run_bash = a.run_bash || a.program.is_none() || !program_executable;
    let program_args = match a.program {
        Some(program) => Some(ProgramArgs { program, args: a.args }),
        None => None,
    };
    SbRunOptions { program_args, ns_opts, run_bash }
}

/// An "off" switch always wins: a kind whose pair is switched off is never
/// selected, whatever its "on" switch says.
pub proof fn lemma_off_excludes_kind(a: &SbArgs, k: NS)
    requires
        kind_off(a, k),
    ensures
        ns_selection(a) matches Some(s) ==> !s.contains(k),
{
}

/// With the global "off" switch set, no namespace is selected at all,
/// whatever the switches of each kind say.
pub proof fn lemma_global_off_disables(a: &SbArgs)
    requires
        a.ns_off,
    ensures
        ns_selection(a) is None,
{
}

/// With the global pair and a kind's pair switched on, and neither switched
/// off, that kind is a member of the selection, which holds it once.
pub proof fn lemma_on_selects_kind(a: &SbArgs, k: NS)
    requires
        a.ns_on,
        !a.ns_off,
        kind_on(a, k),
        !kind_off(a, k),
    ensures
        ns_selection(a) matches Some(s) && s.contains(k) && s.remove(k).len() + 1 == s.len(),
{
    let s = Set::new(|j: NS| switched_on(kind_off(a, j), kind_on(a, j)));
    lemma_ns_sets_finite(s);
    assert(s.contains(k));
}

/// Every set of kinds is finite.
proof fn lemma_ns_sets_finite(s: Set<NS>)
    ensures
        s.finite(),
{
    let all = set![NS::CGroup, NS::IPC, NS::Mnt, NS::Net, NS::Pid, NS::SysV, NS::Time, NS::User, NS::UTS];
    assert(s.subset_of(all)) by {
        assert forall|k: NS| s.contains(k) implies all.contains(k) by {
            match k {
                NS::CGroup => {},
                NS::IPC => {},
                NS::Mnt => {},
                NS::Net => {},
                NS::Pid => {},
                NS::SysV => {},
                NS::Time => {},
                NS::User => {},
                NS::UTS => {},
            }
        }
    }
    vstd::set_lib::lemma_set_subset_finite(all, s);
}

/// A named, executable program with no shell asked for runs directly; no
/// program, or one that cannot be executed, means the shell, whatever the
/// shell switch says.
pub proof fn lemma_launch_mode(a: &SbArgs, program_executable: bool)
    ensures
        a.program is Some && program_executable && !a.run_bash ==> !launches_shell(a, program_executable),
        a.program is None ==> launches_shell(a, program_executable),
        a.program is Some && !program_executable ==> launches_shell(a, program_executable),
{
}

spec fn bf_spec(off: bool, on: bool, flag: NS) -> Option<NS> {
    if switched_on(off, on) { Some(flag) } else { None }
}

} // verus!
