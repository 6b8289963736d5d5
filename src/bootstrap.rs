use vstd::prelude::*;
use vstd::string::StringSliceAdditionalSpecFns;
use vstd::slice::slice_to_vec;

use crate::consts::{DEFAULT_TMP_DIR, HOME, PORTAGE_TMPDIR, SANDBOX_ACTIVE, SANDBOX_TESTING, SANDBOX_WORKDIR, TMPDIR};
use crate::environment::{has_env, is_env_on, is_on_value, EnvVars};
use crate::error::SetupSandboxError;

verus! {

/// What the sandboxed process will see, resolved once per invocation.
#[derive(Debug)]
pub struct SandboxInfo {
    /// The captured working directory; absent when the package manager
    /// scopes write permission itself.
    pub work_dir: Option<Vec<u8>>,
    /// The canonical temporary directory.
    pub tmp_dir: Vec<u8>,
    /// The home directory.
    pub home_dir: Vec<u8>,
    /// The path of the enforcement library.
    pub sandbox_lib: Vec<u8>,
}

/// A sandbox is already active and nesting is not allowed for testing.
pub open spec fn reentry_forbidden_in(env: Map<Seq<u8>, Seq<u8>>) -> bool {
    !(env.contains_key(SANDBOX_TESTING.spec_bytes()) && is_on_value(env[SANDBOX_TESTING.spec_bytes()]))
        && env.contains_key(SANDBOX_ACTIVE.spec_bytes())
}

/// The temporary directory that the environment names, before it is
/// canonicalized.
pub open spec fn tmp_dir_in(env: Map<Seq<u8>, Seq<u8>>) -> Seq<u8> {
    if env.contains_key(TMPDIR.spec_bytes()) {
        env[TMPDIR.spec_bytes()]
    } else {
        DEFAULT_TMP_DIR.spec_bytes()
    }
}

/// The home directory that the environment names, or the temporary
/// directory in its place.
pub open spec fn home_dir_in(env: Map<Seq<u8>, Seq<u8>>, tmp_dir: Seq<u8>) -> Seq<u8> {
    if env.contains_key(HOME.spec_bytes()) {
        env[HOME.spec_bytes()]
    } else {
        tmp_dir
    }
}

/// Whether starting a sandbox here must be refused: one is already active
/// in this process hierarchy and the testing override is not on. The
/// environment is only read.
pub fn reentry_forbidden(env: &EnvVars) -> (r: bool)
    requires
        env.wf(),
    ensures
        r == reentry_forbidden_in(env@),
{
    !is_env_on(env, SANDBOX_TESTING) && has_env(env, SANDBOX_ACTIVE)
}

/// Whether the working directory is to be captured: not when the package
/// manager's temporary directory is set.
pub fn wants_work_dir(env: &EnvVars) -> (r: bool)
    requires
        env.wf(),
    ensures
        r == !env@.contains_key(PORTAGE_TMPDIR.spec_bytes()),
{
    !has_env(env, PORTAGE_TMPDIR)
}

/// Takes the outcome of reading the current directory. On success the
/// directory is returned, and published in `SANDBOX_WORKDIR` when
/// `interactive`; a failure becomes `GetCurrentDir` and nothing is written.
pub fn capture_work_dir(env: &mut EnvVars, interactive: bool, cwd: Result<Vec<u8>, std::io::Error>) -> (r: Result<
    Vec<u8>,
    SetupSandboxError,
>)
    requires
        old(env).wf(),
    ensures
        final(env).wf(),
        cwd matches Ok(p) ==> r == Ok::<Vec<u8>, SetupSandboxError>(p) && final(env)@ == (if interactive {
            old(env)@.insert(SANDBOX_WORKDIR.spec_bytes(), p@)
        } else {
            old(env)@
        }),
        cwd matches Err(e) ==> r == Err::<Vec<u8>, SetupSandboxError>(SetupSandboxError::GetCurrentDir(e))
            && final(env)@ == old(env)@,
{
    match cwd {
        Ok(p) => {
            if interactive {
                env.set(SANDBOX_WORKDIR.as_bytes(), p.as_slice());
            }
            Ok(p)
        },
        Err(e) => Err(SetupSandboxError::GetCurrentDir(e)),
    }
}

/// The temporary directory to canonicalize: `TMPDIR`, or the default.
pub fn tmp_dir_source(env: &EnvVars) -> (r: Vec<u8>)
    requires
        env.wf(),
    ensures
        r@ == tmp_dir_in(env@),
{
    match env.get(TMPDIR.as_bytes()) {
        Some(v) => slice_to_vec(v.as_slice()),
        None => slice_to_vec(DEFAULT_TMP_DIR.as_bytes()),
    }
}

/// Labels the outcome of canonicalizing `tmp_dir_source`: the canonical
/// directory, or `GetTmpDir` with the operating system's error.
pub fn get_tmp_dir(canonical: Result<Vec<u8>, std::io::Error>) -> (r: Result<Vec<u8>, SetupSandboxError>)
    ensures
        canonical matches Ok(p) ==> r == Ok::<Vec<u8>, SetupSandboxError>(p),
        canonical matches Err(e) ==> r == Err::<Vec<u8>, SetupSandboxError>(SetupSandboxError::GetTmpDir(e)),
{
    match canonical {
        Ok(p) => Ok(p),
        Err(e) => Err(SetupSandboxError::GetTmpDir(e)),
    }
}

/// The home directory: `HOME` as it is, unchecked; when unset, `tmp_dir`,
/// which is then published in `HOME`.
pub fn resolve_home_dir(env: &mut EnvVars, tmp_dir: &[u8]) -> (r: Vec<u8>)
    requires
        old(env).wf(),
    ensures
        final(env).wf(),
        r@ == home_dir_in(old(env)@, tmp_dir@),
        final(env)@ == old(env)@.insert(HOME.spec_bytes(), r@),
{
    match env.get(HOME.as_bytes()) {
        Some(v) => {
            let home = slice_to_vec(v.as_slice());
            assert(old(env)@.insert(HOME.spec_bytes(), home@) =~= old(env)@);
            home
        },
        None => {
            env.set(HOME.as_bytes(), tmp_dir);
            slice_to_vec(tmp_dir)
        },
    }
}

/// The environment after the working-directory step: the captured
/// directory is published in `SANDBOX_WORKDIR` only when interactive.
pub open spec fn env_after_work_dir(
    env: Map<Seq<u8>, Seq<u8>>,
    interactive: bool,
    cwd: Option<Result<Vec<u8>, std::io::Error>>,
) -> Map<Seq<u8>, Seq<u8>> {
    match cwd {
        Some(Ok(c)) => if interactive {
            env.insert(SANDBOX_WORKDIR.spec_bytes(), c@)
        } else {
            env
        },
        _ => env,
    }
}

/// The working directory that the bootstrap records: the captured one, or
/// none when capture was skipped.
pub open spec fn work_dir_of(cwd: Option<Result<Vec<u8>, std::io::Error>>) -> Option<Vec<u8>> {
    match cwd {
        Some(Ok(c)) => Some(c),
        _ => None,
    }
}

/// Reading the current directory was attempted and failed.
pub open spec fn cwd_failed(cwd: Option<Result<Vec<u8>, std::io::Error>>) -> bool {
    cwd matches Some(Err(_))
}

/// The variables that the bootstrap writes are distinct.
proof fn lemma_written_keys_distinct()
    ensures
        SANDBOX_WORKDIR.spec_bytes() != TMPDIR.spec_bytes(),
        SANDBOX_WORKDIR.spec_bytes() != HOME.spec_bytes(),
        TMPDIR.spec_bytes() != HOME.spec_bytes(),
{
    broadcast use vstd::string::group_string_axioms;

    reveal_strlit("SANDBOX_WORKDIR");
    reveal_strlit("TMPDIR");
    reveal_strlit("HOME");
    assert(vstd::string::is_ascii(SANDBOX_WORKDIR));
    assert(vstd::string::is_ascii(TMPDIR));
    assert(vstd::string::is_ascii(HOME));
}

/// Resolves what the sandboxed process will see, in order: the working
/// directory, the temporary directory, the home directory.
///
/// The bootstrap must not start inside an active sandbox unless the testing
/// override is on (see `reentry_forbidden`); the caller stops before this
/// point otherwise. `cwd` is the outcome of reading the current directory,
/// present exactly when `wants_work_dir` holds. `canonical` is the outcome
/// of canonicalizing `tmp_dir_source` of the environment as it was passed
/// in, and `sandbox_lib` comes from `get_sandbox_lib`.
///
/// A failed step ends the bootstrap with its labelled error, and no later
/// step writes anything. On success the captured directory is published in
/// `SANDBOX_WORKDIR` when `interactive`, the canonical temporary directory
/// in `TMPDIR`, and, when `HOME` is unset, the temporary directory in `HOME`.
pub fn setup_sandbox(
    env: &mut EnvVars,
    interactive: bool,
    cwd: Option<Result<Vec<u8>, std::io::Error>>,
    canonical: Result<Vec<u8>, std::io::Error>,
    sandbox_lib: Vec<u8>,
) -> (r: Result<SandboxInfo, SetupSandboxError>)
    requires
        old(env).wf(),
        !reentry_forbidden_in(old(env)@),
        cwd is Some <==> !old(env)@.contains_key(PORTAGE_TMPDIR.spec_bytes()),
    ensures
        final(env).wf(),
        cwd_failed(cwd) ==> r == Err::<SandboxInfo, SetupSandboxError>(
            SetupSandboxError::GetCurrentDir(cwd->Some_0->Err_0),
        ) && final(env)@ == old(env)@,
        (!cwd_failed(cwd) && canonical is Err) ==> r == Err::<SandboxInfo, SetupSandboxError>(
            SetupSandboxError::GetTmpDir(canonical->Err_0),
        ) && final(env)@ == env_after_work_dir(old(env)@, interactive, cwd),
        (!cwd_failed(cwd) && canonical is Ok) ==> r is Ok,
        r matches Ok(i) ==> {
            &&& !cwd_failed(cwd)
            &&& canonical is Ok
            &&& i.work_dir == work_dir_of(cwd)
            &&& i.tmp_dir == canonical->Ok_0
            &&& i.home_dir@ == home_dir_in(old(env)@, canonical->Ok_0@)
            &&& i.sandbox_lib == sandbox_lib
            &&& final(env)@ == env_after_work_dir(old(env)@, interactive, cwd).insert(
                TMPDIR.spec_bytes(),
                canonical->Ok_0@,
            ).insert(HOME.spec_bytes(), i.home_dir@)
        },
{
    proof {
        lemma_written_keys_distinct();
    }
    let work_dir = match cwd {
        Some(c) => match capture_work_dir(env, interactive, c) {
            Ok(d) => Some(d),
            Err(e) => {
                return Err(e);
            },
        },
        None => None,
    };
    let tmp_dir = match get_tmp_dir(canonical) {
        Ok(t) => t,
        Err(e) => {
            return Err(e);
        },
    };
    env.set(TMPDIR.as_bytes(), tmp_dir.as_slice());
    let home_dir = resolve_home_dir(env, tmp_dir.as_slice());
    Ok(SandboxInfo { work_dir, tmp_dir, home_dir, sandbox_lib })
}

} // verus!
