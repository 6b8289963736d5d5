use vstd::prelude::*;
use vstd::string::StringSliceAdditionalSpecFns;
use vstd::slice::slice_to_vec;

use crate::consts::{LIB_NAME, SYSTEM_LIB_DIR};

verus! {

/// `p` is a prefix of `s`.
pub open spec fn has_prefix(s: Seq<u8>, p: Seq<u8>) -> bool {
    p.len() <= s.len() && s.take(p.len() as int) == p
}

/// `name` appended to `dir` as a path, with one `/` between them; an
/// absolute `name` stands alone.
pub open spec fn join_path(dir: Seq<u8>, name: Seq<u8>) -> Seq<u8> {
    if name.len() > 0 && name[0] == 47u8 {
        name
    } else if dir.len() == 0 || dir.last() == 47u8 {
        dir + name
    } else {
        dir + seq![47u8] + name
    }
}

/// A file name that the platform gives the library `name`: its prefix,
/// the name, its suffix.
pub open spec fn is_library_file_of(f: Seq<u8>, name: Seq<u8>) -> bool {
    exists|pre: Seq<u8>, suf: Seq<u8>| #[trigger] (pre + name + suf) == f
}

/// The override directory is used only when one is configured outside the
/// system library directory and the bare file name did not load.
pub open spec fn override_applies(lib_override: Option<&str>, bare_name_loads: bool) -> bool {
    lib_override matches Some(d) && !has_prefix(d.spec_bytes(), SYSTEM_LIB_DIR.spec_bytes()) && !bare_name_loads
}

/// The platform's file name for the library `name`.
pub uninterp spec fn library_file_of(name: Seq<u8>) -> Seq<u8>;

/// Relies on libloading::library_filename, which joins the platform's
/// library prefix, `name` and the platform's library suffix; the result
/// depends on `name` and the build target alone.
#[verifier::external_body]
fn library_filename(name: &str) -> (r: Vec<u8>)
    ensures
        r@ == library_file_of(name.spec_bytes()),
        is_library_file_of(r@, name.spec_bytes()),
{
    libloading::library_filename(name).to_string_lossy().into_owned().into_bytes()
}

/// The platform's file name of the enforcement library.
pub fn sandbox_lib_filename() -> (r: Vec<u8>)
    ensures
        r@ == library_file_of(LIB_NAME.spec_bytes()),
        is_library_file_of(r@, LIB_NAME.spec_bytes()),
{
    library_filename(LIB_NAME)
}

/// Whether the bare file name must be tried with the dynamic loader before
/// `get_sandbox_lib` can decide: only with an override directory outside
/// the system library directory.
pub fn sandbox_lib_needs_probe(lib_override: Option<&str>) -> (r: bool)
    ensures
        r == (lib_override matches Some(d) && !has_prefix(d.spec_bytes(), SYSTEM_LIB_DIR.spec_bytes())),
{
    match lib_override {
        Some(d) => !starts_with(d.as_bytes(), SYSTEM_LIB_DIR.as_bytes()),
        None => false,
    }
}

/// The path of the enforcement library: its bare file name, so that the
/// dynamic loader searches for it, unless an override directory applies.
///
/// `bare_name_loads` is the outcome of loading `file_name` by the loader's
/// search; it is read only where `sandbox_lib_needs_probe` holds.
pub fn get_sandbox_lib(lib_override: Option<&str>, bare_name_loads: bool, file_name: &[u8]) -> (r: Vec<u8>)
    ensures
        r@ == (if override_applies(lib_override, bare_name_loads) {
            join_path(lib_override->Some_0.spec_bytes(), file_name@)
        } else {
            file_name@
        }),
{
    match lib_override {
        Some(d) => {
            if !starts_with(d.as_bytes(), SYSTEM_LIB_DIR.as_bytes()) && !bare_name_loads {
                join(d.as_bytes(), file_name)
            } else {
                slice_to_vec(file_name)
            }
        },
        None => slice_to_vec(file_name),
    }
}

/// Whether `s` begins with `p`.
fn starts_with(s: &[u8], p: &[u8]) -> (r: bool)
    ensures
        r == has_prefix(s@, p@),
{
    if p.len() > s.len() {
        return false;
    }
    let mut i: usize = 0;
    while i < p.len()
        invariant
            p@.len() <= s@.len(),
            i <= p@.len(),
            forall|j: int| 0 <= j < i ==> s@[j] == p@[j],
        decreases p@.len() - i,
    {
        if s[i] != p[i] {
            return false;
        }
        i = i + 1;
    }
    assert(s@.take(p@.len() as int) =~= p@);
    true
}

/// `name` appended to `dir` as a path.
fn join(dir: &[u8], name: &[u8]) -> (r: Vec<u8>)
    ensures
        r@ == join_path(dir@, name@),
{
    if name.len() > 0 && name[0] == 47u8 {
        return slice_to_vec(name);
    }
    let mut r = slice_to_vec(dir);
    if dir.len() > 0 && dir[dir.len() - 1] != 47u8 {
        r.push(47u8);
    }
    let mut i: usize = 0;
    let ghost base = r@;
    while i < name.len()
        invariant
            i <= name@.len(),
            r@ == base + name@.take(i as int),
        decreases name@.len() - i,
    {
        r.push(name[i]);
        i = i + 1;
        assert(r@ =~= base + name@.take(i as int));
    }
    assert(name@.take(name@.len() as int) =~= name@);
    assert(r@ =~= join_path(dir@, name@));
    r
}

} // verus!
