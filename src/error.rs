use vstd::prelude::*;

verus! {

#[verifier::external_type_specification]
#[verifier::external_body]
pub struct ExIoError(std::io::Error);

/// Why the bootstrap could not complete, with the operating system's error.
#[derive(Debug)]
pub enum SetupSandboxError {
    /// The current directory could not be read.
    GetCurrentDir(std::io::Error),
    /// The temporary directory could not be canonicalized.
    GetTmpDir(std::io::Error),
}

} // verus!
