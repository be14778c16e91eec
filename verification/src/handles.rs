use vstd::prelude::*;

verus! {

/// Relies on tokio::process::Child being the owning handle to a spawned OS
/// process. The value is opaque here: the registry stores it and hands it
/// back; polling, waiting and killing happen outside the library.
#[verifier::external_type_specification]
#[verifier::external_body]
pub struct ExChild(tokio::process::Child);

/// Relies on tokio::process::ChildStdin being the host-side write end of the
/// pipe to a child's standard input. Opaque: carried through the registry.
#[verifier::external_type_specification]
#[verifier::external_body]
pub struct ExChildStdin(tokio::process::ChildStdin);

/// Relies on tokio::process::ChildStdout being the host-side read end of the
/// pipe from a child's standard output. Opaque: carried through the registry.
#[verifier::external_type_specification]
#[verifier::external_body]
pub struct ExChildStdout(tokio::process::ChildStdout);

/// Relies on tokio::process::ChildStderr being the host-side read end of the
/// pipe from a child's standard error. Opaque: carried through the registry.
#[verifier::external_type_specification]
#[verifier::external_body]
pub struct ExChildStderr(tokio::process::ChildStderr);

/// Relies on tokio::fs::File being an owned handle to an open file, the one
/// kind of registered resource whose OS stream can be duplicated into a
/// child. Opaque: carried through the registry; duplication happens outside.
#[verifier::external_type_specification]
#[verifier::external_body]
pub struct ExFile(tokio::fs::File);

} // verus!
