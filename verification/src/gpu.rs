use std::path::PathBuf;
use vstd::prelude::*;

verus! {

/// The path type of the standard library, carried through unchanged.
#[verifier::external_type_specification]
#[verifier::external_body]
pub struct ExPathBuf(PathBuf);

/// Clones a path: the standard library's `Clone` for `PathBuf` copies the
/// underlying bytes, so the clone is taken to be the same path value.
pub assume_specification[ <PathBuf as Clone>::clone ](p: &PathBuf) -> (r: PathBuf)
    ensures
        r == *p,
;

/// Which renderer the GPU backend drives.
#[derive(Clone, Copy, Debug, PartialEq, Eq, Structural)]
pub enum GpuMode {
    VirglRenderer,
    Gfxstream,
}

/// The configuration through which a program sets up the GPU backend.
#[derive(Debug, Clone)]
pub struct GpuConfig {
    /// vhost-user Unix domain socket
    socket_path: PathBuf,
    gpu_mode: GpuMode,
}

/// Copies a path: `Path::to_path_buf` (reached from a `PathBuf` by `Deref`)
/// allocates a new `PathBuf` holding the same bytes as the source path, so the
/// copy is taken to be the same path value.
#[verifier::external_body]
fn copy_path(p: &PathBuf) -> (r: PathBuf)
    ensures
        r == *p,
{
    p.to_path_buf()
}

impl GpuConfig {
    /// The spec-level socket path held by this configuration.
    pub closed spec fn spec_socket_path(&self) -> PathBuf {
        self.socket_path
    }

    /// The spec-level mode held by this configuration.
    pub closed spec fn spec_gpu_mode(&self) -> GpuMode {
        self.gpu_mode
    }

    /// Creates a configuration from a socket path and a GPU mode.
    pub fn new(socket_path: PathBuf, gpu_mode: GpuMode) -> (r: Self)
        ensures
            r.spec_socket_path() == socket_path,
            r.spec_gpu_mode() == gpu_mode,
    {
        Self { socket_path, gpu_mode }
    }

    /// The path of the Unix domain socket that listens to the guest.
    pub fn get_socket_path(&self) -> (r: PathBuf)
        ensures
            r == self.spec_socket_path(),
    {
        copy_path(&self.socket_path)
    }

    /// The GPU mode of this configuration.
    pub fn gpu_mode(&self) -> (r: GpuMode)
        ensures
            r == self.spec_gpu_mode(),
    {
        self.gpu_mode
    }
}

} // verus!
