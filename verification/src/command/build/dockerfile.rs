//! Where a build workspace keeps its manifest, and what its context is.

use vstd::prelude::*;
use crate::strutil::path_join;
use crate::strutil::spec_path_join;

verus! {

/// The manifest path and build context of one workspace.
pub struct DockerfileParameter {
    /// Path of the manifest file inside the workspace.
    pub docker_filename: String,
    /// The build context: the workspace root itself.
    pub docker_context_path: String,
}

impl DockerfileParameter {
    /// The manifest always carries the same name inside the workspace, and
    /// the context is the workspace root.
    pub fn new(tmp_dir: &str) -> (r: DockerfileParameter)
        ensures
            r.docker_filename@ == spec_path_join(tmp_dir@, "Dockerfile"@),
            r.docker_context_path@ == tmp_dir@,
    {
        let docker_filename = path_join(tmp_dir, "Dockerfile");
        let mut docker_context_path = String::new();
        docker_context_path.append(tmp_dir);
        proof {
            assert(docker_context_path@ =~= tmp_dir@);
        }
        DockerfileParameter { docker_filename, docker_context_path }
    }
}

} // verus!
