use vstd::prelude::*;

verus! {

/// The directory under which the `resources` directory is looked for.
#[derive(Clone, Copy, Debug, PartialEq, Eq, Structural)]
pub enum ResourceRoot {
    /// The directory of the package's manifest, when the program was started
    /// by cargo.
    ManifestDir,
    /// The directory the program was started in.
    WorkingDir,
}

/// Chooses where resources are searched: beside the manifest when cargo
/// started the program, and in the working directory otherwise.
pub fn resource_root(launched_by_cargo: bool) -> (r: ResourceRoot)
    ensures
        launched_by_cargo <==> r == ResourceRoot::ManifestDir,
        !launched_by_cargo <==> r == ResourceRoot::WorkingDir,
{
    if launched_by_cargo {
        ResourceRoot::ManifestDir
    } else {
        ResourceRoot::WorkingDir
    }
}

} // verus!
