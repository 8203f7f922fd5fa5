use vstd::prelude::*;

verus! {

/// Names a mesh of the loaded asset set. The renderer holds the meshes in
/// the order the asset files are loaded; an entity only carries this handle.
#[derive(Clone, Copy, Debug, PartialEq, Eq, Structural)]
pub enum MeshId {
    CubeGltf,
    Cube,
    Ground,
}

/// Position of each mesh in load order: the textured cube file comes first,
/// then the plain cube, then the ground plane.
pub open spec fn slot_of(id: MeshId) -> nat {
    match id {
        MeshId::CubeGltf => 0,
        MeshId::Cube => 1,
        MeshId::Ground => 2,
    }
}

impl MeshId {
    /// Where this mesh stands in the renderer's list of loaded meshes.
    pub fn slot(self) -> (r: usize)
        ensures
            r == slot_of(self),
    {
        match self {
            MeshId::CubeGltf => 0,
            MeshId::Cube => 1,
            MeshId::Ground => 2,
        }
    }

    /// The slot of this mesh in a list of `loaded` meshes, or `None` when the
    /// list is too short to hold it.
    pub fn lookup(self, loaded: usize) -> (r: Option<usize>)
        ensures
            r == (if slot_of(self) < loaded {
                Some(slot_of(self) as usize)
            } else {
                None
            }),
    {
        let s = self.slot();
        if s < loaded {
            Some(s)
        } else {
            None
        }
    }
}

/// Whether a window surface of this size can be drawn to. A surface with no
/// area (a minimised window) is skipped rather than reconfigured, and keeps
/// the camera's aspect ratio from dividing by a zero height.
pub fn is_drawable(width: u32, height: u32) -> (r: bool)
    ensures
        r == (width > 0 && height > 0),
{
    width != 0 && height != 0
}

} // verus!
