//! What the user can set on a baker.

use vstd::prelude::*;
use crate::grid::SIZE_UNIT;

verus! {

/// The settings of a baker, as far as they are whole numbers and switches.
/// Lengths are counted in [`SIZE_UNIT`]s of one world unit.
#[derive(Clone, Copy, Debug, PartialEq, Eq)]
pub struct SDFBakerSettings {
    /// Bake a signed field (`true`) or an unsigned one.
    pub is_sdf: bool,
    pub show_desired_box: bool,
    pub show_actual_box: bool,
    pub show_wireframe: bool,
    pub show_sdf: bool,
    pub show_render_targets: bool,
    pub show_ray_map: bool,
    /// Which mesh of the scene is baked, counting the primitives of all
    /// meshes in scene order.
    pub selected_mesh_index: i32,
    /// Voxel count along the longest axis of the grid.
    pub max_resolution: i32,
    /// Extents of the padded box around the mesh.
    pub desired_size: [u64; 3],
    /// How many smoothing passes follow the first sign vote.
    pub sign_passes_count: i32,
}

impl SDFBakerSettings {
    /// Whether a bake can be planned from the settings: the resolution is at
    /// least one voxel and the pass count is not negative.
    pub open spec fn valid(self) -> bool {
        self.max_resolution >= 1 && self.sign_passes_count >= 0
    }

    /// Whether a bake can be planned from the settings.
    pub fn is_valid(&self) -> (ok: bool)
        ensures
            ok == self.valid(),
    {
        self.max_resolution >= 1 && self.sign_passes_count >= 0
    }
}

/// The settings a baker starts with: a signed field at resolution 64 for
/// the first mesh, in a box of one world unit, with one smoothing pass.
pub open spec fn spec_default_settings() -> SDFBakerSettings {
    SDFBakerSettings {
        is_sdf: true,
        show_desired_box: true,
        show_actual_box: true,
        show_wireframe: true,
        show_sdf: true,
        show_render_targets: false,
        show_ray_map: false,
        selected_mesh_index: 0,
        max_resolution: 64,
        desired_size: [SIZE_UNIT, SIZE_UNIT, SIZE_UNIT],
        sign_passes_count: 1,
    }
}

impl Default for SDFBakerSettings {
    fn default() -> (settings: SDFBakerSettings)
        ensures
            settings == spec_default_settings(),
            settings.valid(),
    {
        SDFBakerSettings {
            is_sdf: true,
            show_desired_box: true,
            show_actual_box: true,
            show_wireframe: true,
            show_sdf: true,
            show_render_targets: false,
            show_ray_map: false,
            selected_mesh_index: 0,
            max_resolution: 64,
            desired_size: [SIZE_UNIT, SIZE_UNIT, SIZE_UNIT],
            sign_passes_count: 1,
        }
    }
}

} // verus!
