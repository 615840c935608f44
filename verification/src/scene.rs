//! Room scene defaults and start-up choices of the runtime.
use vstd::prelude::*;

use crate::governance::GatewayRuntime;

verus! {

/// The picture layer of a room scene.
#[derive(Debug, PartialEq, Eq)]
pub struct SceneImageLayer {
    pub layer_id: String,
    pub preset: String,
    pub asset_hint: String,
    /// Height over width, in ten-thousandths.
    pub aspect_ratio_permyriad: u32,
    pub owner_editable: bool,
    pub day_image_url: Option<String>,
    pub night_image_url: Option<String>,
}

/// The canonical 16:9 picture: height is 5625 ten-thousandths of the width.
pub const CANONICAL_ASPECT_RATIO_PERMYRIAD: u32 = 5625;

impl GatewayRuntime {
    /// The default picture layer for a preset: canonical 16:9, the preset as
    /// its asset hint, no custom pictures.
    pub fn scene_image_layer(preset: &str, owner_editable: bool) -> (r: SceneImageLayer)
        ensures
            r.layer_id@ == "image-layer"@,
            r.preset@ == preset@,
            r.asset_hint@ == preset@,
            r.aspect_ratio_permyriad == 5625,
            r.owner_editable == owner_editable,
            r.day_image_url is None,
            r.night_image_url is None,
    {
        SceneImageLayer {
            layer_id: "image-layer".to_owned(),
            preset: preset.to_owned(),
            asset_hint: preset.to_owned(),
            aspect_ratio_permyriad: CANONICAL_ASPECT_RATIO_PERMYRIAD,
            owner_editable,
            day_image_url: None,
            night_image_url: None,
        }
    }

    /// Demo messages are seeded only for tests or when the developer bypass
    /// is switched on explicitly.
    pub fn should_seed_demo_messages(for_tests: bool, dev_bypass: bool) -> (r: bool)
        ensures
            r == (for_tests || dev_bypass),
    {
        for_tests || dev_bypass
    }
}

} // verus!
