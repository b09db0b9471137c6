//! Types of other crates that this crate carries without looking inside.

use vstd::prelude::*;

verus! {

/// `egui::TextureHandle`: a counted reference to a texture on the GPU. Nothing
/// is claimed of it; panes and frames hold one and drop it.
#[verifier::external_type_specification]
#[verifier::external_body]
pub struct ExTextureHandle(egui::TextureHandle);

/// `egui::TextureHandle::clone` hands out another counted reference to the same
/// texture: the same id under the same texture manager.
pub assume_specification[ <egui::TextureHandle as Clone>::clone ](
    handle: &egui::TextureHandle,
) -> (r: egui::TextureHandle)
    ensures
        r == *handle,
;

} // verus!
