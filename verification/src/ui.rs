use vstd::prelude::*;

verus! {

/// The root node of the user interface and the 2D camera that draws it while no 3D camera is
/// active. Entities are identified by their bits.
#[derive(Clone, Copy, Debug, PartialEq, Eq, Structural)]
pub struct UI {
    pub root: u64,
    pub camera: Option<u64>,
}

/// Turns the interface camera off; returns the camera entity to despawn, if there was one.
pub fn camera_off(ui: &mut UI) -> (despawn: Option<u64>)
    ensures
        despawn == old(ui).camera,
        *final(ui) == spec_camera_off(*old(ui)),
{
    let despawn = ui.camera;
    ui.camera = None;
    despawn
}

/// Whether turning the interface camera on has to spawn a camera.
pub fn camera_needed(ui: &UI) -> (needed: bool)
    ensures
        needed == (ui.camera is None),
{
    ui.camera.is_none()
}

/// Turns the interface camera on with the freshly spawned `camera`, unless one is already on;
/// returns whether `camera` was taken.
pub fn camera_on(ui: &mut UI, camera: u64) -> (taken: bool)
    ensures
        taken == (old(ui).camera is None),
        *final(ui) == spec_camera_on(*old(ui), camera),
{
    if ui.camera.is_none() {
        ui.camera = Some(camera);
        true
    } else {
        false
    }
}

/// The overlay currently shown over the interface, if any.
#[derive(Clone, Copy, Debug, PartialEq, Eq, Structural)]
pub struct Overlay {
    pub entity: Option<u64>,
}

impl Default for Overlay {
    fn default() -> (overlay: Overlay)
        ensures
            overlay.entity is None,
    {
        Overlay { entity: None }
    }
}

/// Records `entity` as the overlay on display.
pub fn display_overlay(overlay: &mut Overlay, entity: u64)
    ensures
        final(overlay).entity == Some(entity),
{
    overlay.entity = Some(entity);
}

/// Takes the overlay down; returns the overlay entity to detach and despawn, if there was one.
pub fn remove_overlay(overlay: &mut Overlay) -> (despawn: Option<u64>)
    ensures
        despawn == old(overlay).entity,
        final(overlay).entity is None,
{
    let despawn = overlay.entity;
    overlay.entity = None;
    despawn
}

/// The interface after its camera was turned off.
pub open spec fn spec_camera_off(ui: UI) -> UI {
    UI { root: ui.root, camera: None }
}

/// The interface after turning its camera on with a freshly spawned `camera`.
pub open spec fn spec_camera_on(ui: UI, camera: u64) -> UI {
    if ui.camera is None {
        UI { root: ui.root, camera: Some(camera) }
    } else {
        ui
    }
}

/// Turning the camera off and then on again leaves the interface with the new camera, and
/// turning it off a second time finds no camera to despawn.
pub proof fn lemma_camera_off_then_on(ui: UI, camera: u64)
    ensures
        spec_camera_on(spec_camera_off(ui), camera) == (UI { root: ui.root, camera: Some(camera) }),
        spec_camera_off(spec_camera_off(ui)).camera is None,
        spec_camera_off(spec_camera_off(ui)) == spec_camera_off(ui),
{
}

} // verus!
