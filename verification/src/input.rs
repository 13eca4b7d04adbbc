//! What the keys held down in a frame ask of the camera.
//!
//! The library decides which actions follow from the keys and in what
//! order; whoever owns the camera carries them out.

use crate::color::UNIT;
use vstd::prelude::*;

verus! {

/// The angle of one orbit step: a fiftieth of a half turn, in millionths
/// of a radian.
pub const ROTATION_STEP: i32 = 62_832;

/// The length of one pan step, in millionths of a world unit.
pub const MOVE_STEP: i32 = UNIT;

/// The length of one zoom step, in millionths of a world unit.
pub const ZOOM_STEP: i32 = 100_000;

/// The keys of one frame, by what they mean.
#[derive(Clone, Copy, Debug, PartialEq, Eq, Structural)]
pub struct KeyState {
    pub orbit_left: bool,
    pub orbit_right: bool,
    pub orbit_up: bool,
    pub orbit_down: bool,
    pub pan_left: bool,
    pub pan_right: bool,
    pub pan_up: bool,
    pub pan_down: bool,
    pub zoom_in: bool,
    pub zoom_out: bool,
    /// Keep the present view and look at the scene from above.
    pub save_view: bool,
    /// Go back to the view that was kept.
    pub restore_view: bool,
    /// End the frame loop.
    pub quit: bool,
}

/// One thing to do to the camera. Angles are in millionths of a radian,
/// lengths in millionths of a world unit.
#[derive(Clone, Copy, Debug, PartialEq, Eq, Structural)]
pub enum CameraAction {
    /// Turn the eye about the centre by these angles.
    Orbit { yaw: i32, pitch: i32 },
    /// Shift the centre, and the eye with it, by this offset.
    MoveCenter { x: i32, y: i32 },
    /// Move the eye towards the centre by this length, away from it if
    /// negative.
    Zoom { delta: i32 },
    /// Put the present view into the snapshot slot.
    SaveView,
    /// Look at the scene from straight above.
    BirdEye,
    /// Take the view out of the snapshot slot and make it the present one.
    RestoreView,
}

/// The sideways pan that the keys ask for, in steps.
pub open spec fn pan_x(keys: KeyState) -> int {
    (if keys.pan_right { 1int } else { 0 }) - (if keys.pan_left { 1int } else { 0 })
}

/// The upward pan that the keys ask for, in steps.
pub open spec fn pan_y(keys: KeyState) -> int {
    (if keys.pan_up { 1int } else { 0 }) - (if keys.pan_down { 1int } else { 0 })
}

/// `action` if `wanted`, nothing otherwise.
pub open spec fn action_if(wanted: bool, action: CameraAction) -> Seq<CameraAction> {
    if wanted {
        seq![action]
    } else {
        Seq::empty()
    }
}

/// The orbit steps of a frame, one for each orbit key held down.
pub open spec fn orbit_actions(keys: KeyState) -> Seq<CameraAction> {
    action_if(keys.orbit_left, CameraAction::Orbit { yaw: ROTATION_STEP, pitch: 0 })
        + action_if(keys.orbit_right, CameraAction::Orbit { yaw: (-ROTATION_STEP) as i32, pitch: 0 })
        + action_if(keys.orbit_up, CameraAction::Orbit { yaw: 0, pitch: (-ROTATION_STEP) as i32 })
        + action_if(keys.orbit_down, CameraAction::Orbit { yaw: 0, pitch: ROTATION_STEP })
}

/// The pan of a frame: a single move by the sum of the pan keys held
/// down, and none if they cancel.
pub open spec fn pan_actions(keys: KeyState) -> Seq<CameraAction> {
    action_if(
        pan_x(keys) != 0 || pan_y(keys) != 0,
        CameraAction::MoveCenter {
            x: (pan_x(keys) * MOVE_STEP) as i32,
            y: (pan_y(keys) * MOVE_STEP) as i32,
        },
    )
}

/// The zoom steps of a frame, one for each zoom key held down.
pub open spec fn zoom_actions(keys: KeyState) -> Seq<CameraAction> {
    action_if(keys.zoom_in, CameraAction::Zoom { delta: ZOOM_STEP })
        + action_if(keys.zoom_out, CameraAction::Zoom { delta: (-ZOOM_STEP) as i32 })
}

/// What the two view keys ask for when the snapshot slot is filled or not:
/// the present view is kept only while the slot is empty, and a view is
/// restored only if the slot holds one by then.
pub open spec fn view_actions(keys: KeyState, saved: bool) -> Seq<CameraAction> {
    action_if(keys.save_view && !saved, CameraAction::SaveView)
        + action_if(keys.save_view, CameraAction::BirdEye)
        + action_if(keys.restore_view && (saved || keys.save_view), CameraAction::RestoreView)
}

/// All actions of a frame in the order in which they are carried out:
/// orbit, pan, zoom, then the view keys.
pub open spec fn planned_actions(keys: KeyState, saved: bool) -> Seq<CameraAction> {
    orbit_actions(keys) + pan_actions(keys) + zoom_actions(keys) + view_actions(keys, saved)
}

/// Whether the snapshot slot holds a view once the actions of the frame
/// have been carried out.
pub open spec fn saved_after(keys: KeyState, saved: bool) -> bool {
    if keys.restore_view {
        false
    } else {
        saved || keys.save_view
    }
}

/// What a frame's keys come to.
pub struct InputPlan {
    /// What to do to the camera, in this order.
    pub actions: Vec<CameraAction>,
    /// Whether the snapshot slot holds a view afterwards.
    pub saved: bool,
}

fn push_orbit(actions: &mut Vec<CameraAction>, keys: &KeyState)
    ensures
        final(actions)@ == old(actions)@ + orbit_actions(*keys),
{
    if keys.orbit_left {
        actions.push(CameraAction::Orbit { yaw: ROTATION_STEP, pitch: 0 });
    }
    if keys.orbit_right {
        actions.push(CameraAction::Orbit { yaw: -ROTATION_STEP, pitch: 0 });
    }
    if keys.orbit_up {
        actions.push(CameraAction::Orbit { yaw: 0, pitch: -ROTATION_STEP });
    }
    if keys.orbit_down {
        actions.push(CameraAction::Orbit { yaw: 0, pitch: ROTATION_STEP });
    }
    assert(actions@ =~= old(actions)@ + orbit_actions(*keys));
}

fn push_pan(actions: &mut Vec<CameraAction>, keys: &KeyState)
    ensures
        final(actions)@ == old(actions)@ + pan_actions(*keys),
{
    let mut x: i32 = 0;
    let mut y: i32 = 0;
    if keys.pan_left {
        x -= MOVE_STEP;
    }
    if keys.pan_right {
        x += MOVE_STEP;
    }
    if keys.pan_up {
        y += MOVE_STEP;
    }
    if keys.pan_down {
        y -= MOVE_STEP;
    }
    assert(x == pan_x(*keys) * MOVE_STEP && y == pan_y(*keys) * MOVE_STEP);
    if x != 0 || y != 0 {
        actions.push(CameraAction::MoveCenter { x, y });
    }
    assert(actions@ =~= old(actions)@ + pan_actions(*keys));
}

fn push_zoom(actions: &mut Vec<CameraAction>, keys: &KeyState)
    ensures
        final(actions)@ == old(actions)@ + zoom_actions(*keys),
{
    if keys.zoom_in {
        actions.push(CameraAction::Zoom { delta: ZOOM_STEP });
    }
    if keys.zoom_out {
        actions.push(CameraAction::Zoom { delta: -ZOOM_STEP });
    }
    assert(actions@ =~= old(actions)@ + zoom_actions(*keys));
}

fn push_view(actions: &mut Vec<CameraAction>, keys: &KeyState, saved: bool) -> (slot: bool)
    ensures
        final(actions)@ == old(actions)@ + view_actions(*keys, saved),
        slot == saved_after(*keys, saved),
{
    let mut slot: bool = saved;
    if keys.save_view {
        if !slot {
            actions.push(CameraAction::SaveView);
            slot = true;
        }
        actions.push(CameraAction::BirdEye);
    }
    if keys.restore_view {
        if slot {
            actions.push(CameraAction::RestoreView);
            slot = false;
        }
    }
    assert(actions@ =~= old(actions)@ + view_actions(*keys, saved));
    slot
}

/// Decides what the keys of a frame do to the camera. `saved` says whether
/// the snapshot slot holds a view when the frame begins.
pub fn handle_input(keys: &KeyState, saved: bool) -> (plan: InputPlan)
    ensures
        plan.actions@ == planned_actions(*keys, saved),
        plan.saved == saved_after(*keys, saved),
{
    let mut actions: Vec<CameraAction> = Vec::new();
    push_orbit(&mut actions, keys);
    push_pan(&mut actions, keys);
    push_zoom(&mut actions, keys);
    let slot = push_view(&mut actions, keys, saved);
    assert(actions@ =~= planned_actions(*keys, saved));
    InputPlan { actions, saved: slot }
}

/// What the frame loop does next.
pub enum FrameStep {
    /// Leave the loop.
    Stop,
    /// Draw the frame with this tick after these actions on the camera.
    Draw { tick: u32, plan: InputPlan },
}

/// One turn of the frame loop: the quit key ends it before anything else
/// happens; otherwise the tick counter goes up by one and the keys are
/// turned into camera actions. The counter must have room to count on.
pub fn frame_step(tick: u32, keys: &KeyState, saved: bool) -> (step: FrameStep)
    requires
        tick < u32::MAX,
    ensures
        keys.quit ==> step is Stop,
        !keys.quit ==> ({
            &&& step matches FrameStep::Draw { tick: next, plan }
            &&& next == tick + 1
            &&& plan.actions@ == planned_actions(*keys, saved)
            &&& plan.saved == saved_after(*keys, saved)
        }),
{
    if keys.quit {
        FrameStep::Stop
    } else {
        FrameStep::Draw { tick: tick + 1, plan: handle_input(keys, saved) }
    }
}

/// The place where one view of the camera can be kept for later.
pub struct ViewSlot<T> {
    view: Option<T>,
}

impl<T> ViewSlot<T> {
    /// The view that is kept, if any.
    pub closed spec fn content(&self) -> Option<T> {
        self.view
    }

    /// An empty slot.
    pub fn new() -> (slot: Self)
        ensures
            slot.content() is None,
    {
        ViewSlot { view: None }
    }

    /// Whether a view is kept.
    pub fn is_saved(&self) -> (saved: bool)
        ensures
            saved == self.content() is Some,
    {
        self.view.is_some()
    }

    /// Keeps `view` if the slot is empty; a view that is already kept stays.
    pub fn save(&mut self, view: T)
        ensures
            old(self).content() is None ==> final(self).content() == Some(view),
            old(self).content() is Some ==> final(self).content() == old(self).content(),
    {
        if self.view.is_none() {
            self.view = Some(view);
        }
    }

    /// Empties the slot.
    pub fn clear(&mut self)
        ensures
            final(self).content() is None,
    {
        self.view = None;
    }

    /// Takes the kept view out of the slot, which is empty afterwards.
    pub fn restore(&mut self) -> (view: Option<T>)
        ensures
            view == old(self).content(),
            final(self).content() is None,
    {
        self.view.take()
    }
}

/// `action_if` holds its action if it was wanted, and nothing else.
pub proof fn lemma_action_if_contains(wanted: bool, action: CameraAction, x: CameraAction)
    ensures
        action_if(wanted, action).contains(x) <==> wanted && x == action,
        action_if(wanted, action).len() <= 1,
{
    if wanted {
        assert(action_if(wanted, action)[0] == action);
    }
}

/// What a concatenation holds is what its two parts hold.
pub proof fn lemma_concat_contains(s: Seq<CameraAction>, t: Seq<CameraAction>, x: CameraAction)
    ensures
        (s + t).contains(x) <==> s.contains(x) || t.contains(x),
{
    if s.contains(x) {
        let i = choose|i: int| 0 <= i < s.len() && s[i] == x;
        assert((s + t)[i] == x);
    }
    if t.contains(x) {
        let j = choose|j: int| 0 <= j < t.len() && t[j] == x;
        assert((s + t)[s.len() + j] == x);
    }
    if (s + t).contains(x) {
        let k = choose|k: int| 0 <= k < (s + t).len() && (s + t)[k] == x;
        if k < s.len() {
            assert(s[k] == x);
        } else {
            assert(t[k - s.len()] == x);
        }
    }
}

/// Orbit, pan and zoom never touch the snapshot slot.
pub proof fn lemma_moves_leave_slot(keys: KeyState, x: CameraAction)
    requires
        x is SaveView || x is BirdEye || x is RestoreView,
    ensures
        !orbit_actions(keys).contains(x),
        !pan_actions(keys).contains(x),
        !zoom_actions(keys).contains(x),
        orbit_actions(keys).len() <= 4,
        pan_actions(keys).len() <= 1,
        zoom_actions(keys).len() <= 2,
{
    let left = action_if(keys.orbit_left, CameraAction::Orbit { yaw: ROTATION_STEP, pitch: 0 });
    let right = action_if(
        keys.orbit_right,
        CameraAction::Orbit { yaw: (-ROTATION_STEP) as i32, pitch: 0 },
    );
    let up = action_if(keys.orbit_up, CameraAction::Orbit { yaw: 0, pitch: (-ROTATION_STEP) as i32 });
    let down = action_if(keys.orbit_down, CameraAction::Orbit { yaw: 0, pitch: ROTATION_STEP });
    lemma_action_if_contains(keys.orbit_left, CameraAction::Orbit { yaw: ROTATION_STEP, pitch: 0 }, x);
    lemma_action_if_contains(
        keys.orbit_right,
        CameraAction::Orbit { yaw: (-ROTATION_STEP) as i32, pitch: 0 },
        x,
    );
    lemma_action_if_contains(
        keys.orbit_up,
        CameraAction::Orbit { yaw: 0, pitch: (-ROTATION_STEP) as i32 },
        x,
    );
    lemma_action_if_contains(keys.orbit_down, CameraAction::Orbit { yaw: 0, pitch: ROTATION_STEP }, x);
    lemma_concat_contains(left, right, x);
    lemma_concat_contains(left + right, up, x);
    lemma_concat_contains(left + right + up, down, x);

    lemma_action_if_contains(
        pan_x(keys) != 0 || pan_y(keys) != 0,
        CameraAction::MoveCenter {
            x: (pan_x(keys) * MOVE_STEP) as i32,
            y: (pan_y(keys) * MOVE_STEP) as i32,
        },
        x,
    );

    let zin = action_if(keys.zoom_in, CameraAction::Zoom { delta: ZOOM_STEP });
    let zout = action_if(keys.zoom_out, CameraAction::Zoom { delta: (-ZOOM_STEP) as i32 });
    lemma_action_if_contains(keys.zoom_in, CameraAction::Zoom { delta: ZOOM_STEP }, x);
    lemma_action_if_contains(keys.zoom_out, CameraAction::Zoom { delta: (-ZOOM_STEP) as i32 }, x);
    lemma_concat_contains(zin, zout, x);
}

/// Which of the three actions on the view a plan holds.
pub proof fn lemma_view_actions(keys: KeyState, saved: bool, x: CameraAction)
    requires
        x is SaveView || x is BirdEye || x is RestoreView,
    ensures
        planned_actions(keys, saved).contains(x) <==> {
            ||| x is SaveView && keys.save_view && !saved
            ||| x is BirdEye && keys.save_view
            ||| x is RestoreView && keys.restore_view && (saved || keys.save_view)
        },
        planned_actions(keys, saved).len() <= 10,
{
    lemma_moves_leave_slot(keys, x);
    let s = action_if(keys.save_view && !saved, CameraAction::SaveView);
    let b = action_if(keys.save_view, CameraAction::BirdEye);
    let r = action_if(keys.restore_view && (saved || keys.save_view), CameraAction::RestoreView);
    lemma_action_if_contains(keys.save_view && !saved, CameraAction::SaveView, x);
    lemma_action_if_contains(keys.save_view, CameraAction::BirdEye, x);
    lemma_action_if_contains(
        keys.restore_view && (saved || keys.save_view),
        CameraAction::RestoreView,
        x,
    );
    lemma_concat_contains(s, b, x);
    lemma_concat_contains(s + b, r, x);
    let o = orbit_actions(keys);
    let p = pan_actions(keys);
    let z = zoom_actions(keys);
    lemma_concat_contains(o, p, x);
    lemma_concat_contains(o + p, z, x);
    lemma_concat_contains(o + p + z, view_actions(keys, saved), x);
}

/// The plan keeps the snapshot slot in step with the actions it lists: the
/// present view is kept only while the slot is empty, a view is restored
/// only if the slot holds one by then, and the slot ends filled exactly if
/// it was filled or has been filled, and has not been emptied.
pub proof fn lemma_plan_tracks_slot(keys: KeyState, saved: bool)
    ensures
        planned_actions(keys, saved).contains(CameraAction::SaveView) <==> keys.save_view && !saved,
        planned_actions(keys, saved).contains(CameraAction::RestoreView) <==> keys.restore_view
            && (saved || keys.save_view),
        planned_actions(keys, saved).contains(CameraAction::BirdEye) <==> keys.save_view,
        saved_after(keys, saved) <==> (saved || planned_actions(keys, saved).contains(
            CameraAction::SaveView,
        )) && !planned_actions(keys, saved).contains(CameraAction::RestoreView),
{
    lemma_view_actions(keys, saved, CameraAction::SaveView);
    lemma_view_actions(keys, saved, CameraAction::BirdEye);
    lemma_view_actions(keys, saved, CameraAction::RestoreView);
}

} // verus!
