use vstd::prelude::*;
use vstd::arithmetic::div_mod::lemma_mod_multiples_vanish;

verus! {

/// Mouse counts are turned into angles at 0.2 degrees per count, so angles
/// are stored in fifths of a degree.
pub const UNITS_PER_DEGREE: i64 = 5;

/// One full turn, in fifths of a degree.
pub const FULL_TURN: i64 = 1800;

/// Half a turn, in fifths of a degree.
pub const HALF_TURN: i64 = 900;

/// Pitch never leaves [-89, 89] degrees, here in fifths of a degree.
pub const PITCH_LIMIT: i64 = 445;

/// Yaw of a new camera: -90 degrees, which looks down the -Z axis.
pub const INITIAL_YAW: i64 = -450;

/// Field of view of a new camera, in degrees.
pub const INITIAL_FOV: u32 = 45;

/// Smallest field of view, in degrees.
pub const FOV_MIN: u32 = 1;

/// Largest field of view, in degrees.
pub const FOV_MAX: u32 = 65;

/// Movement speed of a new camera, in millionths of a world unit per step.
pub const INITIAL_SPEED: u128 = 50_000;

/// World units travelled per second of frame time.
pub const SPEED_PER_SECOND: u128 = 6;

/// Near clipping plane, in thousandths of a world unit.
pub const NEAR_MILLI: u32 = 100;

/// Far clipping plane, in thousandths of a world unit.
pub const FAR_MILLI: u32 = 100_000;

/// The abstract state of a camera.
///
/// `yaw` and `pitch` are in fifths of a degree, `fov` in degrees, `width`
/// and `height` in pixels, and `speed` in millionths of a world unit.
/// `init_mouse` is set until the first mouse sample has been seen.
pub struct CameraView {
    pub yaw: int,
    pub pitch: int,
    pub fov: int,
    pub width: nat,
    pub height: nat,
    pub speed: nat,
    pub init_mouse: bool,
}

impl CameraView {
    /// The camera's invariant: yaw within one turn around zero, pitch and
    /// field of view within their limits, and a speed that a step can carry.
    pub open spec fn wf(self) -> bool {
        &&& -HALF_TURN < self.yaw <= HALF_TURN
        &&& -PITCH_LIMIT <= self.pitch <= PITCH_LIMIT
        &&& FOV_MIN <= self.fov <= FOV_MAX
        &&& self.width <= u32::MAX
        &&& self.height <= u32::MAX
        &&& self.speed <= SPEED_PER_SECOND * u64::MAX
    }
}

/// The angle in (-180, 180] degrees that equals `a` modulo a full turn.
pub open spec fn wrap_yaw(a: int) -> int {
    (a + (HALF_TURN - 1)) % (FULL_TURN as int) - (HALF_TURN - 1)
}

/// `p` limited to [-89, 89] degrees.
pub open spec fn clamp_pitch(p: int) -> int {
    if p > PITCH_LIMIT {
        PITCH_LIMIT as int
    } else if p < -PITCH_LIMIT {
        -PITCH_LIMIT
    } else {
        p
    }
}

/// The state of a camera just built for a `width` by `height` viewport.
pub open spec fn initial(width: nat, height: nat) -> CameraView {
    CameraView {
        yaw: INITIAL_YAW as int,
        pitch: 0,
        fov: INITIAL_FOV as int,
        width,
        height,
        speed: INITIAL_SPEED as nat,
        init_mouse: true,
    }
}

/// The state after a mouse movement of `dx`, `dy` counts.
pub open spec fn rotated(c: CameraView, dx: int, dy: int) -> CameraView {
    CameraView { yaw: wrap_yaw(c.yaw + dx), pitch: clamp_pitch(c.pitch + dy), ..c }
}

/// The state after one zoom-in command: one degree wider, up to the limit.
pub open spec fn zoomed_in(c: CameraView) -> CameraView {
    if c.fov < FOV_MAX {
        CameraView { fov: c.fov + 1, ..c }
    } else {
        c
    }
}

/// The state after one zoom-out command: one degree narrower, down to the limit.
pub open spec fn zoomed_out(c: CameraView) -> CameraView {
    if c.fov > FOV_MIN {
        CameraView { fov: c.fov - 1, ..c }
    } else {
        c
    }
}

/// The state after the viewport was resized to `width` by `height`.
pub open spec fn resized(c: CameraView, width: nat, height: nat) -> CameraView {
    CameraView { width, height, ..c }
}

/// The state after a frame that took `delta` microseconds.
pub open spec fn sped(c: CameraView, delta: nat) -> CameraView {
    CameraView { speed: (SPEED_PER_SECOND * delta) as nat, ..c }
}

/// The perspective projection that a camera in state `c` uses.
pub open spec fn perspective_of(c: CameraView) -> Perspective {
    Perspective {
        width: c.width as u32,
        height: c.height as u32,
        fov_degrees: c.fov as u32,
        near_milli: NEAR_MILLI,
        far_milli: FAR_MILLI,
    }
}

/// The parameters of a perspective projection: aspect ratio `width / height`,
/// vertical field of view in degrees, and near and far planes in thousandths
/// of a world unit.
#[derive(PartialEq, Eq, Structural, Clone, Copy, Debug)]
pub struct Perspective {
    pub width: u32,
    pub height: u32,
    pub fov_degrees: u32,
    pub near_milli: u32,
    pub far_milli: u32,
}

/// The direction that a step moves along: `Front` is the viewing direction,
/// `Strafe` the normalised cross product of the viewing direction and the
/// world's up vector.
#[derive(PartialEq, Eq, Structural, Clone, Copy, Debug)]
pub enum Axis {
    Front,
    Strafe,
}

/// A translation of the camera's position by `distance` millionths of a world
/// unit along `axis` (a negative distance moves the other way).
#[derive(PartialEq, Eq, Structural, Clone, Copy, Debug)]
pub struct Step {
    pub axis: Axis,
    pub distance: i128,
}

/// The step of `dir` (+1 or -1) times the speed along `axis`.
pub open spec fn step_of(c: CameraView, axis: Axis, dir: int) -> Step {
    Step { axis, distance: (dir * c.speed) as i128 }
}

/// Orientation, zoom, viewport and speed of a free-flying camera.
pub struct Camera {
    yaw: i64,
    pitch: i64,
    fov: u32,
    width: u32,
    height: u32,
    speed: u128,
    init_mouse: bool,
}

impl View for Camera {
    type V = CameraView;

    closed spec fn view(&self) -> CameraView {
        CameraView {
            yaw: self.yaw as int,
            pitch: self.pitch as int,
            fov: self.fov as int,
            width: self.width as nat,
            height: self.height as nat,
            speed: self.speed as nat,
            init_mouse: self.init_mouse,
        }
    }
}

impl Camera {
    /// A camera for a `width` by `height` viewport, with yaw -90 degrees,
    /// pitch 0 and a 45 degree field of view.
    pub fn new(width: u32, height: u32) -> (r: Camera)
        ensures
            r@ == initial(width as nat, height as nat),
            r@.wf(),
    {
        Camera {
            yaw: INITIAL_YAW,
            pitch: 0,
            fov: INITIAL_FOV,
            width,
            height,
            speed: INITIAL_SPEED,
            init_mouse: true,
        }
    }

    /// Turns the camera by a mouse movement of `xoffset`, `yoffset` counts,
    /// 0.2 degrees each. Yaw wraps around a full turn; pitch stops at
    /// -89 and 89 degrees.
    pub fn euler_update(&mut self, xoffset: i64, yoffset: i64)
        requires
            old(self)@.wf(),
        ensures
            final(self)@ == rotated(old(self)@, xoffset as int, yoffset as int),
            final(self)@.wf(),
    {
        let sum: i128 = self.yaw as i128 + xoffset as i128;
        // A multiple of a full turn that makes the dividend non-negative.
        let lift: i128 = FULL_TURN as i128 * 0x20_0000_0000_0000;
        let shifted: i128 = sum + (HALF_TURN - 1) as i128 + lift;
        let rem: i128 = shifted % (FULL_TURN as i128);
        proof {
            lemma_mod_multiples_vanish(0x20_0000_0000_0000, sum + (HALF_TURN - 1), FULL_TURN as int);
        }
        self.yaw = (rem - (HALF_TURN - 1) as i128) as i64;

        let p: i128 = self.pitch as i128 + yoffset as i128;
        if p > PITCH_LIMIT as i128 {
            self.pitch = PITCH_LIMIT;
        } else if p < -PITCH_LIMIT as i128 {
            self.pitch = -PITCH_LIMIT;
        } else {
            self.pitch = p as i64;
        }
    }

    /// The step that moves the camera forward along its viewing direction
    /// by its speed.
    pub fn forward(&self) -> (r: Step)
        requires
            self@.wf(),
        ensures
            r == step_of(self@, Axis::Front, 1),
    {
        Step { axis: Axis::Front, distance: self.speed as i128 }
    }

    /// The step that moves the camera backward along its viewing direction
    /// by its speed.
    pub fn backward(&self) -> (r: Step)
        requires
            self@.wf(),
        ensures
            r == step_of(self@, Axis::Front, -1),
    {
        Step { axis: Axis::Front, distance: -(self.speed as i128) }
    }

    /// The step that moves the camera to its left by its speed.
    pub fn left(&self) -> (r: Step)
        requires
            self@.wf(),
        ensures
            r == step_of(self@, Axis::Strafe, -1),
    {
        Step { axis: Axis::Strafe, distance: -(self.speed as i128) }
    }

    /// The step that moves the camera to its right by its speed.
    pub fn right(&self) -> (r: Step)
        requires
            self@.wf(),
        ensures
            r == step_of(self@, Axis::Strafe, 1),
    {
        Step { axis: Axis::Strafe, distance: self.speed as i128 }
    }

    /// Records a new viewport size; the projection follows it.
    pub fn update_viewport(&mut self, width: u32, height: u32)
        requires
            old(self)@.wf(),
        ensures
            final(self)@ == resized(old(self)@, width as nat, height as nat),
            final(self)@.wf(),
    {
        self.width = width;
        self.height = height;
    }

    /// Widens the field of view by one degree, unless it is at 65 degrees.
    pub fn zoom_in(&mut self)
        requires
            old(self)@.wf(),
        ensures
            final(self)@ == zoomed_in(old(self)@),
            final(self)@.wf(),
    {
        if self.fov < FOV_MAX {
            self.fov = self.fov + 1;
        }
    }

    /// Narrows the field of view by one degree, unless it is at 1 degree.
    pub fn zoom_out(&mut self)
        requires
            old(self)@.wf(),
        ensures
            final(self)@ == zoomed_out(old(self)@),
            final(self)@.wf(),
    {
        if self.fov > FOV_MIN {
            self.fov = self.fov - 1;
        }
    }

    /// Sets the speed for a frame that took `delta_time` microseconds:
    /// six world units per second.
    pub fn update_speed(&mut self, delta_time: u64)
        requires
            old(self)@.wf(),
        ensures
            final(self)@ == sped(old(self)@, delta_time as nat),
            final(self)@.wf(),
    {
        self.speed = SPEED_PER_SECOND * delta_time as u128;
    }

    /// The projection for the current viewport and field of view.
    pub fn projection(&self) -> (r: Perspective)
        requires
            self@.wf(),
        ensures
            r == perspective_of(self@),
    {
        Perspective {
            width: self.width,
            height: self.height,
            fov_degrees: self.fov,
            near_milli: NEAR_MILLI,
            far_milli: FAR_MILLI,
        }
    }

    /// Yaw, in fifths of a degree.
    pub fn yaw(&self) -> (r: i64)
        ensures
            r as int == self@.yaw,
    {
        self.yaw
    }

    /// Pitch, in fifths of a degree.
    pub fn pitch(&self) -> (r: i64)
        ensures
            r as int == self@.pitch,
    {
        self.pitch
    }

    /// Field of view, in degrees.
    pub fn fov(&self) -> (r: u32)
        ensures
            r as int == self@.fov,
    {
        self.fov
    }

    /// Speed, in millionths of a world unit per step.
    pub fn speed(&self) -> (r: u128)
        ensures
            r as int == self@.speed,
    {
        self.speed
    }
}

/// The field of view after a sequence of zoom commands, `true` for zoom-in
/// and `false` for zoom-out, applied in order.
pub open spec fn zoomed_by(c: CameraView, cmds: Seq<bool>) -> CameraView
    decreases cmds.len(),
{
    if cmds.len() == 0 {
        c
    } else {
        let next = if cmds[0] { zoomed_in(c) } else { zoomed_out(c) };
        zoomed_by(next, cmds.drop_first())
    }
}

/// Whatever the mouse movement, pitch ends within [-89, 89] degrees, and a
/// movement that would carry it past a limit leaves it exactly at that limit,
/// however often it is repeated.
pub proof fn lemma_pitch_saturates(c: CameraView, dx: int, dy: int)
    requires
        c.wf(),
    ensures
        rotated(c, dx, dy).wf(),
        -PITCH_LIMIT <= rotated(c, dx, dy).pitch <= PITCH_LIMIT,
        c.pitch + dy >= PITCH_LIMIT ==> rotated(c, dx, dy).pitch == PITCH_LIMIT,
        c.pitch + dy <= -PITCH_LIMIT ==> rotated(c, dx, dy).pitch == -PITCH_LIMIT,
        dy >= 0 && c.pitch + dy >= PITCH_LIMIT ==> rotated(rotated(c, dx, dy), dx, dy).pitch
            == PITCH_LIMIT,
        dy <= 0 && c.pitch + dy <= -PITCH_LIMIT ==> rotated(rotated(c, dx, dy), dx, dy).pitch
            == -PITCH_LIMIT,
{
}

/// Every sequence of zoom commands keeps the field of view within
/// [1, 65] degrees; zooming in at 65 and zooming out at 1 change nothing.
pub proof fn lemma_fov_bounded(c: CameraView, cmds: Seq<bool>)
    requires
        c.wf(),
    ensures
        zoomed_by(c, cmds).wf(),
        FOV_MIN <= zoomed_by(c, cmds).fov <= FOV_MAX,
        c.fov == FOV_MAX ==> zoomed_in(c) == c,
        c.fov == FOV_MIN ==> zoomed_out(c) == c,
    decreases cmds.len(),
{
    if cmds.len() > 0 {
        let next = if cmds[0] { zoomed_in(c) } else { zoomed_out(c) };
        lemma_fov_bounded(next, cmds.drop_first());
    }
}

/// Moving forward and then backward at the same speed translates the camera
/// along the same axis by opposite distances, so its position comes back.
pub proof fn lemma_forward_backward_cancel(c: CameraView)
    requires
        c.wf(),
    ensures
        step_of(c, Axis::Front, 1).axis == step_of(c, Axis::Front, -1).axis,
        step_of(c, Axis::Front, 1).distance + step_of(c, Axis::Front, -1).distance == 0,
        step_of(c, Axis::Front, 1).distance == c.speed,
{
}

/// The projection depends on the latest viewport and the field of view alone:
/// after any earlier resize, resizing to `width` by `height` gives the
/// projection of a camera built for `width` by `height` with the same field
/// of view.
pub proof fn lemma_viewport_no_hidden_state(
    c: CameraView,
    w1: u32,
    h1: u32,
    width: u32,
    height: u32,
)
    requires
        c.wf(),
    ensures
        perspective_of(resized(resized(c, w1 as nat, h1 as nat), width as nat, height as nat))
            == perspective_of(
            CameraView { fov: c.fov, ..initial(width as nat, height as nat) },
        ),
{
}

} // verus!
