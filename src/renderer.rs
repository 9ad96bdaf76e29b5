use vstd::prelude::*;
use crate::camera::{Camera, Perspective, initial, perspective_of, sped};
use crate::clock::{get_time, micros_since};

verus! {

/// One operation on the graphics device, in the order a frame issues them.
#[derive(PartialEq, Eq, Structural, Clone, Copy, Debug)]
pub enum Command {
    /// Make the given shader program current.
    UseProgram(u32),
    /// Rasterise both faces of every polygon filled.
    FillPolygons,
    /// Set the clear colour, each channel in 255ths, alpha fully opaque.
    ClearColor { red: u8, green: u8, blue: u8 },
    /// Clear the colour and depth buffers.
    ClearBuffers,
    /// Point the sampler uniform `texture<sampler>` at texture unit `slot`.
    SetSampler { sampler: u32, slot: i32 },
    /// Load the `projection` uniform with this perspective.
    SetProjection(Perspective),
    /// Load the `view` uniform with the camera's look-at transform.
    SetView,
    /// Bind texture `texture` to texture unit `unit`.
    BindTexture { unit: usize, texture: u32 },
    /// Bind the given vertex array; 0 unbinds.
    BindVertexArray(u32),
    /// Load the `model` uniform for instance `index` (translated to its
    /// placement, then turned by `time_micros` millionths of a radian about
    /// the axis (1, 1, 0)) and draw the 36 vertices of the cube.
    DrawInstance { index: usize, time_micros: u64 },
    /// Show the finished frame.
    Present,
}

/// Red, green and blue of the background, in 255ths.
pub const BACKGROUND_RED: u8 = 27;
pub const BACKGROUND_GREEN: u8 = 30;
pub const BACKGROUND_BLUE: u8 = 43;

/// What a frame does before it binds textures: program, fill mode, clear,
/// and the uniforms that do not depend on the instance.
pub open spec fn frame_prologue(program: u32, projection: Perspective) -> Seq<Command> {
    seq![
        Command::UseProgram(program),
        Command::FillPolygons,
        Command::ClearColor { red: BACKGROUND_RED, green: BACKGROUND_GREEN, blue: BACKGROUND_BLUE },
        Command::ClearBuffers,
        Command::SetSampler { sampler: 1, slot: 0 },
        Command::SetSampler { sampler: 2, slot: 1 },
        Command::SetProjection(projection),
        Command::SetView,
    ]
}

/// Each texture bound to the unit given by its position in the list.
pub open spec fn texture_bindings(textures: Seq<u32>) -> Seq<Command> {
    Seq::new(textures.len(), |i: int| Command::BindTexture { unit: i as usize, texture: textures[i] })
}

/// One draw of each of `count` instances, in list order, at time `now`.
pub open spec fn instance_draws(count: nat, now: u64) -> Seq<Command> {
    Seq::new(count, |i: int| Command::DrawInstance { index: i as usize, time_micros: now })
}

/// The whole command list of one frame.
pub open spec fn frame_commands(
    program: u32,
    projection: Perspective,
    textures: Seq<u32>,
    vao: u32,
    count: nat,
    now: u64,
) -> Seq<Command> {
    frame_prologue(program, projection) + texture_bindings(textures) + seq![
        Command::BindVertexArray(vao),
    ] + instance_draws(count, now) + seq![Command::BindVertexArray(0), Command::Present]
}

/// Time since the previous frame: never negative, even if the clock reading
/// went backwards.
pub open spec fn frame_delta(last: u64, now: u64) -> u64 {
    if now >= last {
        (now - last) as u64
    } else {
        0
    }
}

/// Two frames planned in turn never see a negative time between them, and
/// when the clock has not gone backwards that time is exactly the clock's
/// advance.
pub proof fn lemma_frame_delta_exact(last: u64, now: u64)
    ensures
        frame_delta(last, now) >= 0,
        now >= last ==> last + frame_delta(last, now) == now,
        now < last ==> frame_delta(last, now) == 0,
{
}

/// Owns the camera and the handles of a static scene of cube instances, and
/// plans each frame's device commands.
pub struct Renderer<E> {
    /// Handle of the linked shader program.
    pub program: u32,
    pub camera: Camera,
    /// When the renderer was built; frame times count from here.
    pub start_time: std::time::Instant,
    /// Time of the last frame, in microseconds since `start_time`.
    pub last_frame: u64,
    /// Time between the last two frames, in microseconds.
    pub delta_time: u64,
    /// Texture handles, bound in this order to units 0, 1, ...
    pub textures: Vec<u32>,
    /// Handle of the cube's vertex array.
    pub vao: u32,
    /// Instance placements, drawn in this order.
    pub elements: Vec<E>,
}

impl<E> Renderer<E> {
    /// The renderer's invariant: a well-formed camera.
    pub open spec fn wf(&self) -> bool {
        self.camera@.wf()
    }

    /// A renderer for the given program, textures, vertex array and instance
    /// placements, with a fresh camera for a `width` by `height` viewport;
    /// its clock starts now.
    pub fn new(
        program: u32,
        textures: Vec<u32>,
        vao: u32,
        elements: Vec<E>,
        width: u32,
        height: u32,
    ) -> (r: Renderer<E>)
        ensures
            r.wf(),
            r.program == program,
            r.vao == vao,
            r.camera@ == initial(width as nat, height as nat),
            r.textures@ == textures@,
            r.elements@ == elements@,
            r.last_frame == 0,
            r.delta_time == 0,
    {
        Renderer {
            program,
            camera: Camera::new(width, height),
            start_time: get_time(),
            last_frame: 0,
            delta_time: 0,
            textures,
            vao,
            elements,
        }
    }

    /// Plans one frame at the clock's current reading; see `draw_at`.
    pub fn draw(&mut self) -> (r: Vec<Command>)
        requires
            old(self).wf(),
        ensures
            final(self).wf(),
            final(self).delta_time == frame_delta(
                old(self).last_frame,
                final(self).last_frame,
            ),
            final(self).camera@ == sped(old(self).camera@, final(self).delta_time as nat),
            r@ == frame_commands(
                old(self).program,
                perspective_of(old(self).camera@),
                old(self).textures@,
                old(self).vao,
                old(self).elements@.len(),
                final(self).last_frame,
            ),
            final(self).program == old(self).program,
            final(self).vao == old(self).vao,
            final(self).textures@ == old(self).textures@,
            final(self).elements@ == old(self).elements@,
            final(self).start_time == old(self).start_time,
    {
        let now = micros_since(&self.start_time);
        self.draw_at(now)
    }

    /// Plans one frame at time `now`, in microseconds since the renderer was
    /// built: records the frame time and its distance from the previous one,
    /// sets the camera's speed from it, and returns the frame's commands:
    /// program, fill mode, clear, sampler, projection and view uniforms,
    /// each texture on its unit, the vertex array, one draw per instance in
    /// order, unbinding, and presentation.
    pub fn draw_at(&mut self, now: u64) -> (r: Vec<Command>)
        requires
            old(self).wf(),
        ensures
            final(self).wf(),
            final(self).last_frame == now,
            final(self).delta_time == frame_delta(old(self).last_frame, now),
            final(self).camera@ == sped(old(self).camera@, final(self).delta_time as nat),
            r@ == frame_commands(
                old(self).program,
                perspective_of(old(self).camera@),
                old(self).textures@,
                old(self).vao,
                old(self).elements@.len(),
                now,
            ),
            final(self).program == old(self).program,
            final(self).vao == old(self).vao,
            final(self).textures@ == old(self).textures@,
            final(self).elements@ == old(self).elements@,
            final(self).start_time == old(self).start_time,
    {
        self.delta_time = if now >= self.last_frame {
            now - self.last_frame
        } else {
            0
        };
        self.last_frame = now;
        self.camera.update_speed(self.delta_time);

        let mut cmds: Vec<Command> = Vec::new();
        cmds.push(Command::UseProgram(self.program));
        cmds.push(Command::FillPolygons);
        cmds.push(
            Command::ClearColor {
                red: BACKGROUND_RED,
                green: BACKGROUND_GREEN,
                blue: BACKGROUND_BLUE,
            },
        );
        cmds.push(Command::ClearBuffers);
        cmds.push(Command::SetSampler { sampler: 1, slot: 0 });
        cmds.push(Command::SetSampler { sampler: 2, slot: 1 });
        cmds.push(Command::SetProjection(self.camera.projection()));
        cmds.push(Command::SetView);
        let ghost prologue = cmds@;
        assert(prologue =~= frame_prologue(self.program, perspective_of(old(self).camera@)));

        let mut i: usize = 0;
        while i < self.textures.len()
            invariant
                i <= self.textures@.len(),
                cmds@ =~= prologue + texture_bindings(self.textures@.take(i as int)),
            decreases self.textures@.len() - i,
        {
            cmds.push(Command::BindTexture { unit: i, texture: self.textures[i] });
            i = i + 1;
        }
        assert(self.textures@.take(i as int) =~= self.textures@);
        cmds.push(Command::BindVertexArray(self.vao));
        let ghost before_draws = cmds@;

        let mut k: usize = 0;
        while k < self.elements.len()
            invariant
                k <= self.elements@.len(),
                cmds@ =~= before_draws + instance_draws(k as nat, now),
            decreases self.elements@.len() - k,
        {
            cmds.push(Command::DrawInstance { index: k, time_micros: now });
            k = k + 1;
        }
        cmds.push(Command::BindVertexArray(0));
        cmds.push(Command::Present);
        cmds
    }
}

} // verus!
