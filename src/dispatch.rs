use vstd::prelude::*;
use crate::camera::{Axis, Camera, rotated, step_of, zoomed_in, zoomed_out};

verus! {

/// The keys that control the scene.
#[derive(PartialEq, Eq, Structural, Clone, Copy, Debug)]
pub enum Key {
    Escape,
    Q,
    J,
    K,
    W,
    A,
    S,
    D,
}

/// What the event loop does after a key event.
#[derive(PartialEq, Eq, Structural, Clone, Copy, Debug)]
pub enum Response {
    /// Keep polling for events.
    Poll,
    /// Stop the event loop.
    Exit,
    /// Translate the camera's position by this step, then keep polling.
    Move(crate::camera::Step),
}

/// Handles a key event: `key` is `None` for a key without a binding, and
/// `pressed` is false for a release. Releases and unbound keys do nothing;
/// Escape and Q exit; J zooms out and K zooms in; W, S, A and D move the
/// camera forward, backward, left and right by one step.
pub fn handle_keycodes(camera: &mut Camera, key: Option<Key>, pressed: bool) -> (r: Response)
    requires
        old(camera)@.wf(),
    ensures
        final(camera)@.wf(),
        !pressed ==> r == Response::Poll && final(camera)@ == old(camera)@,
        pressed ==> match key {
            None => r == Response::Poll && final(camera)@ == old(camera)@,
            Some(Key::Escape) | Some(Key::Q) => r == Response::Exit && final(camera)@ == old(camera)@,
            Some(Key::J) => r == Response::Poll && final(camera)@ == zoomed_out(old(camera)@),
            Some(Key::K) => r == Response::Poll && final(camera)@ == zoomed_in(old(camera)@),
            Some(Key::W) => r == Response::Move(step_of(old(camera)@, Axis::Front, 1))
                && final(camera)@ == old(camera)@,
            Some(Key::S) => r == Response::Move(step_of(old(camera)@, Axis::Front, -1))
                && final(camera)@ == old(camera)@,
            Some(Key::A) => r == Response::Move(step_of(old(camera)@, Axis::Strafe, -1))
                && final(camera)@ == old(camera)@,
            Some(Key::D) => r == Response::Move(step_of(old(camera)@, Axis::Strafe, 1))
                && final(camera)@ == old(camera)@,
        },
{
    if !pressed {
        return Response::Poll;
    }
    match key {
        None => Response::Poll,
        Some(Key::Escape) | Some(Key::Q) => Response::Exit,
        Some(Key::J) => {
            camera.zoom_out();
            Response::Poll
        },
        Some(Key::K) => {
            camera.zoom_in();
            Response::Poll
        },
        Some(Key::W) => Response::Move(camera.forward()),
        Some(Key::S) => Response::Move(camera.backward()),
        Some(Key::A) => Response::Move(camera.left()),
        Some(Key::D) => Response::Move(camera.right()),
    }
}

/// Handles a raw mouse movement of `dx`, `dy` counts. Screen coordinates grow
/// downward, so the vertical count is negated: moving the mouse up looks up.
pub fn handle_cursor(camera: &mut Camera, dx: i32, dy: i32)
    requires
        old(camera)@.wf(),
    ensures
        final(camera)@ == rotated(old(camera)@, dx as int, -(dy as int)),
        final(camera)@.wf(),
{
    camera.euler_update(dx as i64, -(dy as i64));
}

} // verus!
