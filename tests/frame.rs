use cube_camera::camera::Perspective;
use cube_camera::clock::{frame_due, get_time, micros_since, saturate_micros};
use cube_camera::dispatch::{handle_cursor, handle_keycodes, Key, Response};
use cube_camera::camera::{Axis, Camera, Step};
use cube_camera::renderer::{Command, Renderer};

fn scene() -> Renderer<[f32; 3]> {
    Renderer::new(7, vec![11, 12], 3, vec![[0.0, 0.0, 0.0]], 1024, 768)
}

#[test]
fn new_renderer_keeps_its_handles() {
    let r = scene();
    assert_eq!(r.program, 7);
    assert_eq!(r.vao, 3);
    assert_eq!(r.textures, vec![11, 12]);
    assert_eq!(r.elements.len(), 1);
    assert_eq!(r.last_frame, 0);
    assert_eq!(r.delta_time, 0);
    assert_eq!(r.camera.fov(), 45);
}

#[test]
fn frame_commands_in_order() {
    let mut r = scene();
    let cmds = r.draw_at(20_000);
    let p = Perspective { width: 1024, height: 768, fov_degrees: 45, near_milli: 100, far_milli: 100_000 };
    assert_eq!(
        cmds,
        vec![
            Command::UseProgram(7),
            Command::FillPolygons,
            Command::ClearColor { red: 27, green: 30, blue: 43 },
            Command::ClearBuffers,
            Command::SetSampler { sampler: 1, slot: 0 },
            Command::SetSampler { sampler: 2, slot: 1 },
            Command::SetProjection(p),
            Command::SetView,
            Command::BindTexture { unit: 0, texture: 11 },
            Command::BindTexture { unit: 1, texture: 12 },
            Command::BindVertexArray(3),
            Command::DrawInstance { index: 0, time_micros: 20_000 },
            Command::BindVertexArray(0),
            Command::Present,
        ]
    );
    assert_eq!(r.last_frame, 20_000);
    assert_eq!(r.delta_time, 20_000);
    assert_eq!(r.camera.speed(), 120_000);
}

#[test]
fn every_instance_is_drawn_in_order() {
    let mut r: Renderer<u8> = Renderer::new(1, vec![], 2, vec![10, 20, 30], 800, 600);
    let cmds = r.draw_at(5);
    let draws: Vec<Command> = cmds
        .iter()
        .copied()
        .filter(|c| matches!(c, Command::DrawInstance { .. }))
        .collect();
    assert_eq!(
        draws,
        vec![
            Command::DrawInstance { index: 0, time_micros: 5 },
            Command::DrawInstance { index: 1, time_micros: 5 },
            Command::DrawInstance { index: 2, time_micros: 5 },
        ]
    );
    assert_eq!(cmds.len(), 8 + 1 + 3 + 2);
}

#[test]
fn delta_time_never_negative() {
    let mut r = scene();
    r.draw_at(50_000);
    r.draw_at(66_000);
    assert_eq!(r.delta_time, 16_000);
    r.draw_at(60_000);
    assert_eq!(r.delta_time, 0);
    assert_eq!(r.last_frame, 60_000);
}

#[test]
fn two_frames_in_immediate_succession() {
    let mut r = scene();
    r.draw();
    let first = r.last_frame;
    r.draw();
    assert!(r.last_frame >= first);
    assert_eq!(r.delta_time, r.last_frame - first);
    assert_eq!(r.camera.speed(), 6 * r.delta_time as u128);
}

#[test]
fn clock_reads_forward() {
    let start = get_time();
    let a = micros_since(&start);
    let b = micros_since(&start);
    assert!(b >= a);
    assert_eq!(saturate_micros(12), 12);
    assert_eq!(saturate_micros(u128::MAX), u64::MAX);
}

#[test]
fn frame_budget() {
    assert!(!frame_due(0));
    assert!(!frame_due(16));
    assert!(frame_due(17));
}

#[test]
fn key_table() {
    let mut c = Camera::new(800, 600);
    assert_eq!(handle_keycodes(&mut c, Some(Key::Escape), false), Response::Poll);
    assert_eq!(handle_keycodes(&mut c, Some(Key::Escape), true), Response::Exit);
    assert_eq!(handle_keycodes(&mut c, Some(Key::Q), true), Response::Exit);
    assert_eq!(handle_keycodes(&mut c, None, true), Response::Poll);
    assert_eq!(handle_keycodes(&mut c, Some(Key::J), true), Response::Poll);
    assert_eq!(c.fov(), 44);
    assert_eq!(handle_keycodes(&mut c, Some(Key::K), true), Response::Poll);
    assert_eq!(handle_keycodes(&mut c, Some(Key::K), false), Response::Poll);
    assert_eq!(c.fov(), 45);
    assert_eq!(
        handle_keycodes(&mut c, Some(Key::W), true),
        Response::Move(Step { axis: Axis::Front, distance: 50_000 })
    );
    assert_eq!(
        handle_keycodes(&mut c, Some(Key::S), true),
        Response::Move(Step { axis: Axis::Front, distance: -50_000 })
    );
    assert_eq!(
        handle_keycodes(&mut c, Some(Key::A), true),
        Response::Move(Step { axis: Axis::Strafe, distance: -50_000 })
    );
    assert_eq!(
        handle_keycodes(&mut c, Some(Key::D), true),
        Response::Move(Step { axis: Axis::Strafe, distance: 50_000 })
    );
    assert_eq!(handle_keycodes(&mut c, Some(Key::W), false), Response::Poll);
}

#[test]
fn mouse_up_looks_up() {
    let mut c = Camera::new(800, 600);
    handle_cursor(&mut c, 5, -10);
    assert_eq!(c.pitch(), 10);
    assert_eq!(c.yaw(), -445);
    handle_cursor(&mut c, 0, i32::MIN);
    assert_eq!(c.pitch(), 445);
}
