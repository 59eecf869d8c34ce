use surface_plot::camera::World;
use surface_plot::error::PlotError;
use surface_plot::interaction::InteractionController;
use surface_plot::interaction::PointerEvent;

const W: u32 = 1000;
const H: u32 = 1000;

fn start_world() -> World {
    World::new(392_699, 0, 0, 800_000, 0, 0, -3_000_000)
}

#[test]
fn no_motion_leaves_orientation_unchanged() {
    let mut world = start_world();
    let mut controller = InteractionController::new();
    controller.handle_event(PointerEvent::Down { x: 5, y: 5 }, &mut world, W, H).unwrap();
    let before = world;
    controller.handle_event(PointerEvent::Move { x: 5, y: 5 }, &mut world, W, H).unwrap();
    assert_eq!(world.roll, before.roll);
    assert_eq!(world.pitch, before.pitch);
    assert_eq!(world, before);
}

#[test]
fn idle_move_tracks_position_only() {
    let mut world = start_world();
    let before = world;
    let mut controller = InteractionController::new();
    controller.handle_event(PointerEvent::Move { x: 40, y: 50 }, &mut world, W, H).unwrap();
    assert_eq!(world, before);
    assert!(!controller.pointer.down);
    assert_eq!((controller.pointer.x, controller.pointer.y), (40, 50));
}

#[test]
fn release_and_leave_end_drag_without_rotation() {
    for ending in [PointerEvent::Up, PointerEvent::Leave] {
        let mut world = start_world();
        let mut controller = InteractionController::new();
        controller.handle_event(PointerEvent::Down { x: 3, y: 4 }, &mut world, W, H).unwrap();
        let before = world;
        controller.handle_event(ending, &mut world, W, H).unwrap();
        assert_eq!(world, before);
        assert!(!controller.pointer.down);
    }
}

#[test]
fn drag_step_rotates_by_arctangent_of_delta() {
    let mut world = start_world();
    let mut controller = InteractionController::new();
    controller.handle_event(PointerEvent::Down { x: 0, y: 0 }, &mut world, W, H).unwrap();
    controller.handle_event(PointerEvent::Move { x: 100, y: 0 }, &mut world, W, H).unwrap();
    // dx = (0 - 100) / 1000 = -0.1; atan(-0.1) is -99720 micro-radians
    // under the library's rational fit; pitch -= atan(dx).
    assert_eq!(world.pitch, 99_720);
    assert_eq!(world.roll, 392_699);
    // The anchor is re-seeded to the processed sample.
    assert_eq!((controller.pointer.anchor_x, controller.pointer.anchor_y), (100, 0));
}

#[test]
fn drag_continuity_across_release_and_repress() {
    // One uninterrupted drag (0,0) -> (10,10) -> (20,20) ...
    let mut direct_world = start_world();
    let mut direct = InteractionController::new();
    direct.handle_event(PointerEvent::Down { x: 0, y: 0 }, &mut direct_world, W, H).unwrap();
    direct.handle_event(PointerEvent::Move { x: 10, y: 10 }, &mut direct_world, W, H).unwrap();
    direct.handle_event(PointerEvent::Move { x: 20, y: 20 }, &mut direct_world, W, H).unwrap();

    // ... equals the same drag interrupted by a release and a press
    // back at the intermediate point.
    let mut resumed_world = start_world();
    let mut resumed = InteractionController::new();
    resumed.handle_event(PointerEvent::Down { x: 0, y: 0 }, &mut resumed_world, W, H).unwrap();
    resumed.handle_event(PointerEvent::Move { x: 10, y: 10 }, &mut resumed_world, W, H).unwrap();
    resumed.handle_event(PointerEvent::Up, &mut resumed_world, W, H).unwrap();
    resumed.handle_event(PointerEvent::Down { x: 10, y: 10 }, &mut resumed_world, W, H).unwrap();
    resumed.handle_event(PointerEvent::Move { x: 20, y: 20 }, &mut resumed_world, W, H).unwrap();

    assert_eq!(direct_world, resumed_world);
    assert_eq!(direct.pointer, resumed.pointer);
}

#[test]
fn small_drags_add_within_tolerance() {
    // Two 10-pixel increments versus one 20-pixel step: the arctangent
    // mapping is additive for small angles up to a few micro-radians.
    let mut stepped_world = start_world();
    let mut stepped = InteractionController::new();
    stepped.handle_event(PointerEvent::Down { x: 0, y: 0 }, &mut stepped_world, W, H).unwrap();
    stepped.handle_event(PointerEvent::Move { x: 10, y: 10 }, &mut stepped_world, W, H).unwrap();
    stepped.handle_event(PointerEvent::Move { x: 20, y: 20 }, &mut stepped_world, W, H).unwrap();

    let mut single_world = start_world();
    let mut single = InteractionController::new();
    single.handle_event(PointerEvent::Down { x: 0, y: 0 }, &mut single_world, W, H).unwrap();
    single.handle_event(PointerEvent::Move { x: 20, y: 20 }, &mut single_world, W, H).unwrap();

    assert!((stepped_world.pitch - single_world.pitch).abs() <= 50);
    assert!((stepped_world.roll - single_world.roll).abs() <= 50);
}

#[test]
fn drag_with_zero_viewport_rejected_unchanged() {
    let mut world = start_world();
    let mut controller = InteractionController::new();
    controller.handle_event(PointerEvent::Down { x: 0, y: 0 }, &mut world, W, H).unwrap();
    let world_before = world;
    let pointer_before = controller.pointer;
    match controller.handle_event(PointerEvent::Move { x: 10, y: 10 }, &mut world, 0, H) {
        Err(e) => assert_eq!(e, PlotError::ZeroViewport),
        Ok(_) => panic!("a drag step over a zero viewport must be rejected"),
    }
    assert_eq!(world, world_before);
    assert_eq!(controller.pointer, pointer_before);
}

#[test]
fn huge_drag_stays_under_quarter_turn() {
    let mut world = World::new(0, 0, 0, 800_000, 0, 0, 0);
    let mut controller = InteractionController::new();
    controller.handle_event(PointerEvent::Down { x: 0, y: 0 }, &mut world, 10, 10).unwrap();
    controller
        .handle_event(PointerEvent::Move { x: 1_000_000, y: -1_000_000 }, &mut world, 10, 10)
        .unwrap();
    // The arctangent clamps even a six-orders-of-magnitude drag.
    assert!(world.pitch.abs() <= 1_570_796);
    assert!(world.roll.abs() <= 1_570_796);
    assert!(world.pitch != 0 && world.roll != 0);
}
