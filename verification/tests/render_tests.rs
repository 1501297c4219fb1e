use gpu_raymarcher::cmd;
use gpu_raymarcher::context::Context;
use gpu_raymarcher::render::count_records;
use gpu_raymarcher::render::shapes_to_gpu;
use gpu_raymarcher::render::Globals;
use gpu_raymarcher::render::Mat3Bits;
use gpu_raymarcher::render::RenderContext;
use gpu_raymarcher::render::Shape;
use gpu_raymarcher::render::ShapesGPU;
use gpu_raymarcher::render::Size2;
use gpu_raymarcher::render::SubmitError;
use gpu_raymarcher::render::Vec3Bits;
use gpu_raymarcher::render::HEIGHT;
use gpu_raymarcher::render::MAX_RECORDS;
use gpu_raymarcher::render::OP_BOX_EXACT;
use gpu_raymarcher::render::OP_INTERSECTION;
use gpu_raymarcher::render::OP_PLANE;
use gpu_raymarcher::render::OP_SPHERE;
use gpu_raymarcher::render::OP_SUBTRACTION;
use gpu_raymarcher::render::OP_UNION;
use gpu_raymarcher::render::WIDTH;
use gpu_raymarcher::time::TimeContext;
use gpu_raymarcher::window::handle_window_event;
use gpu_raymarcher::window::surface_error_action;
use gpu_raymarcher::window::SurfaceErrorAction;
use gpu_raymarcher::window::SurfaceErrorKind;
use gpu_raymarcher::window::WindowEvent;
use gpu_raymarcher::input::ModifierState;

fn vec3(x: f32, y: f32, z: f32) -> Vec3Bits {
    Vec3Bits::new(x.to_bits(), y.to_bits(), z.to_bits())
}

fn sphere(x: f32, y: f32, z: f32, radius: f32) -> Shape {
    Shape::Sphere { pos: vec3(x, y, z), radius: radius.to_bits() }
}

/// A left-leaning chain of unions over `leaves` spheres; its node count is
/// `2 * leaves - 1`.
fn union_chain(leaves: u32) -> Shape {
    let mut t = sphere(0.0, 0.0, 0.0, 1.0);
    for _ in 1..leaves {
        t = Shape::Union {
            shape1: Box::new(t),
            shape2: Box::new(sphere(0.0, 0.0, 0.0, 1.0)),
        };
    }
    t
}

#[test]
fn single_sphere_encodes_one_record() {
    let shapes = vec![sphere(0.0, 0.0, 0.0, 1.0)];
    let gpu = shapes_to_gpu(&shapes);
    assert_eq!(gpu.0.len(), 1);
    let r = gpu.0[0];
    assert_eq!(r.id, OP_SPHERE);
    assert_eq!(r.pos, vec3(0.0, 0.0, 0.0));
    assert_eq!(r.v1, vec3(0.0, 0.0, 0.0));
    assert_eq!(f32::from_bits(r.f1), 1.0);
}

#[test]
fn union_encodes_three_records_in_preorder() {
    let a = sphere(1.0, 2.0, 3.0, 0.5);
    let b = sphere(-1.0, 0.0, 4.0, 2.0);
    let shapes = vec![Shape::Union { shape1: Box::new(a), shape2: Box::new(b) }];
    let gpu = shapes_to_gpu(&shapes);
    assert_eq!(gpu.0.len(), 3);

    assert_eq!(gpu.0[0].id, OP_UNION);
    assert_eq!(gpu.0[0].pos, vec3(0.0, 0.0, 0.0));
    assert_eq!(gpu.0[0].v1, vec3(0.0, 0.0, 0.0));
    assert_eq!(gpu.0[0].f1, 0);

    assert_eq!(gpu.0[1].id, OP_SPHERE);
    assert_eq!(gpu.0[1].pos, vec3(1.0, 2.0, 3.0));
    assert_eq!(f32::from_bits(gpu.0[1].f1), 0.5);

    assert_eq!(gpu.0[2].id, OP_SPHERE);
    assert_eq!(gpu.0[2].pos, vec3(-1.0, 0.0, 4.0));
    assert_eq!(f32::from_bits(gpu.0[2].f1), 2.0);
}

#[test]
fn primitive_payloads_land_in_their_fields() {
    let shapes = vec![
        Shape::BoxExact { pos: vec3(1.0, 1.0, 1.0), b: vec3(0.5, 0.25, 2.0) },
        Shape::Plane { pos: vec3(0.0, -1.0, 0.0), normal: vec3(0.0, 1.0, 0.0) },
    ];
    let gpu = shapes_to_gpu(&shapes);
    assert_eq!(gpu.0.len(), 2);

    assert_eq!(gpu.0[0].id, OP_BOX_EXACT);
    assert_eq!(gpu.0[0].pos, vec3(1.0, 1.0, 1.0));
    assert_eq!(gpu.0[0].v1, vec3(0.5, 0.25, 2.0));
    assert_eq!(gpu.0[0].f1, 0);

    assert_eq!(gpu.0[1].id, OP_PLANE);
    assert_eq!(gpu.0[1].pos, vec3(0.0, -1.0, 0.0));
    assert_eq!(gpu.0[1].v1, vec3(0.0, 1.0, 0.0));
    assert_eq!(gpu.0[1].f1, 0);
}

#[test]
fn nested_composites_flatten_in_preorder() {
    let t = Shape::Subtraction {
        shape1: Box::new(Shape::Intersection {
            shape1: Box::new(sphere(0.0, 0.0, 0.0, 1.0)),
            shape2: Box::new(Shape::BoxExact {
                pos: vec3(0.0, 0.0, 0.0),
                b: vec3(1.0, 1.0, 1.0),
            }),
        }),
        shape2: Box::new(Shape::Plane {
            pos: vec3(0.0, 0.0, 0.0),
            normal: vec3(0.0, 1.0, 0.0),
        }),
    };
    assert_eq!(count_records(&t), 5);
    let gpu = shapes_to_gpu(&vec![t]);
    assert_eq!(gpu.0.len(), 5);
    assert_eq!(gpu.0[0].id, OP_SUBTRACTION);
    assert_eq!(gpu.0[1].id, OP_INTERSECTION);
    assert_eq!(gpu.0[2].id, OP_SPHERE);
    assert_eq!(gpu.0[3].id, OP_BOX_EXACT);
    assert_eq!(gpu.0[4].id, OP_PLANE);
}

#[test]
fn independent_roots_concatenate_one_record_each() {
    let shapes = vec![
        sphere(1.0, 0.0, 0.0, 1.0),
        sphere(2.0, 0.0, 0.0, 1.0),
        sphere(3.0, 0.0, 0.0, 1.0),
    ];
    let gpu = shapes_to_gpu(&shapes);
    assert_eq!(gpu.0.len(), 3);
    assert_eq!(f32::from_bits(gpu.0[0].pos.x), 1.0);
    assert_eq!(f32::from_bits(gpu.0[1].pos.x), 2.0);
    assert_eq!(f32::from_bits(gpu.0[2].pos.x), 3.0);
}

#[test]
fn add_appends_to_an_existing_stream() {
    let mut gpu = ShapesGPU::new();
    gpu.add(&sphere(1.0, 0.0, 0.0, 1.0));
    gpu.add(&union_chain(2));
    assert_eq!(gpu.0.len(), 4);
    assert_eq!(gpu.0[0].id, OP_SPHERE);
    assert_eq!(gpu.0[1].id, OP_UNION);
}

#[test]
fn count_records_counts_nodes() {
    assert_eq!(count_records(&sphere(0.0, 0.0, 0.0, 1.0)), 1);
    assert_eq!(count_records(&union_chain(2)), 3);
    assert_eq!(count_records(&union_chain(100)), 199);
}

#[test]
fn submit_up_to_capacity_succeeds() {
    let mut ctx = Context::new(0);
    for _ in 0..MAX_RECORDS {
        assert!(cmd::render::render_shape(&mut ctx, sphere(0.0, 0.0, 0.0, 1.0)).is_ok());
    }
    assert_eq!(ctx.render.shapes.len(), MAX_RECORDS as usize);
}

#[test]
fn submit_past_capacity_fails_and_changes_nothing() {
    let mut ctx = Context::new(0);
    for _ in 0..MAX_RECORDS {
        assert!(cmd::render::render_shape(&mut ctx, sphere(0.0, 0.0, 0.0, 1.0)).is_ok());
    }
    let r = cmd::render::render_shape(&mut ctx, sphere(0.0, 0.0, 0.0, 1.0));
    assert_eq!(r, Err(SubmitError::CapacityExceeded));
    // Nothing was appended, so no later upload can see a partial stream.
    assert_eq!(ctx.render.shapes.len(), MAX_RECORDS as usize);
}

#[test]
fn one_oversized_tree_is_refused_outright() {
    let mut ctx = Context::new(0);
    // 2 * 129 - 1 = 257 records, one past the capacity.
    let r = cmd::render::render_shape(&mut ctx, union_chain(129));
    assert_eq!(r, Err(SubmitError::CapacityExceeded));
    assert_eq!(ctx.render.shapes.len(), 0);

    // 2 * 128 - 1 = 255 records fit, and one more single record fills
    // the buffer exactly.
    assert!(cmd::render::render_shape(&mut ctx, union_chain(128)).is_ok());
    assert!(cmd::render::render_shape(&mut ctx, sphere(0.0, 0.0, 0.0, 1.0)).is_ok());
    assert_eq!(
        cmd::render::render_shape(&mut ctx, sphere(0.0, 0.0, 0.0, 1.0)),
        Err(SubmitError::CapacityExceeded)
    );
}

#[test]
fn submit_list_short_circuits_on_first_failure() {
    let mut ctx = Context::new(0);
    // Fill all but two records.
    assert!(cmd::render::render_shape(&mut ctx, union_chain(127)).is_ok());
    assert!(cmd::render::render_shape(&mut ctx, sphere(0.0, 0.0, 0.0, 1.0)).is_ok());
    assert_eq!(ctx.render.shapes.len(), 2);

    // Two more fit; the three-record chain does not; the last sphere is
    // never reached.
    let list = vec![
        sphere(1.0, 0.0, 0.0, 1.0),
        sphere(2.0, 0.0, 0.0, 1.0),
        union_chain(2),
        sphere(3.0, 0.0, 0.0, 1.0),
    ];
    let r = cmd::render::render_shapes(&mut ctx, list);
    assert_eq!(r, Err(SubmitError::CapacityExceeded));
    assert_eq!(ctx.render.shapes.len(), 4);
}

#[test]
fn submit_list_in_order() {
    let mut ctx = Context::new(0);
    let list = vec![sphere(1.0, 0.0, 0.0, 1.0), sphere(2.0, 0.0, 0.0, 1.0)];
    assert!(cmd::render::render_shapes(&mut ctx, list).is_ok());
    let gpu = shapes_to_gpu(&ctx.render.shapes);
    assert_eq!(gpu.0.len(), 2);
    assert_eq!(f32::from_bits(gpu.0[0].pos.x), 1.0);
    assert_eq!(f32::from_bits(gpu.0[1].pos.x), 2.0);
}

#[test]
fn prepare_frame_stamps_globals_and_clears_the_scene() {
    let mut ctx = Context::new(0);
    assert!(cmd::render::render_shape(&mut ctx, sphere(0.0, 0.0, 0.0, 1.0)).is_ok());

    let time_bits = 0.125f32.to_bits();
    let gpu = ctx.render.prepare_frame(time_bits);

    assert_eq!(gpu.0.len(), 1);
    assert_eq!(gpu.0[0].id, OP_SPHERE);
    assert_eq!(ctx.render.globals.shape_amount, 1);
    assert_eq!(f32::from_bits(ctx.render.globals.time), 0.125);
    assert_eq!(ctx.render.shapes.len(), 0);

    // The next frame starts from an empty scene.
    let gpu = ctx.render.prepare_frame(time_bits);
    assert_eq!(gpu.0.len(), 0);
    assert_eq!(ctx.render.globals.shape_amount, 0);
}

#[test]
fn default_globals_match_startup_values() {
    let g = Globals::new();
    assert_eq!(g.screen_dim, Size2 { width: WIDTH, height: HEIGHT });
    assert_eq!(f32::from_bits(g.camera_pos.x), 0.0);
    assert_eq!(f32::from_bits(g.camera_rot.x_axis.x), 1.0);
    assert_eq!(f32::from_bits(g.camera_rot.y_axis.y), 1.0);
    assert_eq!(f32::from_bits(g.camera_rot.z_axis.z), 1.0);
    assert_eq!(f32::from_bits(g.camera_rot.x_axis.y), 0.0);
    assert_eq!(f32::from_bits(g.light_pos.x), -2.0);
    assert_eq!(f32::from_bits(g.light_pos.y), 2.0);
    assert_eq!(f32::from_bits(g.light_pos.z), -4.0);
    assert_eq!(f32::from_bits(g.focal_length), 1.0);
    assert_eq!(f32::from_bits(g.time), 2.0);
    assert_eq!(g.shape_amount, 0);
}

#[test]
fn camera_setters_overwrite_their_fields() {
    let mut ctx = Context::new(0);
    cmd::render::set_camera_pos(&mut ctx, vec3(1.0, 2.0, -3.0));
    assert_eq!(ctx.render.globals.camera_pos, vec3(1.0, 2.0, -3.0));

    let rot = Mat3Bits {
        x_axis: vec3(0.0, 1.0, 0.0),
        y_axis: vec3(-1.0, 0.0, 0.0),
        z_axis: vec3(0.0, 0.0, 1.0),
    };
    cmd::render::set_camera_rot(&mut ctx, rot);
    assert_eq!(ctx.render.globals.camera_rot, rot);

    cmd::render::set_focal_length(&mut ctx, 2.5f32.to_bits());
    assert_eq!(f32::from_bits(ctx.render.globals.focal_length), 2.5);

    cmd::render::resize(&mut ctx, 640, 480);
    assert_eq!(ctx.render.globals.screen_dim, Size2 { width: 640, height: 480 });
}

#[test]
fn resize_window_ignores_degenerate_sizes() {
    let mut rc = RenderContext::new();
    assert_eq!(rc.window_size, Size2 { width: WIDTH, height: HEIGHT });

    rc.resize_window(800, 600);
    assert_eq!(rc.window_size, Size2 { width: 800, height: 600 });

    rc.resize_window(0, 600);
    assert_eq!(rc.window_size, Size2 { width: 800, height: 600 });
    rc.resize_window(800, 0);
    assert_eq!(rc.window_size, Size2 { width: 800, height: 600 });

    // The compute-output resolution deliberately never follows.
    assert_eq!(rc.resolution, Size2 { width: WIDTH, height: HEIGHT });
}

#[test]
fn surface_error_policy() {
    assert_eq!(surface_error_action(SurfaceErrorKind::Lost), SurfaceErrorAction::Reconfigure);
    assert_eq!(
        surface_error_action(SurfaceErrorKind::Outdated),
        SurfaceErrorAction::Reconfigure
    );
    assert_eq!(surface_error_action(SurfaceErrorKind::OutOfMemory), SurfaceErrorAction::Exit);
    assert_eq!(surface_error_action(SurfaceErrorKind::Timeout), SurfaceErrorAction::Ignore);
}

#[test]
fn window_events_drive_the_context() {
    let mut ctx = Context::new(0);

    assert!(!handle_window_event(&mut ctx, WindowEvent::Resized { width: 320, height: 200 }));
    assert_eq!(ctx.render.window_size, Size2 { width: 320, height: 200 });

    assert!(!handle_window_event(
        &mut ctx,
        WindowEvent::KeyboardInput { pressed: true, keycode: 17 }
    ));
    assert!(ctx.input.keyboard.key_pressed(17));

    assert!(!handle_window_event(
        &mut ctx,
        WindowEvent::KeyboardInput { pressed: false, keycode: 17 }
    ));
    assert!(!ctx.input.keyboard.key_pressed(17));

    assert!(!handle_window_event(
        &mut ctx,
        WindowEvent::MouseInput { pressed: true, button: 0 }
    ));
    assert!(ctx.input.mouse.button_pressed(0));

    let x = 10.0f64.to_bits();
    let y = 20.0f64.to_bits();
    assert!(!handle_window_event(&mut ctx, WindowEvent::CursorMoved { x, y, inside: true }));
    assert!(ctx.input.mouse.on_screen());
    assert!(!handle_window_event(&mut ctx, WindowEvent::CursorLeft));
    assert!(!ctx.input.mouse.on_screen());

    let dy = 1.5f64.to_bits();
    let zero = 0.0f64.to_bits();
    assert!(!handle_window_event(&mut ctx, WindowEvent::MouseWheel { dx: zero, dy }));
    assert_eq!(ctx.input.mouse.scroll_delta(), (zero, dy));

    assert!(!handle_window_event(&mut ctx, WindowEvent::MouseMotion { dx: dy, dy: zero }));
    assert_eq!(ctx.input.mouse.mouse_delta(), (dy, zero));

    assert!(!handle_window_event(
        &mut ctx,
        WindowEvent::ModifiersChanged {
            state: ModifierState::new(true, false, false, false)
        }
    ));
    assert!(ctx.input.keyboard.modifier_pressed(gpu_raymarcher::input::KeyModifier::Shift));

    assert!(handle_window_event(&mut ctx, WindowEvent::CloseRequested));
}

#[test]
fn clock_tracks_elapsed_nanos() {
    let mut t = TimeContext::new(1_000);
    assert_eq!(t.elapsed_nanos(), 0);
    t.advance(2_500);
    assert_eq!(t.elapsed_nanos(), 1_500);

    let mut ctx = Context::new(42);
    assert_eq!(cmd::time::current_time(&ctx), 42);
    ctx.time.advance(100);
    assert_eq!(cmd::time::current_time(&ctx), 100);
    assert_eq!(cmd::time::elapsed_nanos(&ctx), 58);
}
