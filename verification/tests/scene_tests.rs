use star_scene::backend::{Command, Phase, Reply, Step, Topology};
use star_scene::christmas_star::ChristmasStar;
use star_scene::control::{ElementState, State, VirtualKeyCode};
use star_scene::game::Object;
use star_scene::light::directional::Light;
use star_scene::scene::{escalate, FrameStage, KeyEvent, RenderableObject, Scene};
use star_scene::vector::{Vector3, COORD_LIMIT};

fn healthy(name: u32) -> Reply {
    Reply { name, status: 1, log: Vec::new(), error: 0 }
}

fn ready_star(first_name: u32) -> ChristmasStar {
    let mut star = ChristmasStar::new();
    let mut setup = star.begin_init();
    let mut name = first_name;
    while setup.pending().is_some() {
        setup.advance(healthy(name));
        name += 1;
    }
    star.init(&setup).unwrap();
    star
}

fn ready_light(position: Vector3, first_name: u32) -> Light {
    let mut light = Light::new(position);
    let mut setup = light.begin_init();
    let mut name = first_name;
    while setup.pending().is_some() {
        setup.advance(healthy(name));
        name += 1;
    }
    light.init(&setup).unwrap();
    light
}

fn press(key: VirtualKeyCode) -> KeyEvent {
    KeyEvent { elem_state: ElementState::Pressed, key_code: Some(key) }
}

fn release(key: VirtualKeyCode) -> KeyEvent {
    KeyEvent { elem_state: ElementState::Released, key_code: Some(key) }
}

fn position_of(object: &RenderableObject) -> Vector3 {
    match object {
        RenderableObject::Star(star) => star.directional.position,
        RenderableObject::LightGizmo(light) => light.position,
    }
}

#[test]
fn empty_scene_frame() {
    let mut scene = Scene::new();
    assert_eq!(scene.cs, State::new());
    assert!(scene.objects.is_empty());
    let pass = scene.process_frame(&Vec::new()).unwrap();
    let plain = |command| Step { command, checked: false };
    assert_eq!(
        pass.steps,
        vec![
            plain(Command::ClearScreen),
            plain(Command::Flush),
            plain(Command::SwapBuffers),
            plain(Command::Sleep { milliseconds: 8 }),
        ]
    );
    assert!(scene.close().is_empty());
}

#[test]
fn frame_draws_objects_in_insertion_order() {
    let star = ready_star(1);
    let light = ready_light(Vector3::new(0, 0, 0), 101);
    let mut scene = Scene::new();
    scene.add(RenderableObject::Star(star));
    scene.add(RenderableObject::LightGizmo(light));
    let pass = scene.frame();
    assert_eq!(pass.next, 0);
    assert!(!pass.failed);
    let mut expected = vec![Step { command: Command::ClearScreen, checked: false }];
    expected.extend(star.draw());
    expected.extend(light.draw());
    expected.push(Step { command: Command::Flush, checked: false });
    expected.push(Step { command: Command::SwapBuffers, checked: false });
    expected.push(Step { command: Command::Sleep { milliseconds: 8 }, checked: false });
    assert_eq!(pass.steps, expected);
    assert_eq!(pass.steps.len(), 1 + 14 + 7 + 3);
    let programs: Vec<u32> = pass
        .steps
        .iter()
        .filter_map(|s| match s.command {
            Command::UseProgram { program } if program != 0 => Some(program),
            _ => None,
        })
        .collect();
    assert_eq!(programs, vec![3, 20, 103]);
    let drawn: Vec<Topology> = pass
        .steps
        .iter()
        .filter_map(|s| match s.command {
            Command::DrawArrays { topology, .. } => Some(topology),
            _ => None,
        })
        .collect();
    assert_eq!(drawn, vec![Topology::Triangles, Topology::LineLoop, Topology::LineLoop]);
}

#[test]
fn events_then_update_then_draw() {
    let mut scene = Scene::new();
    scene.add(RenderableObject::Star(ready_star(1)));
    let events = vec![
        press(VirtualKeyCode::Left),
        press(VirtualKeyCode::Up),
        KeyEvent { elem_state: ElementState::Pressed, key_code: None },
        press(VirtualKeyCode::Other),
    ];
    let pass = scene.process_frame(&events).unwrap();
    assert_eq!(
        scene.cs,
        State { move_up: true, move_down: false, move_left: true, move_right: false }
    );
    assert_eq!(position_of(&scene.objects[0]), Vector3::new(390, 510, 1000));
    assert_eq!(pass.steps[3].command, Command::SetVector { value: Vector3::new(390, 510, 1000) });

    let pass = scene.process_frame(&vec![release(VirtualKeyCode::Left)]).unwrap();
    assert_eq!(position_of(&scene.objects[0]), Vector3::new(390, 520, 1000));
    assert_eq!(
        pass.steps[10].command,
        Command::SetTranslation { translation: Vector3::new(390, 520, 1000) }
    );

    scene.process_frame(&vec![release(VirtualKeyCode::Up)]).unwrap();
    assert_eq!(scene.cs, State::new());
    assert_eq!(position_of(&scene.objects[0]), Vector3::new(390, 520, 1000));
}

#[test]
fn later_event_wins() {
    let mut scene = Scene::new();
    scene.handle_events(&vec![
        press(VirtualKeyCode::Down),
        release(VirtualKeyCode::Down),
        press(VirtualKeyCode::Right),
        release(VirtualKeyCode::Left),
    ]);
    assert_eq!(
        scene.cs,
        State { move_up: false, move_down: false, move_left: false, move_right: true }
    );
}

#[test]
fn update_ends_at_the_first_object_that_cannot_hold_the_step() {
    let mut scene = Scene::new();
    scene.add(RenderableObject::LightGizmo(ready_light(Vector3::new(0, 0, 0), 1)));
    scene.add(RenderableObject::LightGizmo(ready_light(Vector3::new(i64::MAX - 9, 0, 0), 1)));
    scene.add(RenderableObject::LightGizmo(ready_light(Vector3::new(5, 5, 5), 1)));
    let r = scene.process_frame(&vec![press(VirtualKeyCode::Right)]);
    assert_eq!(r.unwrap_err(), "Error when updating: Light out of range");
    assert_eq!(position_of(&scene.objects[0]), Vector3::new(10, 0, 0));
    assert_eq!(position_of(&scene.objects[1]), Vector3::new(i64::MAX - 9, 0, 0));
    assert_eq!(position_of(&scene.objects[2]), Vector3::new(5, 5, 5));

    scene.handle_events(&vec![release(VirtualKeyCode::Right), press(VirtualKeyCode::Left)]);
    assert_eq!(scene.update(), Ok(()));
    assert_eq!(position_of(&scene.objects[0]), Vector3::new(0, 0, 0));
    assert_eq!(position_of(&scene.objects[1]), Vector3::new(i64::MAX - 19, 0, 0));
    assert_eq!(position_of(&scene.objects[2]), Vector3::new(-5, 5, 5));
}

#[test]
fn update_moves_every_light_past_the_limit_of_the_star() {
    let mut scene = Scene::new();
    scene.add(RenderableObject::LightGizmo(ready_light(Vector3::new(COORD_LIMIT, 0, 0), 1)));
    scene.add(RenderableObject::Star(ready_star(1)));
    scene.handle_events(&vec![press(VirtualKeyCode::Right), press(VirtualKeyCode::Down)]);
    assert_eq!(scene.update(), Ok(()));
    assert_eq!(position_of(&scene.objects[0]), Vector3::new(COORD_LIMIT + 10, -10, 0));
    assert_eq!(position_of(&scene.objects[1]), Vector3::new(410, 490, 1000));
}

#[test]
fn star_needs_room_for_the_direction_to_its_light() {
    let mut star = ready_star(1);
    star.geometry.center = Vector3::new(-5, 0, 0);
    star.directional.position = Vector3::new(i64::MAX - 14, 0, 0);
    assert!(star.is_ready());
    let right = State { move_up: false, move_down: false, move_left: false, move_right: true };
    assert!(star.directional.is_updatable(&right));
    assert!(!star.is_updatable(&right));
    assert!(!RenderableObject::Star(star).is_updatable(&right));
    let left = State { move_up: false, move_down: false, move_left: true, move_right: false };
    assert!(star.is_updatable(&left));
    assert_eq!(star.update(&left), Ok(()));
    assert_eq!(star.directional.position, Vector3::new(i64::MAX - 24, 0, 0));
    assert!(star.is_updatable(&right));
    star.directional.position = Vector3::new(i64::MAX, 0, 0);
    assert!(!star.is_well_formed());
    assert!(!star.is_ready());
}

#[test]
fn drawing_fault_ends_the_frame() {
    let mut scene = Scene::new();
    scene.add(RenderableObject::Star(ready_star(1)));
    let mut pass = scene.frame();
    let mut made = 0;
    while let Some(step) = pass.pending() {
        made += 1;
        let fault = matches!(step.command, Command::DrawArrays { .. });
        pass.advance(if fault { gl::INVALID_OPERATION } else { gl::NO_ERROR });
    }
    assert_eq!(made, 6);
    assert!(pass.failed);
    let message = pass.outcome().unwrap_err();
    assert_eq!(escalate(FrameStage::Drawing, &message), "Error when drawing: Invalid operation");
    assert_eq!(escalate(FrameStage::Updating, "x"), "Error when updating: x");
}

#[test]
fn close_hands_everything_back_in_order() {
    let mut scene = Scene::new();
    scene.add(RenderableObject::Star(ready_star(1)));
    scene.add(RenderableObject::LightGizmo(ready_light(Vector3::new(0, 0, 0), 101)));
    assert_eq!(
        scene.close(),
        vec![
            Command::DeleteBuffer { vbo: 25 },
            Command::DeleteVertexArray { vao: 23 },
            Command::RemoveProgram { program: 20 },
            Command::DeleteBuffer { vbo: 8 },
            Command::DeleteVertexArray { vao: 6 },
            Command::RemoveProgram { program: 3 },
            Command::DeleteBuffer { vbo: 108 },
            Command::DeleteVertexArray { vao: 106 },
            Command::RemoveProgram { program: 103 },
        ]
    );
}

#[test]
fn renderable_object_dispatch() {
    let star = ready_star(1);
    let mut object = RenderableObject::Star(star);
    assert_eq!(object.draw(), star.draw());
    let keys = State { move_up: false, move_down: true, move_left: false, move_right: true };
    assert_eq!(object.update(&keys), Ok(()));
    assert_eq!(position_of(&object), Vector3::new(410, 490, 1000));
    let mut release = Vec::new();
    let closed = object.close_into(&mut release);
    assert_eq!(release.len(), 6);
    assert_eq!(release[0], Command::DeleteBuffer { vbo: 25 });
    let mut expected = star;
    expected.directional.position = Vector3::new(410, 490, 1000);
    expected.close();
    assert_eq!(closed, RenderableObject::Star(expected));
    assert_eq!(expected.phase, Phase::Closed);
    assert_eq!(expected.geometry, star.geometry);
    let mut again = Vec::new();
    closed.close_into(&mut again);
    assert_eq!(
        again,
        vec![
            Command::DeleteBuffer { vbo: 0 },
            Command::DeleteVertexArray { vao: 0 },
            Command::RemoveProgram { program: 0 },
            Command::DeleteBuffer { vbo: 0 },
            Command::DeleteVertexArray { vao: 0 },
            Command::RemoveProgram { program: 0 },
        ]
    );

    let mut gizmo = RenderableObject::LightGizmo(ready_light(Vector3::new(COORD_LIMIT, 0, 0), 1));
    assert!(gizmo.is_updatable(&keys));
    assert_eq!(gizmo.update(&keys), Ok(()));
    assert_eq!(position_of(&gizmo), Vector3::new(COORD_LIMIT + 10, -10, 0));
    let mut steps = vec![Step { command: Command::Flush, checked: false }];
    gizmo.draw_into(&mut steps);
    assert_eq!(steps.len(), 8);
}

#[test]
fn readiness_follows_the_lifecycle() {
    let mut star = ChristmasStar::new();
    assert!(!star.is_ready());
    assert!(!RenderableObject::Star(star).is_ready());
    star = ready_star(1);
    assert!(star.is_ready());
    assert!(star.directional.is_ready());
    let mut scene = Scene::new();
    assert!(scene.is_ready());
    scene.add(RenderableObject::Star(star));
    scene.add(RenderableObject::LightGizmo(ready_light(Vector3::new(1, 2, 3), 50)));
    assert!(scene.is_ready());
    star.close();
    assert!(!star.is_ready());
    scene.objects[1] = RenderableObject::LightGizmo(Light::new(Vector3::new(1, 2, 3)));
    assert!(!scene.is_ready());
    let mut broken = ready_star(1);
    broken.geometry.thickness = 0;
    assert!(!broken.is_ready());
    let mut far = ready_light(Vector3::new(0, 0, 0), 1);
    far.position.x = COORD_LIMIT + 1;
    assert!(far.is_ready());
}
