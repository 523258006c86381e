use blappy_birb::application::App;
use blappy_birb::input::{listen_for_input, Input};
use blappy_birb::world::World;

fn world() -> World {
    App::new(1).world
}

fn devices(keyboard: bool, touch: bool, mouse: bool) -> Input {
    Input {
        delta: 16_000_000,
        keyboard,
        touch,
        mouse,
        escape: false,
        loaded: false,
        window: None,
        collisions: Vec::new(),
        readings: Vec::new(),
    }
}

#[test]
fn each_device_activates() {
    let devices_alone = [(true, false, false), (false, true, false), (false, false, true)];
    for (keyboard, touch, mouse) in devices_alone {
        let mut world = world();
        listen_for_input(&mut world, &devices(keyboard, touch, mouse));
        assert_eq!(world.presses.len(), 1);
    }
}

#[test]
fn several_devices_at_once_activate_once() {
    let mut world = world();
    listen_for_input(&mut world, &devices(true, true, true));
    assert_eq!(world.presses.len(), 1);
}

#[test]
fn no_device_no_activation() {
    let mut world = world();
    listen_for_input(&mut world, &devices(false, false, false));
    assert!(world.presses.is_empty());
}

#[test]
fn escape_is_no_activation() {
    let mut world = world();
    let mut input = devices(false, false, false);
    input.escape = true;
    listen_for_input(&mut world, &input);
    assert!(world.presses.is_empty());
}
