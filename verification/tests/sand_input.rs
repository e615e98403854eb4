use falling_sand::pointer::{ButtonState, MouseButton, MouseButtonInput, PointerReport};
use falling_sand::sand::input::{update_input_state, AutomataParams};
use falling_sand::sand::matter::Matter;
use falling_sand::sand::settings::SandAppSettings;
use falling_sand::scalar::{CanvasPos, FloatBits};

fn report() -> PointerReport {
    PointerReport { gui_wants_pointer: false, buttons: vec![], pause_pressed: false, cursor: None }
}

fn press(button: MouseButton) -> MouseButtonInput {
    MouseButtonInput { button, state: ButtonState::Pressed }
}

fn release(button: MouseButton) -> MouseButtonInput {
    MouseButtonInput { button, state: ButtonState::Released }
}

fn at(x: f32, y: f32) -> CanvasPos {
    CanvasPos { x: FloatBits(x.to_bits()), y: FloatBits(y.to_bits()) }
}

#[test]
fn default_snapshot_is_a_lifted_round_sand_brush() {
    let params = AutomataParams::default();
    assert_eq!(f32::from_bits(params.radius.0), 4.0);
    assert!(params.can_scroll);
    assert!(!params.is_drawing);
    assert!(!params.use_square_brush);
    assert_eq!(params.mouse_pos, at(0.0, 0.0));
    assert_eq!(params.prev_mouse_pos, at(0.0, 0.0));
    assert_eq!(params.selected_matter, Matter::sand());
    assert_eq!(params.get_frame(), 0);
}

#[test]
fn controls_holding_the_pointer_lift_the_brush_and_stop_scrolling() {
    let mut params = AutomataParams { is_drawing: true, ..AutomataParams::default() };
    let mut settings = SandAppSettings::new();
    let held = PointerReport {
        gui_wants_pointer: true,
        buttons: vec![press(MouseButton::Left)],
        pause_pressed: true,
        cursor: Some(at(3.0, 4.0)),
    };
    update_input_state(&mut params, &mut settings, &held);
    assert!(!params.is_drawing);
    assert!(!params.can_scroll);
    assert!(!settings.is_paused);
    assert_eq!(params.mouse_pos, at(0.0, 0.0));
}

#[test]
fn brush_follows_the_last_change_of_the_left_button() {
    let mut params = AutomataParams { can_scroll: false, ..AutomataParams::default() };
    let mut settings = SandAppSettings::new();
    let mut r = report();
    r.buttons = vec![press(MouseButton::Left), press(MouseButton::Right)];
    update_input_state(&mut params, &mut settings, &r);
    assert!(params.is_drawing);
    assert!(params.can_scroll);

    r.buttons = vec![release(MouseButton::Right), press(MouseButton::Middle)];
    update_input_state(&mut params, &mut settings, &r);
    assert!(params.is_drawing);

    r.buttons = vec![press(MouseButton::Left), release(MouseButton::Left)];
    update_input_state(&mut params, &mut settings, &r);
    assert!(!params.is_drawing);

    r.buttons = vec![release(MouseButton::Left), press(MouseButton::Left), release(MouseButton::Other(7))];
    update_input_state(&mut params, &mut settings, &r);
    assert!(params.is_drawing);
}

#[test]
fn pause_key_toggles_the_pause() {
    let mut params = AutomataParams::default();
    let mut settings = SandAppSettings::new();
    let mut r = report();
    r.pause_pressed = true;
    update_input_state(&mut params, &mut settings, &r);
    assert!(settings.is_paused);
    update_input_state(&mut params, &mut settings, &r);
    assert!(!settings.is_paused);
    r.pause_pressed = false;
    update_input_state(&mut params, &mut settings, &r);
    assert!(!settings.is_paused);
}

#[test]
fn pointer_over_the_window_moves_the_stroke() {
    let mut params = AutomataParams::default();
    let mut settings = SandAppSettings::new();
    let mut r = report();
    r.cursor = Some(at(10.0, 20.0));
    update_input_state(&mut params, &mut settings, &r);
    assert_eq!(params.mouse_pos, at(10.0, 20.0));
    assert_eq!(params.prev_mouse_pos, at(0.0, 0.0));
    r.cursor = Some(at(11.0, 21.0));
    update_input_state(&mut params, &mut settings, &r);
    assert_eq!(params.mouse_pos, at(11.0, 21.0));
    assert_eq!(params.prev_mouse_pos, at(10.0, 20.0));
    r.cursor = None;
    update_input_state(&mut params, &mut settings, &r);
    assert_eq!(params.mouse_pos, at(11.0, 21.0));
    assert_eq!(params.prev_mouse_pos, at(10.0, 20.0));
}

#[test]
fn launch_settings_run_three_movement_and_ten_dispersion_steps() {
    let settings = SandAppSettings::new();
    assert_eq!(settings.movement_steps, 3);
    assert_eq!(settings.dispersion_steps, 10);
    assert!(!settings.is_paused);
    assert!(!settings.print_performance);
    assert_eq!(settings.get_current_seed(), FloatBits(0));
    assert_eq!(SandAppSettings::default(), settings);
}

#[test]
fn seed_is_the_last_clock_reading() {
    let mut settings = SandAppSettings::new();
    settings.seed = FloatBits(2.5f32.to_bits());
    assert_eq!(f32::from_bits(settings.get_current_seed().0), 2.5);
}

#[test]
fn step_counts_are_held_to_their_ranges() {
    let mut settings = SandAppSettings::new();
    settings.set_movement_steps(0);
    assert_eq!(settings.movement_steps, 1);
    settings.set_movement_steps(2);
    assert_eq!(settings.movement_steps, 2);
    settings.set_movement_steps(4);
    assert_eq!(settings.movement_steps, 3);
    settings.set_dispersion_steps(0);
    assert_eq!(settings.dispersion_steps, 1);
    settings.set_dispersion_steps(7);
    assert_eq!(settings.dispersion_steps, 7);
    settings.set_dispersion_steps(u32::MAX);
    assert_eq!(settings.dispersion_steps, 10);
    assert!(!settings.is_paused);
}
