use mothra::config::GameConfig;
use mothra::game::{
    frame_interval_millis, frame_interval_nanos, pace_frame, startup_scale, FrameTimer, Pace,
};
use mothra::input::{
    CursorPosition, ElementState, InputDispatcher, InputEvent, InputState, KeyCode, MouseButton,
    WindowEvent,
};
use mothra::logger::{LevelFilter, LoggerConfig};
use mothra::renderer::ProjectionScale;

fn key(code: u32, state: ElementState) -> WindowEvent {
    WindowEvent::KeyboardInput { key: Some(KeyCode { code }), state }
}

fn button(button: MouseButton, state: ElementState) -> WindowEvent {
    WindowEvent::MouseInput { button, state }
}

fn cursor(x: f64, y: f64) -> WindowEvent {
    WindowEvent::CursorMoved { position: CursorPosition { x: x.to_bits(), y: y.to_bits() } }
}

#[test]
fn default_config_is_a_small_fixed_window() {
    let config = GameConfig::default();
    assert_eq!(config.window_width, 800);
    assert_eq!(config.window_height, 600);
    assert_eq!(config.logical_width, 800);
    assert_eq!(config.logical_height, 600);
    assert_eq!(config.title, "Mothra Engine");
    assert_eq!(config.target_fps, 60);
    assert!(!config.stretch_mode);
}

#[test]
fn default_logger_is_verbose_about_rendering_only() {
    let config = LoggerConfig::default();
    assert_eq!(config.rendering_level, LevelFilter::Debug);
    assert_eq!(config.default_level, LevelFilter::Warn);
    assert_eq!(config.file_output, None);
}

#[test]
fn frame_interval_is_a_whole_number_of_milliseconds() {
    assert_eq!(frame_interval_millis(60), 16);
    assert_eq!(frame_interval_millis(30), 33);
    assert_eq!(frame_interval_millis(1), 1000);
    assert_eq!(frame_interval_millis(1001), 0);
    assert_eq!(frame_interval_nanos(60), 16_000_000);
}

#[test]
fn frame_waits_until_its_interval_has_passed() {
    assert_eq!(pace_frame(0, 16_000_000), Pace::Wait { nanos: 16_000_000 });
    assert_eq!(pace_frame(15_999_999, 16_000_000), Pace::Wait { nanos: 1 });
    assert_eq!(pace_frame(16_000_000, 16_000_000), Pace::Update);
    assert_eq!(pace_frame(u64::MAX, 16_000_000), Pace::Update);
    assert_eq!(pace_frame(0, 0), Pace::Update);
}

#[test]
fn startup_scale_goes_by_the_configured_window() {
    let fixed = GameConfig {
        window_width: 1280,
        window_height: 720,
        ..GameConfig::default()
    };
    assert_eq!(startup_scale(&fixed), ProjectionScale { width: 800, height: 600 });
    let stretched = GameConfig { stretch_mode: true, ..fixed };
    assert_eq!(startup_scale(&stretched), ProjectionScale { width: 1280, height: 720 });
}

#[test]
fn keys_are_held_once_and_released_entirely() {
    let mut state = InputState::default();
    state.update(&key(30, ElementState::Pressed));
    state.update(&key(31, ElementState::Pressed));
    state.update(&key(30, ElementState::Pressed));
    assert_eq!(state.keys_pressed, vec![KeyCode { code: 30 }, KeyCode { code: 31 }]);
    state.update(&key(30, ElementState::Released));
    assert_eq!(state.keys_pressed, vec![KeyCode { code: 31 }]);
    state.update(&key(99, ElementState::Released));
    assert_eq!(state.keys_pressed, vec![KeyCode { code: 31 }]);
}

#[test]
fn release_removes_every_occurrence() {
    let mut state = InputState {
        keys_pressed: vec![KeyCode { code: 1 }, KeyCode { code: 2 }, KeyCode { code: 1 }],
        mouse_buttons: vec![MouseButton::Left, MouseButton::Other(4), MouseButton::Left],
        cursor_position: None,
    };
    state.update(&key(1, ElementState::Released));
    state.update(&button(MouseButton::Left, ElementState::Released));
    assert_eq!(state.keys_pressed, vec![KeyCode { code: 2 }]);
    assert_eq!(state.mouse_buttons, vec![MouseButton::Other(4)]);
}

#[test]
fn key_without_a_code_changes_nothing() {
    let mut state = InputState::default();
    state.update(&WindowEvent::KeyboardInput { key: None, state: ElementState::Pressed });
    state.update(&WindowEvent::Other);
    assert!(state.keys_pressed.is_empty());
    assert!(state.mouse_buttons.is_empty());
    assert_eq!(state.cursor_position, None);
}

#[test]
fn mouse_buttons_and_cursor_are_tracked() {
    let mut state = InputState::default();
    state.update(&button(MouseButton::Left, ElementState::Pressed));
    state.update(&button(MouseButton::Other(7), ElementState::Pressed));
    state.update(&button(MouseButton::Left, ElementState::Pressed));
    assert_eq!(state.mouse_buttons, vec![MouseButton::Left, MouseButton::Other(7)]);
    state.update(&button(MouseButton::Left, ElementState::Released));
    assert_eq!(state.mouse_buttons, vec![MouseButton::Other(7)]);
    state.update(&cursor(12.5, -3.0));
    let position = state.cursor_position.unwrap();
    assert_eq!((f64::from_bits(position.x), f64::from_bits(position.y)), (12.5, -3.0));
    assert!(state.keys_pressed.is_empty());
}

#[test]
fn dispatcher_queues_events_in_order_and_drains_them() {
    let mut dispatcher = InputDispatcher::new();
    dispatcher.dispatch(&key(5, ElementState::Pressed));
    dispatcher.dispatch(&WindowEvent::Other);
    dispatcher.dispatch(&cursor(1.0, 2.0));
    dispatcher.dispatch(&button(MouseButton::Right, ElementState::Pressed));
    dispatcher.dispatch(&WindowEvent::KeyboardInput { key: None, state: ElementState::Released });
    dispatcher.dispatch(&button(MouseButton::Right, ElementState::Released));
    dispatcher.dispatch(&key(5, ElementState::Released));
    let events = dispatcher.drain();
    assert_eq!(
        events,
        vec![
            InputEvent::KeyPressed(KeyCode { code: 5 }),
            InputEvent::MouseMoved { x: 1.0f64.to_bits(), y: 2.0f64.to_bits() },
            InputEvent::MouseButtonPressed(MouseButton::Right),
            InputEvent::MouseButtonReleased(MouseButton::Right),
            InputEvent::KeyReleased(KeyCode { code: 5 }),
        ]
    );
    assert!(dispatcher.drain().is_empty());
}

#[test]
fn timer_restarts_when_a_frame_is_due() {
    let mut timer = FrameTimer::new(60, 1_000);
    assert_eq!(timer.tick(1_000), Pace::Wait { nanos: 16_000_000 });
    assert_eq!(timer.tick(10_001_000), Pace::Wait { nanos: 6_000_000 });
    assert_eq!(timer.tick(16_000_999), Pace::Wait { nanos: 1 });
    assert_eq!(timer.tick(16_001_000), Pace::Update);
    assert_eq!(timer.tick(16_001_000), Pace::Wait { nanos: 16_000_000 });
    assert_eq!(timer.tick(500), Pace::Wait { nanos: 16_000_000 });
    assert_eq!(timer.tick(40_000_000), Pace::Update);
    assert_eq!(timer.tick(50_000_000), Pace::Wait { nanos: 6_000_000 });
}
