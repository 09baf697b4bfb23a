//! The pieces that a session is made of.

use evil_alligator::command::{
    create_background, create_label, prompt, Backdrop, Command, Reply, Track,
};
use evil_alligator::config::SceneConfig;
use evil_alligator::input::{ButtonState, GamepadButton, InputEvent, Key, Movement};
use evil_alligator::keys::{KeyboardKeys, PressedKeys};
use evil_alligator::model::GameState;
use evil_alligator::resources::{
    engine_version, GameStateFlag, GameStateFlagRes, HeroStatus, LabelVariable,
    VariableDictionary,
};
use evil_alligator::scene::{initial_resources, Scene};
use evil_alligator::text::decimal_string;

const DIRECTIONS: [KeyboardKeys; 4] = [
    KeyboardKeys::KeyUp,
    KeyboardKeys::KeyLeft,
    KeyboardKeys::KeyRight,
    KeyboardKeys::KeyDown,
];

const STATES: [ButtonState; 4] =
    [ButtonState::Pressed, ButtonState::Held, ButtonState::Released, ButtonState::NotPressed];

fn aliases(key: KeyboardKeys, state: ButtonState) -> [InputEvent; 3] {
    match key {
        KeyboardKeys::KeyUp => [
            InputEvent::Key(Key::Up, state),
            InputEvent::Key(Key::W, state),
            InputEvent::GamepadButton(GamepadButton::DpadUp, state),
        ],
        KeyboardKeys::KeyLeft => [
            InputEvent::Key(Key::Left, state),
            InputEvent::Key(Key::A, state),
            InputEvent::GamepadButton(GamepadButton::DpadLeft, state),
        ],
        KeyboardKeys::KeyRight => [
            InputEvent::Key(Key::Right, state),
            InputEvent::Key(Key::D, state),
            InputEvent::GamepadButton(GamepadButton::DpadRight, state),
        ],
        KeyboardKeys::KeyDown => [
            InputEvent::Key(Key::Down, state),
            InputEvent::Key(Key::S, state),
            InputEvent::GamepadButton(GamepadButton::DpadDown, state),
        ],
    }
}

/// A session in `state`, reached the way a game reaches it.
fn session_in(state: GameState) -> Scene {
    let (mut scene, _) = Scene::new(SceneConfig::default());
    let (mut flag, _, mut keys) = initial_resources();
    let confirm = InputEvent::Key(Key::Return, ButtonState::Pressed);
    let pause = InputEvent::Key(Key::P, ButtonState::Pressed);
    if state != GameState::WaitingInput {
        scene.event(&confirm, &mut keys, &mut flag);
    }
    if state != GameState::WaitingInput && state != GameState::Initializing {
        let mut next = scene.draw();
        while let Some(command) = next {
            next = match command {
                Command::PollAtlas | Command::PollFont => scene.resume(Reply::Ready(true)),
                _ => scene.resume(Reply::Done),
            };
        }
    }
    if state == GameState::Paused {
        scene.event(&pause, &mut keys, &mut flag);
    }
    if state == GameState::GameOver {
        let mut next = scene.update();
        while let Some(command) = next {
            next = match command {
                Command::ReadFlag => scene.resume(Reply::Flag(Some(GameStateFlag::Defeat))),
                _ => scene.resume(Reply::Done),
            };
        }
    }
    assert_eq!(scene.state(), state);
    scene
}

fn every_event() -> Vec<InputEvent> {
    let keys = [
        Key::Return,
        Key::Escape,
        Key::Up,
        Key::Left,
        Key::Right,
        Key::Down,
        Key::W,
        Key::A,
        Key::D,
        Key::S,
        Key::P,
        Key::Pause,
        Key::Other,
    ];
    let buttons = [
        GamepadButton::DpadUp,
        GamepadButton::DpadLeft,
        GamepadButton::DpadRight,
        GamepadButton::DpadDown,
        GamepadButton::Start,
        GamepadButton::Other,
    ];
    let mut events = vec![InputEvent::Other];
    for state in STATES {
        for key in keys {
            events.push(InputEvent::Key(key, state));
        }
        for button in buttons {
            events.push(InputEvent::GamepadButton(button, state));
        }
    }
    events
}

fn held(keys: &PressedKeys) -> [bool; 4] {
    [
        keys.is_pressed(KeyboardKeys::KeyUp),
        keys.is_pressed(KeyboardKeys::KeyLeft),
        keys.is_pressed(KeyboardKeys::KeyRight),
        keys.is_pressed(KeyboardKeys::KeyDown),
    ]
}

#[test]
fn new_pressed_keys_hold_nothing() {
    let keys = PressedKeys::new();
    assert_eq!(held(&keys), [false, false, false, false]);
}

#[test]
fn press_sets_one_bit() {
    for key in DIRECTIONS {
        let mut keys = PressedKeys::new();
        keys.press(key);
        for other in DIRECTIONS {
            assert_eq!(keys.is_pressed(other), other == key);
        }
        assert!(keys.pressed_keys.contains(key.bit()));
        keys.press(key);
        assert!(keys.is_pressed(key));
    }
}

#[test]
fn release_clears_one_bit() {
    for key in DIRECTIONS {
        let mut keys = PressedKeys::new();
        for other in DIRECTIONS {
            keys.press(other);
        }
        keys.release(key);
        for other in DIRECTIONS {
            assert_eq!(keys.is_pressed(other), other != key);
        }
        keys.release(key);
        assert!(!keys.is_pressed(key));
    }
}

#[test]
fn release_of_a_key_not_held_changes_nothing() {
    let mut keys = PressedKeys::new();
    keys.release(KeyboardKeys::KeyLeft);
    assert_eq!(held(&keys), [false, false, false, false]);
}

#[test]
fn key_bits_are_distinct() {
    assert_eq!(KeyboardKeys::KeyUp.bit(), 0);
    assert_eq!(KeyboardKeys::KeyLeft.bit(), 1);
    assert_eq!(KeyboardKeys::KeyRight.bit(), 2);
    assert_eq!(KeyboardKeys::KeyDown.bit(), 3);
}

#[test]
fn movement_of_every_alias() {
    for key in DIRECTIONS {
        for event in aliases(key, ButtonState::Pressed) {
            assert_eq!(event.get_movement(), Some(Movement::Press(key)));
        }
        for event in aliases(key, ButtonState::Released) {
            assert_eq!(event.get_movement(), Some(Movement::Release(key)));
        }
        for event in aliases(key, ButtonState::Held) {
            assert_eq!(event.get_movement(), None);
        }
        for event in aliases(key, ButtonState::NotPressed) {
            assert_eq!(event.get_movement(), None);
        }
    }
    assert_eq!(InputEvent::Other.get_movement(), None);
    assert_eq!(InputEvent::Key(Key::Return, ButtonState::Pressed).get_movement(), None);
    assert_eq!(
        InputEvent::GamepadButton(GamepadButton::Start, ButtonState::Pressed).get_movement(),
        None
    );
}

#[test]
fn named_inputs() {
    let confirm = InputEvent::Key(Key::Return, ButtonState::Pressed);
    let quit = InputEvent::Key(Key::Escape, ButtonState::Pressed);
    let start = InputEvent::GamepadButton(GamepadButton::Start, ButtonState::Pressed);
    for event in every_event() {
        assert_eq!(event.confirms(), event == confirm);
        assert_eq!(event.quits(), event == quit);
        assert_eq!(
            event.pauses(),
            event == InputEvent::Key(Key::P, ButtonState::Pressed)
                || event == InputEvent::Key(Key::Pause, ButtonState::Pressed)
                || event == start
        );
        assert_eq!(event.leaves(), event == confirm || event == quit || event == start);
    }
}

#[test]
fn alias_released_by_another_alias() {
    for state in [GameState::Running, GameState::Paused] {
        for key in DIRECTIONS {
            for down in aliases(key, ButtonState::Pressed) {
                for up in aliases(key, ButtonState::Released) {
                    let mut scene = session_in(state);
                    let (mut flag, _, mut keys) = initial_resources();
                    scene.event(&down, &mut keys, &mut flag);
                    assert!(keys.is_pressed(key));
                    for other in aliases(key, ButtonState::Pressed) {
                        scene.event(&other, &mut keys, &mut flag);
                        assert!(keys.is_pressed(key));
                    }
                    scene.event(&up, &mut keys, &mut flag);
                    assert!(!keys.is_pressed(key));
                    assert_eq!(scene.state(), state);
                    assert_eq!(flag.flag, None);
                }
            }
        }
    }
}

#[test]
fn up_then_w_then_gamepad_up() {
    let mut scene = session_in(GameState::Running);
    let (mut flag, _, mut keys) = initial_resources();
    scene.event(&InputEvent::Key(Key::Up, ButtonState::Pressed), &mut keys, &mut flag);
    assert_eq!(held(&keys), [true, false, false, false]);
    scene.event(&InputEvent::Key(Key::W, ButtonState::Pressed), &mut keys, &mut flag);
    assert_eq!(held(&keys), [true, false, false, false]);
    scene.event(
        &InputEvent::GamepadButton(GamepadButton::DpadUp, ButtonState::Released),
        &mut keys,
        &mut flag,
    );
    assert_eq!(held(&keys), [false, false, false, false]);
}

#[test]
fn down_then_s_then_gamepad_down() {
    let mut scene = session_in(GameState::Paused);
    let (mut flag, _, mut keys) = initial_resources();
    scene.event(&InputEvent::Key(Key::Down, ButtonState::Pressed), &mut keys, &mut flag);
    assert_eq!(held(&keys), [false, false, false, true]);
    scene.event(&InputEvent::Key(Key::S, ButtonState::Pressed), &mut keys, &mut flag);
    assert_eq!(held(&keys), [false, false, false, true]);
    scene.event(
        &InputEvent::GamepadButton(GamepadButton::DpadDown, ButtonState::Released),
        &mut keys,
        &mut flag,
    );
    assert_eq!(held(&keys), [false, false, false, false]);
}

#[test]
fn label_keys_are_distinct() {
    assert_eq!(LabelVariable::FramesPerSecond.key(), 0);
    assert_eq!(LabelVariable::HeroLives.key(), 1);
    assert_eq!(LabelVariable::Score.key(), 2);
    assert_eq!(LabelVariable::EngineVersion.key(), 3);
}

#[test]
fn directions_are_held_together() {
    let mut scene = session_in(GameState::Running);
    let (mut flag, _, mut keys) = initial_resources();
    scene.event(&InputEvent::Key(Key::Left, ButtonState::Pressed), &mut keys, &mut flag);
    scene.event(&InputEvent::Key(Key::D, ButtonState::Pressed), &mut keys, &mut flag);
    scene.event(
        &InputEvent::GamepadButton(GamepadButton::DpadUp, ButtonState::Pressed),
        &mut keys,
        &mut flag,
    );
    assert_eq!(held(&keys), [true, true, true, false]);
    scene.event(&InputEvent::Key(Key::A, ButtonState::Released), &mut keys, &mut flag);
    assert_eq!(held(&keys), [true, false, true, false]);
}

#[test]
fn events_outside_the_table_change_nothing() {
    let states = [
        GameState::WaitingInput,
        GameState::Initializing,
        GameState::Running,
        GameState::Paused,
        GameState::GameOver,
    ];
    for state in states {
        for event in every_event() {
            let mut scene = session_in(state);
            let timer = scene.cycle_timer();
            let (mut flag, _, mut keys) = initial_resources();
            keys.press(KeyboardKeys::KeyLeft);
            let command = scene.event(&event, &mut keys, &mut flag);
            let playing = state == GameState::Running || state == GameState::Paused;

            let expected_state = match state {
                GameState::WaitingInput if event.confirms() => GameState::Initializing,
                GameState::Running if event.pauses() => GameState::Paused,
                GameState::Paused if event.pauses() => GameState::Running,
                _ => state,
            };
            assert_eq!(scene.state(), expected_state);

            let mut expected_keys = [false, true, false, false];
            if playing {
                match event.get_movement() {
                    Some(Movement::Press(key)) => expected_keys[key.bit() as usize] = true,
                    Some(Movement::Release(key)) => expected_keys[key.bit() as usize] = false,
                    None => {}
                }
            }
            assert_eq!(held(&keys), expected_keys);

            let expected_flag =
                if playing && event.quits() { Some(GameStateFlag::Defeat) } else { None };
            assert_eq!(flag.flag, expected_flag);

            let closes = state == GameState::GameOver && event.leaves();
            assert_eq!(command.is_some(), closes);
            assert_eq!(scene.cycle_timer(), timer);
        }
    }
}

#[test]
fn pause_toggles() {
    let mut scene = session_in(GameState::Running);
    let (mut flag, _, mut keys) = initial_resources();
    let pauses = [
        InputEvent::Key(Key::P, ButtonState::Pressed),
        InputEvent::Key(Key::Pause, ButtonState::Pressed),
        InputEvent::GamepadButton(GamepadButton::Start, ButtonState::Pressed),
    ];
    let mut expected = GameState::Running;
    for event in pauses {
        scene.event(&event, &mut keys, &mut flag);
        expected = if expected == GameState::Running {
            GameState::Paused
        } else {
            GameState::Running
        };
        assert_eq!(scene.state(), expected);
    }
    scene.event(&InputEvent::Key(Key::P, ButtonState::Released), &mut keys, &mut flag);
    assert_eq!(scene.state(), expected);
}

#[test]
fn quit_overwrites_a_victory() {
    let mut scene = session_in(GameState::Paused);
    let mut flag = GameStateFlagRes { flag: Some(GameStateFlag::Victory) };
    let mut keys = PressedKeys::new();
    scene.event(&InputEvent::Key(Key::Escape, ButtonState::Pressed), &mut keys, &mut flag);
    assert_eq!(flag.flag, Some(GameStateFlag::Defeat));
}

#[test]
fn initial_resources_of_a_session() {
    let (flag, labels, keys) = initial_resources();
    assert_eq!(flag.flag, None);
    assert_eq!(GameStateFlagRes::new().flag, None);
    assert_eq!(labels.get(LabelVariable::FramesPerSecond), "60");
    assert_eq!(labels.get(LabelVariable::HeroLives), "5");
    assert_eq!(labels.get(LabelVariable::Score), "0");
    assert_eq!(labels.get(LabelVariable::EngineVersion), "v0.1.0");
    assert_eq!(held(&keys), [false, false, false, false]);
}

#[test]
fn refreshed_dictionary() {
    let labels =
        VariableDictionary::refreshed("143".to_string(), HeroStatus { lives: 0, score: 18446744073709551615 });
    assert_eq!(labels.get(LabelVariable::FramesPerSecond), "143");
    assert_eq!(labels.get(LabelVariable::HeroLives), "0");
    assert_eq!(labels.get(LabelVariable::Score), "18446744073709551615");
    assert_eq!(labels.get(LabelVariable::EngineVersion), "v0.1.0");
    assert_eq!(engine_version(), "v0.1.0");
}

#[test]
fn decimal_numerals() {
    assert_eq!(decimal_string(0), "0");
    assert_eq!(decimal_string(7), "7");
    assert_eq!(decimal_string(9), "9");
    assert_eq!(decimal_string(10), "10");
    assert_eq!(decimal_string(11), "11");
    assert_eq!(decimal_string(99), "99");
    assert_eq!(decimal_string(100), "100");
    assert_eq!(decimal_string(1234567890), "1234567890");
    assert_eq!(decimal_string(u64::MAX), "18446744073709551615");
    for n in 0..2000u64 {
        assert_eq!(decimal_string(n), n.to_string());
    }
}

#[test]
fn default_config() {
    let config = SceneConfig::default();
    assert_eq!(config.atlas, "evil_alligator.atlas");
    assert_eq!(config.font, "cmunrm.ttf");
    assert_eq!(config.main_background, "cenario");
    assert_eq!(config.defeat_background, "inferno");
    assert_eq!(config.victory_background, "ceu");
    assert_eq!(config.boss_cycle, 11);
    assert_eq!(config.new_body_cycle, 210);
    assert_eq!(config.normal_music, "music/normal.ogg");
    assert_eq!(config.boss_music, "music/boss.ogg");
    assert_eq!(config.game_over_music, "music/gameover.ogg");
    assert_eq!(config.victory_music, "music/victory.ogg");
    assert!(config.is_valid());
}

#[test]
fn config_validity() {
    let mut config = SceneConfig::default();
    config.new_body_cycle = 0;
    assert!(!config.is_valid());
    config.new_body_cycle = 1;
    config.boss_cycle = u32::MAX;
    assert!(config.is_valid());
    config.new_body_cycle = u64::MAX;
    config.boss_cycle = 1;
    assert!(config.is_valid());
    config.boss_cycle = 2;
    assert!(!config.is_valid());
    config.boss_cycle = 0;
    assert!(config.is_valid());
    config.new_body_cycle = 0;
    assert!(config.is_valid());
    config.boss_cycle = 1;
    assert!(!config.is_valid());
    config.new_body_cycle = 4294967297;
    config.boss_cycle = 4294967295;
    assert!(config.is_valid());
    config.new_body_cycle = 4294967298;
    assert!(!config.is_valid());
}

#[test]
fn config_lookups() {
    let config = SceneConfig::default();
    assert_eq!(config.music(Track::Normal), "music/normal.ogg");
    assert_eq!(config.music(Track::Boss), "music/boss.ogg");
    assert_eq!(config.music(Track::GameOver), "music/gameover.ogg");
    assert_eq!(config.music(Track::Victory), "music/victory.ogg");
    assert_eq!(config.background(Backdrop::Main), "cenario");
    assert_eq!(config.background(Backdrop::Defeat), "inferno");
    assert_eq!(config.background(Backdrop::Victory), "ceu");
}

#[test]
fn background_fills_the_screen() {
    let background = create_background("inferno".to_string());
    assert_eq!(background.sprite, "inferno");
    assert_eq!((background.x, background.y), (400, 300));
}

#[test]
fn prompt_of_the_waiting_screen() {
    let prompt = prompt();
    assert_eq!(prompt.text, "Press ENTER to start...");
    assert_eq!(prompt.font_size, 72);
    assert_eq!((prompt.x, prompt.y), (400, 300));
}

#[test]
fn labels_are_placed_in_the_corners() {
    let fps = create_label(LabelVariable::FramesPerSecond);
    assert_eq!((fps.bind_variable, fps.font_size, fps.x, fps.y), (LabelVariable::FramesPerSecond, 48, 20, 587));
    let lives = create_label(LabelVariable::HeroLives);
    assert_eq!((lives.bind_variable, lives.font_size, lives.x, lives.y), (LabelVariable::HeroLives, 48, 10, 20));
    let score = create_label(LabelVariable::Score);
    assert_eq!((score.bind_variable, score.font_size, score.x, score.y), (LabelVariable::Score, 48, 730, 20));
    let version = create_label(LabelVariable::EngineVersion);
    assert_eq!(
        (version.bind_variable, version.font_size, version.x, version.y),
        (LabelVariable::EngineVersion, 48, 730, 587)
    );
}
