use phi::events::{Event, Events, ImmediateEvents, Key};

const KEYS: [Key; 7] = [Key::Escape, Key::Up, Key::Down, Key::Left, Key::Right, Key::Space, Key::Enter];

#[test]
fn new_snapshot_is_quiet() {
    let events = Events::new();
    assert_eq!(events.now, ImmediateEvents::new());
    assert_eq!(events.previous, ImmediateEvents::new());
    assert!(!events.now.quit);
    for key in KEYS {
        assert!(!events.held(key));
        assert_eq!(events.now.key(key), None);
    }
}

#[test]
fn every_key_maps_to_its_own_key_code() {
    let codes = [27, 1073741906, 1073741905, 1073741904, 1073741903, 32, 13];
    for (key, code) in KEYS.iter().zip(codes) {
        assert_eq!(key.keycode(), code);
        assert_eq!(Key::from_keycode(code), Some(*key));
    }
}

#[test]
fn untracked_key_codes_map_to_nothing() {
    for code in [0, 1, 12, 14, 26, 28, 31, 33, 97, 1073741902, 1073741907, -1, i32::MAX, i32::MIN] {
        assert_eq!(Key::from_keycode(code), None);
    }
}

#[test]
fn key_down_is_an_edge_only_once() {
    let mut events = Events::new();
    events.pump(&vec![Event::KeyDown(Key::Space)]);
    assert_eq!(events.now.key_space, Some(true));
    assert!(events.key_space);

    events.pump(&vec![Event::KeyDown(Key::Space)]);
    assert_eq!(events.now.key_space, None);
    assert!(events.key_space);
    assert_eq!(events.previous.key_space, Some(true));

    events.pump(&vec![]);
    assert_eq!(events.now.key_space, None);
    assert_eq!(events.previous.key_space, None);
    assert!(events.key_space);
}

#[test]
fn key_up_releases() {
    let mut events = Events::new();
    events.pump(&vec![Event::KeyDown(Key::Left)]);
    events.pump(&vec![Event::KeyUp(Key::Left)]);
    assert_eq!(events.now.key_left, Some(false));
    assert!(!events.key_left);
    assert_eq!(events.previous.key_left, Some(true));
}

#[test]
fn reports_are_taken_in_order() {
    let mut events = Events::new();
    events.pump(&vec![Event::KeyDown(Key::Up), Event::KeyUp(Key::Up)]);
    assert_eq!(events.now.key_up, Some(false));
    assert!(!events.key_up);

    events.pump(&vec![Event::KeyUp(Key::Down), Event::KeyDown(Key::Down)]);
    assert_eq!(events.now.key_down, Some(true));
    assert!(events.key_down);

    events.pump(&vec![Event::KeyDown(Key::Down), Event::KeyUp(Key::Down), Event::KeyDown(Key::Down)]);
    assert_eq!(events.now.key_down, Some(true));
    assert!(events.key_down);
}

#[test]
fn keys_do_not_disturb_each_other() {
    let mut events = Events::new();
    events.pump(&vec![Event::KeyDown(Key::Escape), Event::KeyDown(Key::Enter), Event::KeyUp(Key::Right)]);
    assert_eq!(events.now.key_escape, Some(true));
    assert_eq!(events.now.key_enter, Some(true));
    assert_eq!(events.now.key_right, Some(false));
    assert_eq!(events.now.key_up, None);
    assert_eq!(events.now.key_down, None);
    assert_eq!(events.now.key_left, None);
    assert_eq!(events.now.key_space, None);
    assert!(events.key_escape && events.key_enter);
    assert!(!events.key_right && !events.key_up && !events.key_down && !events.key_left && !events.key_space);
    assert!(!events.now.quit);
}

#[test]
fn quit_lasts_one_frame() {
    let mut events = Events::new();
    events.pump(&vec![Event::Quit]);
    assert!(events.now.quit);
    assert!(!events.previous.quit);
    events.pump(&vec![]);
    assert!(!events.now.quit);
    assert!(events.previous.quit);
}

#[test]
fn handle_takes_one_report() {
    let mut events = Events::new();
    events.handle(Event::KeyDown(Key::Up));
    events.handle(Event::Quit);
    assert_eq!(events.now.key(Key::Up), Some(true));
    assert!(events.held(Key::Up));
    assert!(events.now.quit);
    assert_eq!(events.previous, ImmediateEvents::new());
}

#[test]
fn edges_agree_with_held_keys() {
    let runs = [
        vec![Event::KeyDown(Key::Up), Event::KeyDown(Key::Up), Event::KeyUp(Key::Down)],
        vec![Event::KeyUp(Key::Up), Event::KeyDown(Key::Down), Event::Quit],
        vec![],
        vec![Event::KeyDown(Key::Down), Event::KeyUp(Key::Down), Event::KeyDown(Key::Up)],
    ];
    let mut events = Events::new();
    for run in runs.iter() {
        events.pump(run);
        for key in KEYS {
            if let Some(pressed) = events.now.key(key) {
                assert_eq!(events.held(key), pressed);
            }
        }
    }
}
