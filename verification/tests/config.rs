use padbind::config::{default_config, Controls, KeyCode};
use padbind::profile::{find_key, Profile};

fn names(v: &Vec<(String, KeyCode)>) -> Vec<&str> {
    v.iter().map(|e| e.0.as_str()).collect()
}

#[test]
fn default_config_is_wonderful_world() {
    let c = default_config();
    assert_eq!(c.name, "Wonderful World");
    assert_eq!(c.controls.len(), 2);
    let p1 = &c.controls[0];
    assert_eq!(names(&p1.directions), vec!["Up", "Down", "Left", "Right"]);
    assert_eq!(
        p1.directions.iter().map(|e| e.1).collect::<Vec<_>>(),
        vec![KeyCode::Unicode('t'), KeyCode::Unicode('b'), KeyCode::Unicode('f'), KeyCode::Unicode('h')]
    );
    assert_eq!(
        names(&p1.actions),
        vec!["Punch", "Kick", "Slash", "Heavy Slash", "Original Action", "Special Action", "Pause"]
    );
    assert_eq!(
        p1.actions.iter().map(|e| e.1).collect::<Vec<_>>(),
        vec![
            KeyCode::Unicode('a'), KeyCode::Unicode('s'), KeyCode::Unicode('d'), KeyCode::Unicode('q'),
            KeyCode::Unicode('w'), KeyCode::Unicode('e'), KeyCode::Escape,
        ]
    );
    let p2 = &c.controls[1];
    assert_eq!(
        p2.directions.iter().map(|e| e.1).collect::<Vec<_>>(),
        vec![KeyCode::Numpad8, KeyCode::Numpad2, KeyCode::Numpad4, KeyCode::Numpad6]
    );
    assert_eq!(
        p2.actions.iter().map(|e| e.1).collect::<Vec<_>>(),
        vec![
            KeyCode::Unicode('j'), KeyCode::Unicode('k'), KeyCode::Unicode('l'), KeyCode::Unicode('i'),
            KeyCode::Unicode('o'), KeyCode::Unicode('p'), KeyCode::Escape,
        ]
    );
}

#[test]
fn default_controls_make_profiles() {
    let mut c = default_config();
    let second = c.controls.pop().unwrap();
    let first = c.controls.pop().unwrap();
    let p1 = Profile::from_controls(first).unwrap();
    assert_eq!((p1.up, p1.down, p1.left, p1.right), (KeyCode::Unicode('t'), KeyCode::Unicode('b'), KeyCode::Unicode('f'), KeyCode::Unicode('h')));
    assert_eq!(p1.action_count(), 7);
    assert_eq!(p1.action_name(3), "Heavy Slash");
    let p2 = Profile::from_controls(second).unwrap();
    assert_eq!((p2.up, p2.down, p2.left, p2.right), (KeyCode::Numpad8, KeyCode::Numpad2, KeyCode::Numpad4, KeyCode::Numpad6));
}

#[test]
fn profile_needs_all_four_directions() {
    let controls = Controls {
        directions: vec![("Up".to_string(), 1u32), ("Down".to_string(), 2), ("Left".to_string(), 3)],
        actions: vec![("Punch".to_string(), 9)],
    };
    assert!(Profile::from_controls(controls).is_none());
}

#[test]
fn find_key_takes_first_match_and_exact_names() {
    let v = vec![("up".to_string(), 0u32), ("Up".to_string(), 1), ("Up".to_string(), 2)];
    assert_eq!(find_key(&v, "Up"), Some(1));
    assert_eq!(find_key(&v, "UP"), None);
    assert_eq!(find_key(&Vec::<(String, u32)>::new(), "Up"), None);
}

#[test]
fn distinct_direction_names_give_their_keys_in_any_order() {
    let controls = Controls {
        directions: vec![
            ("Right".to_string(), 4u32),
            ("Left".to_string(), 3),
            ("Up".to_string(), 1),
            ("Down".to_string(), 2),
        ],
        actions: vec![("Punch".to_string(), 9), ("Kick".to_string(), 10)],
    };
    let p = Profile::from_controls(controls).unwrap();
    assert_eq!((p.up, p.down, p.left, p.right), (1, 2, 3, 4));
    assert_eq!(p.action_name(1), "Kick");
}
