use npong::keys::{Key, KeySet};

#[test]
fn key_set_adds_and_removes() {
    let mut s = KeySet::new();
    assert!(!s.contains(&Key::KeyA));
    s.insert(Key::KeyA);
    s.insert(Key::KeyA);
    s.insert(Key::Other(42));
    assert!(s.contains(&Key::KeyA));
    assert!(s.contains(&Key::Other(42)));
    assert!(!s.contains(&Key::Other(41)));
    s.remove(&Key::KeyA);
    assert!(!s.contains(&Key::KeyA));
    assert!(s.contains(&Key::Other(42)));
}

#[test]
fn releasing_space_twice_restores_the_toggle() {
    let mut input = npong::local::systems::input::Input::new();
    input.get_inputs(&Key::Space, false);
    assert!(input.toggled.contains(&Key::Space));
    input.get_inputs(&Key::Space, false);
    assert!(!input.toggled.contains(&Key::Space));
    input.get_inputs(&Key::Space, true);
    assert!(!input.pressed.contains(&Key::Space));
}
