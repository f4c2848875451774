// The frame buffer and the keys.
use chip8::hal::{BuzzerExt, RngExt};
use chip8::io::{keycode_to_event, query, Draw, Key, Keycode, NilBuzzer, NilRng, Sc64x32, Viewport};

fn row(pixels: &[usize]) -> String {
    (0..64)
        .map(|x| if pixels.contains(&x) { '█' } else { ' ' })
        .collect()
}

#[test]
fn a_sprite_is_drawn_by_exclusive_or() {
    let mut screen = Sc64x32::new();
    assert_eq!((screen.width(), screen.height()), (64, 32));

    let draw = screen.draw(2, 1, &[0b1010_0000, 0, 0b0000_0001]);
    assert!(!draw.collision);
    // the row without pixels changes nothing
    assert_eq!(draw.scans, vec![(1, row(&[2, 4])), (3, row(&[9]))]);

    // drawing over it erases pixels, and leaves the others
    let draw = screen.draw(4, 1, &[0b1100_0000]);
    assert!(draw.collision);
    assert_eq!(draw.scans, vec![(1, row(&[2, 5]))]);

    // no collision where no set pixel is hit
    let draw = screen.draw(0, 1, &[0b1100_0000]);
    assert!(!draw.collision);
    assert_eq!(draw.scans, vec![(1, row(&[0, 1, 2, 5]))]);

    screen.clear();
    let draw = screen.draw(0, 0, &[0x80]);
    assert!(!draw.collision);
    assert_eq!(draw.scans, vec![(0, row(&[0]))]);
}

#[test]
fn sprites_wrap_at_the_edges() {
    let mut screen = Sc64x32::default();
    let draw = screen.draw(62, 31, &[0xFF, 0x81]);
    assert!(!draw.collision);
    assert_eq!(
        draw.scans,
        vec![
            (31, row(&[62, 63, 0, 1, 2, 3, 4, 5])),
            (0, row(&[62, 5])),
        ]
    );
    // the coordinates are taken modulo the size of the display
    let mut other = Sc64x32::new();
    let again = other.draw(62 + 64, 31 + 32, &[0xFF, 0x81]);
    assert_eq!(again.scans, draw.scans);
    let again = other.draw(254, 255, &[0xFF, 0x81]);
    assert!(again.collision);
    assert_eq!(again.scans, vec![(31, row(&[])), (0, row(&[]))]);
}

#[test]
fn a_sprite_longer_than_the_display_meets_itself() {
    let mut screen = Sc64x32::new();
    let mut sprite = vec![0u8; 33];
    sprite[0] = 0xF0;
    sprite[32] = 0x30;
    let draw = screen.draw(0, 5, &sprite);
    assert!(draw.collision);
    assert_eq!(
        draw.scans,
        vec![(5, row(&[0, 1, 2, 3])), (5, row(&[0, 1]))]
    );
}

#[test]
fn an_outcome_starts_without_changes() {
    let draw = Draw::new(15);
    assert!(draw.scans.is_empty());
    assert!(!draw.collision);
}

#[test]
fn keys_of_the_keyboard() {
    let digits = [
        Keycode::Key0,
        Keycode::Key1,
        Keycode::Key2,
        Keycode::Key3,
        Keycode::Key4,
        Keycode::Key5,
        Keycode::Key6,
        Keycode::Key7,
        Keycode::Key8,
        Keycode::Key9,
        Keycode::A,
        Keycode::B,
        Keycode::C,
        Keycode::D,
        Keycode::E,
        Keycode::F,
    ];
    for (value, &key) in digits.iter().enumerate() {
        assert_eq!(keycode_to_event(key), Some(Key::Symbol(value as u8)));
    }
    assert_eq!(keycode_to_event(Keycode::Escape), Some(Key::Exit));
    assert_eq!(keycode_to_event(Keycode::Other), None);
}

#[test]
fn the_last_key_with_a_meaning_counts() {
    assert_eq!(query(&[]), None);
    assert_eq!(query(&[Keycode::Other, Keycode::Other]), None);
    assert_eq!(
        query(&[Keycode::Key1, Keycode::B, Keycode::Other]),
        Some(Key::Symbol(0xB))
    );
    assert_eq!(
        query(&[Keycode::Escape, Keycode::Key7]),
        Some(Key::Symbol(7))
    );
    assert_eq!(query(&[Keycode::Key7, Keycode::Escape]), Some(Key::Exit));
}

#[test]
fn stand_ins() {
    assert_eq!(NilBuzzer.set_state(true), Ok(()));
    assert_eq!(NilRng.rand(), Ok(1));
    assert_eq!(NilRng.rand(), Ok(1));
}
