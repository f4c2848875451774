// The mock peripherals.
use chip8::hal::generic::{GenericHardware, GenericHardwareError};
use chip8::hal::mocks::{
    MockBuzzer, MockDelay, MockDraw, MockHardware, MockKeypad, MockRng, MockScreen, ScreenCommand,
};
use chip8::hal::{BuzzerExt, DelayExt, HardwareExt, KeypadExt, RngExt, ScreenExt};

#[test]
fn hal_screen() {
    let mut screen = MockScreen::default();
    screen.draw(1, 1, &[1, 2, 3]).unwrap();
    screen.clear().unwrap();
    screen.draw(2, 2, &[2, 3, 4]).unwrap();

    assert_eq!(
        screen.draws,
        vec![
            MockDraw::xor(1, 1, &[1, 2, 3]),
            MockDraw::Clear,
            MockDraw::xor(2, 2, &[2, 3, 4]),
        ],
    );

    assert_eq!(screen.collision, false);

    screen.set_collision(true);
    assert_eq!(screen.collision, true);
}

#[test]
fn hal_keypad() {
    let mut keypad = MockKeypad::default();
    let mut delay = MockDelay::default();

    assert_eq!(keypad.key_is_pressed().unwrap(), false);
    assert_eq!(keypad.read_key(&mut delay).unwrap(), None);

    keypad.set_sequence(vec![Some(1), Some(2), None, Some(3)]);

    assert_eq!(keypad.key_is_pressed().unwrap(), true);
    assert_eq!(keypad.read_key(&mut delay).unwrap(), Some(1));
    assert_eq!(keypad.read_key(&mut delay).unwrap(), Some(2));

    assert_eq!(keypad.key_is_pressed().unwrap(), false);
    assert_eq!(keypad.read_key(&mut delay).unwrap(), None);

    assert_eq!(keypad.read_key(&mut delay).unwrap(), Some(3));
    assert_eq!(keypad.read_key(&mut delay).unwrap(), None);
}

#[test]
fn hal_rng() {
    let mut rng = MockRng::default();

    assert!(rng.rand().is_err());

    rng.set_sequence(vec![1, 2, 3]);

    assert_eq!(rng.rand().unwrap(), 1);
    assert_eq!(rng.rand().unwrap(), 2);
    assert_eq!(rng.rand().unwrap(), 3);
    assert_eq!(rng.rand().unwrap(), 1);
}

#[test]
fn hal_buzzer() {
    let mut buzzer = MockBuzzer::default();

    assert_eq!(buzzer.state, None);

    buzzer.set_state(true).unwrap();
    assert_eq!(buzzer.state, Some(true));

    buzzer.set_state(false).unwrap();
    assert_eq!(buzzer.state, Some(false));
}

#[test]
fn mocks_screen() {
    let mut screen = MockScreen::default();
    screen.draw(1, 1, &[1, 2, 3]).unwrap();
    screen.clear().unwrap();
    screen.draw(2, 2, &[2, 3, 4]).unwrap();

    assert_eq!(
        screen.draws,
        vec![
            ScreenCommand::xor(1, 1, &[1, 2, 3]),
            ScreenCommand::Clear,
            ScreenCommand::xor(2, 2, &[2, 3, 4]),
        ],
    );

    assert_eq!(screen.collision, false);

    screen.set_collision(true);
    assert_eq!(screen.collision, true);
}

#[test]
fn mocks_keypad() {
    let mut keypad = MockKeypad::default();
    let mut delay = MockDelay::default();

    assert_eq!(keypad.key_is_pressed().unwrap(), false);
    assert_eq!(keypad.read_key(&mut delay).unwrap(), None);

    keypad.set_sequence(vec![Some(1), Some(2), None, Some(3)]);

    assert_eq!(keypad.key_is_pressed().unwrap(), true);
    assert_eq!(keypad.read_key(&mut delay).unwrap(), Some(1));
    assert_eq!(keypad.read_key(&mut delay).unwrap(), Some(2));

    assert_eq!(keypad.key_is_pressed().unwrap(), false);
    assert_eq!(keypad.read_key(&mut delay).unwrap(), None);

    assert_eq!(keypad.read_key(&mut delay).unwrap(), Some(3));
    assert_eq!(keypad.read_key(&mut delay).unwrap(), None);
}

#[test]
fn mocks_rng() {
    let mut rng = MockRng::default();

    assert!(rng.rand().is_err());

    rng.set_sequence(vec![1, 2, 3]);

    assert_eq!(rng.rand().unwrap(), 1);
    assert_eq!(rng.rand().unwrap(), 2);
    assert_eq!(rng.rand().unwrap(), 3);
    assert_eq!(rng.rand().unwrap(), 1);
}

#[test]
fn mocks_buzzer() {
    let mut buzzer = MockBuzzer::default();

    assert_eq!(buzzer.state, None);

    buzzer.set_state(true).unwrap();
    assert_eq!(buzzer.state, Some(true));

    buzzer.set_state(false).unwrap();
    assert_eq!(buzzer.state, Some(false));
}

#[test]
fn screen() {
    let mut screen = MockScreen::default();
    screen.draw(1, 1, &[1, 2, 3]).unwrap();
    screen.clear().unwrap();
    screen.draw(2, 2, &[2, 3, 4]).unwrap();

    assert_eq!(
        screen.draws,
        vec![
            ScreenCommand::Draw {
                x: 1,
                y: 1,
                data: vec![1, 2, 3]
            },
            ScreenCommand::Clear,
            ScreenCommand::Draw {
                x: 2,
                y: 2,
                data: vec![2, 3, 4]
            },
        ],
    );

    assert_eq!(screen.collision, false);

    screen.set_collision(true);
    assert_eq!(screen.collision, true);
}

#[test]
fn keypad() {
    let mut keypad = MockKeypad::default();
    let mut delay = MockDelay::default();

    assert_eq!(keypad.key_is_pressed().unwrap(), false);
    assert_eq!(keypad.read_key(&mut delay).unwrap(), None);

    keypad.set_sequence(vec![Some(1), Some(2), None, Some(3)]);

    assert_eq!(keypad.key_is_pressed().unwrap(), true);
    assert_eq!(keypad.read_key(&mut delay).unwrap(), Some(1));
    assert_eq!(keypad.read_key(&mut delay).unwrap(), Some(2));

    assert_eq!(keypad.key_is_pressed().unwrap(), false);
    assert_eq!(keypad.read_key(&mut delay).unwrap(), None);

    assert_eq!(keypad.read_key(&mut delay).unwrap(), Some(3));
    assert_eq!(keypad.read_key(&mut delay).unwrap(), None);
}

#[test]
fn buzzer() {
    let mut buzzer = MockBuzzer::default();

    assert_eq!(buzzer.state, None);

    buzzer.set_state(true).unwrap();
    assert_eq!(buzzer.state, Some(true));

    buzzer.set_state(false).unwrap();
    assert_eq!(buzzer.state, Some(false));
}

#[test]
fn generic_hardware_hands_calls_on_and_answers_back() {
    let mut hw = GenericHardware::new(
        MockDelay::default(),
        MockScreen::default(),
        MockKeypad::default(),
        MockBuzzer::default(),
        MockRng::default(),
    );
    hw.keypad().set_sequence(vec![Some(0xB), None, Some(2)]);
    hw.rng().set_sequence(vec![7, 8]);
    hw.screen().set_collision(true);
    assert!(matches!(hw.keypad().key_is_pressed(), Ok(true)));
    let hardware = hw.hardware();
    assert!(matches!(hardware.keypad.read_key(hardware.delay), Ok(Some(0xB))));
    assert!(matches!(hardware.keypad.read_key(hardware.delay), Ok(None)));
    assert!(matches!(hw.keypad().key_is_pressed(), Ok(true)));
    assert_eq!(hw.keypad().sequence, vec![Some(2)]);
    assert!(matches!(hw.rng().rand(), Ok(7)));
    assert!(matches!(hw.rng().rand(), Ok(8)));
    assert!(matches!(hw.rng().rand(), Ok(7)));
    assert!(matches!(hw.screen().draw(9, 8, &[7, 6]), Ok(true)));
    assert_eq!(hw.screen().draws, vec![MockDraw::xor(9, 8, &[7, 6])]);
    assert!(matches!(hw.buzzer().set_state(false), Ok(())));
    assert_eq!(hw.buzzer().state, Some(false));
    hw.delay().set_ticks(3);
    assert!(matches!(hw.delay().delay_micros(10), Ok(())));
    assert_eq!(hw.delay().ticks, 3);
}

#[test]
fn a_reading_that_is_no_key_counts_as_no_key() {
    let mut keypad = MockKeypad::default();
    let mut delay = MockDelay::default();
    keypad.set_sequence(vec![Some(15), Some(16), Some(255), Some(0)]);
    assert_eq!(keypad.key_is_pressed(), Ok(true));
    assert_eq!(keypad.read_key(&mut delay), Ok(Some(15)));
    assert_eq!(keypad.key_is_pressed(), Ok(false));
    assert_eq!(keypad.read_key(&mut delay), Ok(None));
    assert_eq!(keypad.read_key(&mut delay), Ok(None));
    assert_eq!(keypad.read_key(&mut delay), Ok(Some(0)));
    assert_eq!(keypad.read_key(&mut delay), Ok(None));
}

#[test]
fn mock_delay_reports_its_ticks_once() {
    let mut delay = MockDelay::default();
    assert_eq!(delay.delay_micros(1000), Ok(()));
    assert_eq!(delay.reset_ticks(), Ok(0));
    delay.set_ticks(7);
    assert_eq!(delay.reset_ticks(), Ok(7));
    assert_eq!(delay.reset_ticks(), Ok(0));
}

#[test]
fn mock_rng_keeps_its_place_when_the_sequence_changes() {
    let mut rng = MockRng::default();
    rng.set_sequence(vec![1, 2, 3]);
    assert_eq!(rng.rand(), Ok(1));
    assert_eq!(rng.rand(), Ok(2));
    rng.set_sequence(vec![7, 8]);
    // the position 2 is taken modulo the new length
    assert_eq!(rng.rand(), Ok(7));
    assert_eq!(rng.rand(), Ok(8));
    rng.set_sequence(vec![]);
    assert_eq!(rng.rand(), Err(()));
}

#[test]
fn mock_hardware_hands_out_its_peripherals() {
    let mut hw = MockHardware::new();
    hw.screen().set_collision(true);
    hw.keypad().set_sequence(vec![Some(4)]);
    hw.rng().set_sequence(vec![9]);
    assert_eq!(hw.screen().draw(0, 0, &[0xFF]), Ok(true));
    assert_eq!(hw.rng().rand(), Ok(9));
    assert_eq!(hw.buzzer().set_state(true), Ok(()));
    assert_eq!(hw.delay().delay_micros(5), Ok(()));
    let hardware = hw.hardware();
    assert_eq!(hardware.keypad.read_key(hardware.delay), Ok(Some(4)));
    assert_eq!(hw.buzzer.state, Some(true));
    assert_eq!(hw.screen.draws, vec![MockDraw::xor(0, 0, &[0xFF])]);
}

#[test]
fn generic_hardware_tags_errors_with_their_capability() {
    let mut hw = GenericHardware::new(
        MockDelay::default(),
        MockScreen::default(),
        MockKeypad::default(),
        MockBuzzer::default(),
        MockRng::default(),
    );
    // a mock generator without a sequence fails
    assert!(matches!(hw.rng().rand(), Err(GenericHardwareError::Rng(()))));
    hw.rng().set_sequence(vec![5]);
    assert!(matches!(hw.rng().rand(), Ok(5)));
    assert!(matches!(hw.screen().clear(), Ok(())));
    assert!(matches!(hw.screen().draw(1, 2, &[3]), Ok(false)));
    assert_eq!(
        hw.screen().draws,
        vec![MockDraw::Clear, MockDraw::xor(1, 2, &[3])]
    );
    assert!(matches!(hw.buzzer().set_state(true), Ok(())));
    assert_eq!(hw.buzzer().state, Some(true));
    assert!(matches!(hw.delay().delay_micros(1), Ok(())));
    let hardware = hw.hardware();
    assert!(matches!(hardware.keypad.read_key(hardware.delay), Ok(None)));
    assert!(matches!(hw.keypad().key_is_pressed(), Ok(false)));
}
