use nes::controller::{Controller, ControllerButtons};

#[test]
fn test_strobe_mode() {
    let mut joypad = Controller::new();
    joypad.write(1);
    joypad.set_button_pressed_status(ControllerButtons::BUTTON_A, true);
    for _x in 0..10 {
        assert_eq!(joypad.read(), 1);
    }
}

#[test]
fn test_strobe_mode_on_off() {
    let mut joypad = Controller::new();

    joypad.write(0);
    joypad.set_button_pressed_status(ControllerButtons::RIGHT, true);
    joypad.set_button_pressed_status(ControllerButtons::LEFT, true);
    joypad.set_button_pressed_status(ControllerButtons::SELECT, true);
    joypad.set_button_pressed_status(ControllerButtons::BUTTON_B, true);

    for _ in 0..=1 {
        assert_eq!(joypad.read(), 0);
        assert_eq!(joypad.read(), 1);
        assert_eq!(joypad.read(), 1);
        assert_eq!(joypad.read(), 0);
        assert_eq!(joypad.read(), 0);
        assert_eq!(joypad.read(), 0);
        assert_eq!(joypad.read(), 1);
        assert_eq!(joypad.read(), 1);

        for _x in 0..10 {
            assert_eq!(joypad.read(), 1);
        }
        joypad.write(1);
        joypad.write(0);
    }
}

#[test]
fn button_masks() {
    assert_eq!(ControllerButtons::BUTTON_A.mask(), 0b0000_0001);
    assert_eq!(ControllerButtons::BUTTON_B.mask(), 0b0000_0010);
    assert_eq!(ControllerButtons::SELECT.mask(), 0b0000_0100);
    assert_eq!(ControllerButtons::START.mask(), 0b0000_1000);
    assert_eq!(ControllerButtons::UP.mask(), 0b0001_0000);
    assert_eq!(ControllerButtons::DOWN.mask(), 0b0010_0000);
    assert_eq!(ControllerButtons::LEFT.mask(), 0b0100_0000);
    assert_eq!(ControllerButtons::RIGHT.mask(), 0b1000_0000);
}

#[test]
fn releasing_a_button_clears_its_bit() {
    let mut joypad = Controller::new();
    joypad.set_button_pressed_status(ControllerButtons::START, true);
    joypad.set_button_pressed_status(ControllerButtons::UP, true);
    assert_eq!(joypad.button_status, 0b0001_1000);
    joypad.set_button_pressed_status(ControllerButtons::START, false);
    assert_eq!(joypad.button_status, 0b0001_0000);
    joypad.set_button_pressed_status(ControllerButtons::START, false);
    assert_eq!(joypad.button_status, 0b0001_0000);
}

#[test]
fn write_looks_at_bit_zero_only() {
    let mut joypad = Controller::new();
    joypad.set_button_pressed_status(ControllerButtons::BUTTON_B, true);
    joypad.write(0xFE);
    assert_eq!(joypad.read(), 0);
    assert_eq!(joypad.read(), 1);
    joypad.write(0x03);
    assert_eq!(joypad.read(), 0);
    assert_eq!(joypad.read(), 0);
}
