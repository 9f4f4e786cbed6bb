use nes::bus::{Bus, IgnoreFrames};
use nes::cartridge::{Mirroring, Rom};
use nes::cpu::{Memory, CPU};
use nes::screen::{color, read_screen_state, ScreenColor};

fn new_cpu() -> CPU<IgnoreFrames> {
    let rom = Rom { prg_rom: vec![1; 0x8000], chr_rom: vec![2; 0x2000], screen_mirroring: Mirroring::VERTICAL };
    CPU::new(Bus::new(rom, IgnoreFrames))
}

fn shades() -> [(u8, u8, u8); 9] {
    [
        (0, 0, 0),
        (255, 255, 255),
        (128, 128, 128),
        (255, 0, 0),
        (0, 255, 0),
        (0, 0, 255),
        (255, 0, 255),
        (255, 255, 0),
        (0, 255, 255),
    ]
}

#[test]
fn colour_numbers() {
    assert_eq!(color(0), ScreenColor::Black);
    assert_eq!(color(1), ScreenColor::White);
    assert_eq!(color(2), ScreenColor::Grey);
    assert_eq!(color(9), ScreenColor::Grey);
    assert_eq!(color(3), ScreenColor::Red);
    assert_eq!(color(10), ScreenColor::Red);
    assert_eq!(color(4), ScreenColor::Green);
    assert_eq!(color(11), ScreenColor::Green);
    assert_eq!(color(5), ScreenColor::Blue);
    assert_eq!(color(12), ScreenColor::Blue);
    assert_eq!(color(6), ScreenColor::Magenta);
    assert_eq!(color(13), ScreenColor::Magenta);
    assert_eq!(color(7), ScreenColor::Yellow);
    assert_eq!(color(14), ScreenColor::Yellow);
    assert_eq!(color(8), ScreenColor::Cyan);
    assert_eq!(color(15), ScreenColor::Cyan);
    assert_eq!(color(255), ScreenColor::Cyan);
}

#[test]
fn colour_indices_count_up() {
    let all = [
        ScreenColor::Black,
        ScreenColor::White,
        ScreenColor::Grey,
        ScreenColor::Red,
        ScreenColor::Green,
        ScreenColor::Blue,
        ScreenColor::Magenta,
        ScreenColor::Yellow,
        ScreenColor::Cyan,
    ];
    for (i, c) in all.iter().enumerate() {
        assert_eq!(c.index(), i);
    }
}

#[test]
fn screen_is_read_and_changes_are_reported() {
    let mut cpu = new_cpu();
    let mut frame = [0u8; 32 * 3 * 32];
    // all cells hold 0, which is black: nothing to change
    assert_eq!(read_screen_state(&mut cpu, &mut frame, &shades()), false);
    assert!(frame.iter().all(|b| *b == 0));

    cpu.mem_write(0x0200, 1);
    cpu.mem_write(0x0201, 3);
    cpu.mem_write(0x05FF, 12);
    cpu.mem_write(0x0600, 1); // behind the screen
    cpu.mem_write(0x01FF, 1); // before the screen
    assert_eq!(read_screen_state(&mut cpu, &mut frame, &shades()), true);
    assert_eq!(&frame[0..6], &[255, 255, 255, 255, 0, 0]);
    assert_eq!(&frame[3069..3072], &[0, 0, 255]);
    assert_eq!(frame.iter().filter(|b| **b != 0).count(), 5);
    // nothing new: no update
    assert_eq!(read_screen_state(&mut cpu, &mut frame, &shades()), false);
    // another number for the same colour: no update
    cpu.mem_write(0x0201, 10);
    assert_eq!(read_screen_state(&mut cpu, &mut frame, &shades()), false);
    cpu.mem_write(0x0201, 0);
    assert_eq!(read_screen_state(&mut cpu, &mut frame, &shades()), true);
    assert_eq!(&frame[0..6], &[255, 255, 255, 0, 0, 0]);
}
