use gameboy_rs::gameboy::cpu::Cpu;
use gameboy_rs::gameboy::cpu::InstructionKind;
use gameboy_rs::gameboy::input::Input;
use gameboy_rs::gameboy::input::Key;
use gameboy_rs::gameboy::interupt::InterruptFlag;
use gameboy_rs::gameboy::interupt::Interupt;

#[test]
fn controller_starts_disabled() {
    let interupt = Interupt::new();
    assert!(!interupt.is_master_enabled());
    assert_eq!(interupt.enable, 0);
    assert_eq!(interupt.flags, 0);
    assert_eq!(interupt.get_interupt_state(), None);
}

#[test]
fn requests_set_their_bit() {
    let mut interupt = Interupt::new();
    interupt.request_interupt(InterruptFlag::Timer);
    assert_eq!(interupt.flags, 0b00100);
    interupt.request_interupt(InterruptFlag::Timer);
    assert_eq!(interupt.flags, 0b00100);
    interupt.request_interupt(InterruptFlag::VBlank);
    interupt.request_interupt(InterruptFlag::Stat);
    interupt.request_interupt(InterruptFlag::Serial);
    interupt.request_interupt(InterruptFlag::Joypad);
    assert_eq!(interupt.flags, 0b11111);
    interupt.clear_interupt(InterruptFlag::Stat);
    assert_eq!(interupt.flags, 0b11101);
    interupt.clear_interupt(InterruptFlag::Stat);
    assert_eq!(interupt.flags, 0b11101);
}

#[test]
fn highest_priority_wins() {
    let interupt = Interupt::new();
    assert_eq!(interupt.get_interupt_state_latched(0x1F, 0x1F), Some(InterruptFlag::VBlank));
    assert_eq!(interupt.get_interupt_state_latched(0x1E, 0x1F), Some(InterruptFlag::Stat));
    assert_eq!(interupt.get_interupt_state_latched(0x1F, 0x1C), Some(InterruptFlag::Timer));
    assert_eq!(interupt.get_interupt_state_latched(0x18, 0x1F), Some(InterruptFlag::Serial));
    assert_eq!(interupt.get_interupt_state_latched(0x10, 0x10), Some(InterruptFlag::Joypad));
    assert_eq!(interupt.get_interupt_state_latched(0x0F, 0x10), None);
    assert_eq!(interupt.get_interupt_state_latched(0xE0, 0xE0), None);
    assert_eq!(interupt.get_interupt_state_latched(0x00, 0x1F), None);
}

#[test]
fn vectors() {
    assert_eq!(Interupt::get_interupt_vector(InterruptFlag::VBlank), 0x40);
    assert_eq!(Interupt::get_interupt_vector(InterruptFlag::Stat), 0x48);
    assert_eq!(Interupt::get_interupt_vector(InterruptFlag::Timer), 0x50);
    assert_eq!(Interupt::get_interupt_vector(InterruptFlag::Serial), 0x58);
    assert_eq!(Interupt::get_interupt_vector(InterruptFlag::Joypad), 0x60);
}

#[test]
fn request_during_halt_is_remembered() {
    let mut interupt = Interupt::new();
    interupt.request_interupt(InterruptFlag::Serial);
    assert!(!interupt.halt_interupt_pending);
    interupt.waiting_for_halt_if = true;
    interupt.request_interupt(InterruptFlag::Serial);
    assert!(interupt.halt_interupt_pending);
}

#[test]
fn handle_injects_service_routine_between_instructions() {
    let mut interupt = Interupt::new();
    let mut cpu = Cpu::new();
    interupt.enable = 0x04;
    interupt.request_interupt(InterruptFlag::Timer);
    // Interrupts are disabled: nothing happens.
    Interupt::handle(&mut interupt, &mut cpu);
    assert!(!cpu.is_processing_instruction());
    interupt.enable_master();
    cpu.halted = true;
    Interupt::handle(&mut interupt, &mut cpu);
    let current = cpu.instruction.unwrap();
    assert_eq!(current.kind, InstructionKind::Interrupt);
    assert_eq!(current.position, 0);
    assert!(!cpu.halted);
    // The request is only taken back when the routine dispatches.
    assert_eq!(interupt.flags, 0x04);
}

#[test]
fn handle_leaves_a_busy_cpu_alone() {
    let mut interupt = Interupt::new();
    let mut cpu = Cpu::new();
    interupt.enable = 0x01;
    interupt.enable_master();
    Interupt::handle(&mut interupt, &mut cpu);
    assert!(!cpu.is_processing_instruction());
    interupt.request_interupt(InterruptFlag::Stat);
    Interupt::handle(&mut interupt, &mut cpu);
    assert!(!cpu.is_processing_instruction());
    interupt.disable_master();
    assert!(!interupt.is_master_enabled());
}

#[test]
fn joypad_reads_selected_column() {
    let mut input = Input::new();
    assert_eq!(input.read_joyp(), 0xCF);
    input.set_column_line(0x10);
    assert_eq!(input.read_joyp(), 0xCF);
    assert!(input.key_down(Key::A));
    assert_eq!(input.read_joyp(), 0xCE);
    assert!(input.key_down(Key::Start));
    assert_eq!(input.read_joyp(), 0xC6);
    assert!(input.key_down(Key::Left));
    assert_eq!(input.read_joyp(), 0xC6);
    input.set_column_line(0x20);
    assert_eq!(input.read_joyp(), 0xCD);
    assert!(input.key_down(Key::Right));
    assert!(input.key_down(Key::Up));
    assert!(input.key_down(Key::Down));
    assert_eq!(input.read_joyp(), 0xC0);
    input.key_up(Key::Down);
    assert_eq!(input.read_joyp(), 0xC8);
    input.set_column_line(0xFF);
    assert_eq!(input.column_line, 0x30);
    input.set_column_line(0x0F);
    assert_eq!(input.read_joyp(), 0xC0);
}

#[test]
fn key_down_reports_only_the_press() {
    let mut input = Input::new();
    assert!(input.key_down(Key::B));
    assert!(!input.key_down(Key::B));
    assert!(input.is_held(Key::B));
    input.key_up(Key::B);
    assert!(!input.is_held(Key::B));
    assert!(input.key_down(Key::B));
    assert!(input.key_down(Key::Select));
    input.set_column_line(0x10);
    assert_eq!(input.read_joyp(), 0xC9);
}

#[test]
fn joypad_with_both_columns_selected() {
    let mut input = Input::new();
    input.set_column_line(0x30);
    input.key_down(Key::B);
    // The second line is shared by B and Left: it falls when both are held.
    assert_eq!(input.read_joyp(), 0xCF);
    input.key_down(Key::Left);
    assert_eq!(input.read_joyp(), 0xCD);
    input.key_down(Key::A);
    assert_eq!(input.read_joyp(), 0xCC);
}
