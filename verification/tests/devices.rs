use krun_whpx::devices::bus::{Bus, BusError};
use krun_whpx::devices::pit::{timer_step, Pit, PitCounter, TimerChange, TimerStep};
use krun_whpx::devices::whpx_ioapic::{InterruptControl, WhpxIoapic};

fn read(pit: &mut Pit<u8>, offset: u64) -> u8 {
    let mut data = [0xEEu8];
    pit.read(0, offset, &mut data);
    data[0]
}

#[test]
fn reload_bytes_are_written_and_read_in_turn() {
    let mut pit = Pit::new(7u8);
    assert_eq!(*pit.irq_chip(), 7);
    for port in 0..3 {
        pit.write(0, port, &[0x34]);
        pit.write(0, port, &[0x12]);
        assert_eq!(read(&mut pit, port), 0x34);
        assert_eq!(read(&mut pit, port), 0x12);
        assert_eq!(read(&mut pit, port), 0x34);
    }
}

#[test]
fn single_byte_modes_use_their_byte() {
    let mut c = PitCounter::new();
    c.rw_mode = 1;
    assert_eq!(c.write_byte(0x55), Some(0x55));
    assert_eq!(c.read_byte(), 0x55);
    c.rw_mode = 2;
    assert_eq!(c.write_byte(0x66), Some(0x6600));
    assert_eq!(c.read_byte(), 0x66);
    c.rw_mode = 0;
    assert_eq!(c.write_byte(0x77), None);
    assert_eq!(c.read_byte(), 0);
    assert_eq!(c.reload_value, 0x6600);
}

#[test]
fn counters_stay_valid() {
    let valid = |c: &PitCounter| {
        (1..=3).contains(&c.rw_mode) && c.mode <= 7 && (c.rw_mode == 3 || c.read_lsb && c.write_lsb)
    };
    let mut c = PitCounter::new();
    assert!(valid(&c));
    for rw_mode in 1..=3 {
        c = PitCounter { rw_mode, ..PitCounter::new() };
        for val in [0x12, 0x34, 0x56] {
            c.write_byte(val);
            assert!(valid(&c));
            c.read_byte();
            assert!(valid(&c));
        }
    }
    // A command in the middle of a value starts over.
    let mut pit = Pit::new(0u8);
    pit.write(0, 1, &[0x12]);
    pit.write(0, 3, &[0x5E]);
    pit.write(0, 1, &[0x34]);
    assert_eq!(read(&mut pit, 1), 0x34);
    assert_eq!(read(&mut pit, 1), 0x34);
}

#[test]
fn latched_value_stays_until_it_is_read() {
    let mut pit = Pit::new(0u8);
    pit.write(0, 0, &[0x34]);
    pit.write(0, 0, &[0x12]);
    pit.write(0, 3, &[0x00]);
    pit.write(0, 0, &[0x78]);
    pit.write(0, 0, &[0x56]);
    assert_eq!(read(&mut pit, 0), 0x34);
    assert_eq!(read(&mut pit, 0), 0x12);
    assert_eq!(read(&mut pit, 0), 0x78);
    assert_eq!(read(&mut pit, 0), 0x56);
}

#[test]
fn rate_generator_runs_at_the_reload_interval() {
    let mut pit = Pit::new(0u8);
    // Counter 0, both bytes, mode 2.
    assert_eq!(pit.write(0, 3, &[0x34]), TimerChange::Keep);
    assert_eq!(pit.write(0, 0, &[0x9C]), TimerChange::Keep);
    assert_eq!(
        pit.write(0, 0, &[0x2E]),
        TimerChange::Restart { interval_ns: 11932u64 * 1_000_000_000 / 1_193_182 }
    );
    assert_eq!(pit.start_timer(), TimerChange::Restart { interval_ns: 10_000_150 });
    // A reload value of zero stops the timer.
    pit.write(0, 0, &[0]);
    assert_eq!(pit.write(0, 0, &[0]), TimerChange::Stop);
}

#[test]
fn other_modes_and_counters_do_not_run() {
    let mut pit = Pit::new(0u8);
    // Counter 0, low byte, mode 0.
    pit.write(0, 3, &[0x10]);
    assert_eq!(pit.write(0, 0, &[9]), TimerChange::Stop);
    // Square wave.
    pit.write(0, 3, &[0x16]);
    assert_eq!(pit.write(0, 0, &[1]), TimerChange::Restart { interval_ns: 838 });
    // Mode 7 is not the square wave.
    pit.write(0, 3, &[0x1E]);
    assert_eq!(pit.write(0, 0, &[1]), TimerChange::Stop);
    // Counter 2, both bytes, mode 3.
    pit.write(0, 3, &[0xB6]);
    assert_eq!(pit.write(0, 2, &[1]), TimerChange::Keep);
    assert_eq!(pit.write(0, 2, &[1]), TimerChange::Keep);
}

#[test]
fn unknown_ports_and_empty_accesses_do_nothing() {
    let mut pit = Pit::new(0u8);
    pit.write(0, 1, &[0x34]);
    assert_eq!(read(&mut pit, 3), 0);
    assert_eq!(read(&mut pit, 9), 0);
    assert_eq!(pit.write(0, 4, &[1]), TimerChange::Keep);
    assert_eq!(pit.write(0, 0, &[]), TimerChange::Keep);
    pit.read(0, 0, &mut []);
    // A read-back command is ignored.
    pit.write(0, 3, &[0xC2]);
    assert_eq!(read(&mut pit, 1), 0x34);
    let mut wide = [9u8, 9];
    pit.read(0, 0, &mut wide);
    assert_eq!(wide, [0, 9]);
}

#[test]
fn timer_raises_after_sleeping_until_it_is_stopped() {
    assert_eq!(timer_step(false, true), TimerStep::Sleep);
    assert_eq!(timer_step(true, true), TimerStep::Raise);
    assert_eq!(timer_step(true, false), TimerStep::End);
    assert_eq!(timer_step(false, false), TimerStep::End);
}

fn select(ioapic: &mut WhpxIoapic, reg: u8) {
    ioapic.write(0, 0, &[reg, 0xAA, 0xBB, 0xCC]);
}

fn put(ioapic: &mut WhpxIoapic, reg: u8, val: u32) {
    select(ioapic, reg);
    ioapic.write(0, 0x10, &val.to_le_bytes());
}

fn get(ioapic: &mut WhpxIoapic, reg: u8) -> u32 {
    select(ioapic, reg);
    let mut data = [0u8; 4];
    ioapic.read(0, 0x10, &mut data);
    u32::from_le_bytes(data)
}

#[test]
fn fresh_controller_is_masked() {
    let mut ioapic = WhpxIoapic::new(11);
    assert_eq!(ioapic.partition_handle(), 11);
    for pin in 0..24 {
        assert_eq!(get(&mut ioapic, 0x10 + 2 * pin), 0x1_0000);
        assert_eq!(get(&mut ioapic, 0x11 + 2 * pin), 0);
        assert_eq!(ioapic.set_irq(Some(pin as u32), None), None);
    }
    assert_eq!(ioapic.get_mmio_addr(), 0xfec0_0000);
    assert_eq!(ioapic.get_mmio_size(), 0x100);
}

#[test]
fn registers_read_back() {
    let mut ioapic = WhpxIoapic::new(0);
    put(&mut ioapic, 0x10, 0x1234_5678);
    put(&mut ioapic, 0x11, 0x9ABC_DEF0);
    put(&mut ioapic, 0x3F, 0x0BAD_CAFE);
    assert_eq!(get(&mut ioapic, 0x10), 0x1234_5678);
    assert_eq!(get(&mut ioapic, 0x11), 0x9ABC_DEF0);
    assert_eq!(get(&mut ioapic, 0x12), 0x1_0000);
    assert_eq!(get(&mut ioapic, 0x3E), 0x1_0000);
    assert_eq!(get(&mut ioapic, 0x3F), 0x0BAD_CAFE);
    // Identification, version, arbitration, and what is not there.
    assert_eq!(get(&mut ioapic, 0), 0);
    assert_eq!(get(&mut ioapic, 1), 0x0017_0011);
    assert_eq!(get(&mut ioapic, 2), 0);
    assert_eq!(get(&mut ioapic, 0x40), 0);
    put(&mut ioapic, 0x40, 5);
    put(&mut ioapic, 1, 5);
    assert_eq!(get(&mut ioapic, 1), 0x0017_0011);
}

#[test]
fn selector_reads_back_and_odd_accesses_do_nothing() {
    let mut ioapic = WhpxIoapic::new(0);
    select(&mut ioapic, 0x21);
    let mut data = [9u8; 4];
    ioapic.read(0, 0, &mut data);
    assert_eq!(data, [0x21, 0, 0, 0]);
    ioapic.write(0, 0, &[1, 2]);
    ioapic.read(0, 0, &mut data);
    assert_eq!(data, [0x21, 0, 0, 0]);
    let mut short = [9u8; 2];
    ioapic.read(0, 0, &mut short);
    assert_eq!(short, [9, 9]);
    ioapic.read(0, 0x20, &mut data);
    assert_eq!(data, [0; 4]);
    // The end of an interrupt changes nothing.
    ioapic.write(0, 0x40, &[7, 0, 0, 0]);
    ioapic.read(0, 0, &mut data);
    assert_eq!(data, [0x21, 0, 0, 0]);
}

#[test]
fn interrupts_follow_the_redirection_entry() {
    let mut ioapic = WhpxIoapic::new(0);
    // Pin 4: vector 0x31, lowest priority, logical, level triggered.
    put(&mut ioapic, 0x18, 0x31 | (1 << 8) | (1 << 11) | (1 << 15));
    put(&mut ioapic, 0x19, 0x7F00_0000);
    let wanted = InterruptControl { bitfield: 1 | (1 << 4) | (1 << 5), destination: 0x7F, vector: 0x31 };
    assert_eq!(ioapic.deliver_interrupt(4), wanted);
    assert_eq!(ioapic.set_irq(Some(4), None), Some(wanted));
    assert_eq!(ioapic.set_irq(None, None), None);
    assert_eq!(ioapic.set_irq(Some(24), None), None);
    assert_eq!(ioapic.set_irq(Some(u32::MAX), None), None);
    // Without a vector, or masked, nothing is delivered.
    put(&mut ioapic, 0x18, 0);
    assert_eq!(ioapic.set_irq(Some(4), None), None);
    put(&mut ioapic, 0x18, 0x1_0031);
    assert_eq!(ioapic.set_irq(Some(4), None), None);
}

#[test]
fn bus_refuses_overlaps_and_finds_devices() {
    let mut bus: Bus<char> = Bus::new();
    assert_eq!(bus.insert('a', 0x1000, 0x100), Ok(()));
    assert_eq!(bus.insert('b', 0x10FF, 1), Err(BusError::Overlap));
    assert_eq!(bus.insert('b', 0xFFF, 2), Err(BusError::Overlap));
    assert_eq!(bus.insert('b', 0x1100, 0x10), Ok(()));
    assert_eq!(bus.insert('c', u64::MAX, 1), Ok(()));
    assert_eq!(bus.get_device(0x1000), Some((0, &'a')));
    assert_eq!(bus.get_device(0x10FF), Some((0xFF, &'a')));
    assert_eq!(bus.get_device(0x1100), Some((0, &'b')));
    assert_eq!(bus.get_device(0x1110), None);
    assert_eq!(bus.get_device(u64::MAX), Some((0, &'c')));
    assert_eq!(BusError::Overlap.to_string(), "New device overlaps with an old device.");
}
