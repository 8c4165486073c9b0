//! I/O interrupt controller whose interrupts the hypervisor delivers.
//!
//! The hypervisor emulates the local interrupt controllers. Here stands the
//! mapping from pins to vectors, and the request to make when a device
//! asserts its line.
use crate::bytes;
use crate::utils::eventfd::EventFd;
use vstd::prelude::*;

verus! {

/// Where the registers begin.
pub const IOAPIC_BASE: u64 = 0xfec0_0000;

/// How many bytes the registers take.
pub const IOAPIC_SIZE: u64 = 0x100;

/// How many pins there are.
pub const IOAPIC_NUM_PINS: usize = 24;

/// A masked redirection entry.
pub const MASKED: u64 = 0x1_0000;

/// One more than the largest half of a redirection entry.
pub const HALF: u64 = 0x1_0000_0000;

/// Register selector: identification.
pub const REG_ID: u8 = 0x00;

/// Register selector: version and largest redirection entry.
pub const REG_VERSION: u8 = 0x01;

/// Register selector: arbitration.
pub const REG_ARBITRATION: u8 = 0x02;

/// Register selector: low half of the first redirection entry. The high half
/// and the halves of the other entries follow.
pub const REG_TABLE: u8 = 0x10;

/// What the version register holds: version 0x11, largest entry 23.
pub const VERSION: u32 = 0x0017_0011;

/// An interrupt for the hypervisor to deliver.
#[derive(Clone, Copy, PartialEq, Eq, Structural, Debug)]
pub struct InterruptControl {
    /// Bits 0 to 3: delivery mode. Bit 4: logical destination. Bit 5: level
    /// triggered.
    pub bitfield: u64,
    pub destination: u32,
    pub vector: u32,
}

/// The vector of an entry: bits 0 to 7.
pub open spec fn vector_of(entry: u64) -> int {
    entry as int % 256
}

/// The delivery mode of an entry: bits 8 to 10.
pub open spec fn delivery_mode_of(entry: u64) -> int {
    entry as int / 0x100 % 8
}

/// The destination of an entry is logical: bit 11.
pub open spec fn dest_mode_of(entry: u64) -> int {
    entry as int / 0x800 % 2
}

/// An entry is level triggered: bit 15.
pub open spec fn trigger_mode_of(entry: u64) -> int {
    entry as int / 0x8000 % 2
}

/// An entry is masked: bit 16.
pub open spec fn is_masked(entry: u64) -> bool {
    entry as int / 0x1_0000 % 2 != 0
}

/// The destination of an entry: bits 56 to 63.
pub open spec fn destination_of(entry: u64) -> int {
    entry as int / 0x100_0000_0000_0000
}

/// The interrupt that an entry describes.
pub open spec fn interrupt_of(entry: u64) -> InterruptControl {
    InterruptControl {
        bitfield: (delivery_mode_of(entry) + 16 * dest_mode_of(entry) + 32 * trigger_mode_of(
            entry,
        )) as u64,
        destination: destination_of(entry) as u32,
        vector: vector_of(entry) as u32,
    }
}

/// A selector of half a redirection entry.
pub open spec fn selects_entry(sel: u8) -> bool {
    REG_TABLE <= sel < REG_TABLE + 2 * IOAPIC_NUM_PINS
}

/// The pin whose entry is selected.
pub open spec fn selected_pin(sel: u8) -> int {
    (sel - REG_TABLE) / 2
}

/// What the selected register holds.
pub open spec fn register_value(sel: u8, table: Seq<u64>) -> int {
    if sel == REG_VERSION {
        VERSION as int
    } else if selects_entry(sel) {
        let entry = table[selected_pin(sel)] as int;
        if sel % 2 == 0 {
            entry % (HALF as int)
        } else {
            entry / (HALF as int)
        }
    } else {
        0
    }
}

/// The redirection table after a write to the selected register.
pub open spec fn table_written(sel: u8, table: Seq<u64>, val: int) -> Seq<u64> {
    if selects_entry(sel) {
        let pin = selected_pin(sel);
        let entry = table[pin] as int;
        table.update(
            pin,
            if sel % 2 == 0 {
                (entry / (HALF as int) * HALF + val) as u64
            } else {
                (entry % (HALF as int) + val * HALF) as u64
            },
        )
    } else {
        table
    }
}

/// Hypervisor-backed I/O interrupt controller.
pub struct WhpxIoapic {
    partition: isize,
    ioregsel: u8,
    ioredtbl: [u64; 24],
}

impl WhpxIoapic {
    /// The partition whose processors are interrupted.
    pub closed spec fn partition(&self) -> isize {
        self.partition
    }

    /// The selected register.
    pub closed spec fn selected(&self) -> u8 {
        self.ioregsel
    }

    /// The redirection table.
    pub closed spec fn table(&self) -> Seq<u64> {
        self.ioredtbl@
    }

    /// The redirection table has an entry for each pin.
    pub proof fn table_has_all_pins(&self)
        ensures
            self.table().len() == IOAPIC_NUM_PINS,
    {
    }

    /// A controller with all pins masked.
    pub fn new(partition: isize) -> (ioapic: WhpxIoapic)
        ensures
            ioapic.partition() == partition,
            ioapic.selected() == 0,
            ioapic.table() == Seq::new(24, |i: int| MASKED),
    {
        let ioapic = WhpxIoapic { partition, ioregsel: 0, ioredtbl: [MASKED; 24] };
        assert(ioapic.table() =~= Seq::new(24, |i: int| MASKED));
        ioapic
    }

    /// The partition to request interrupts from.
    pub fn partition_handle(&self) -> (partition: isize)
        ensures
            partition == self.partition(),
    {
        self.partition
    }

    /// The interrupt to deliver to the guest for a pin: vector, delivery mode,
    /// destination and trigger mode come from the pin's redirection entry.
    pub fn deliver_interrupt(&self, pin: usize) -> (interrupt: InterruptControl)
        requires
            pin < IOAPIC_NUM_PINS,
        ensures
            interrupt == interrupt_of(self.table()[pin as int]),
    {
        let entry: u64 = self.ioredtbl[pin];
        let delivery_mode: u64 = entry / 0x100 % 8;
        let dest_mode: u64 = entry / 0x800 % 2;
        let trigger_mode: u64 = entry / 0x8000 % 2;
        InterruptControl {
            bitfield: delivery_mode + 16 * dest_mode + 32 * trigger_mode,
            destination: (entry / 0x100_0000_0000_0000) as u32,
            vector: (entry % 256) as u32,
        }
    }

    /// Reads a register. Only reads of four bytes have an effect.
    pub fn read(&self, _base: u64, offset: u64, data: &mut [u8])
        ensures
            final(data)@ == if old(data)@.len() != 4 {
                old(data)@
            } else if offset == 0x00 {
                bytes::bytes_of(self.selected() as u32)
            } else if offset == 0x10 {
                bytes::bytes_of(register_value(self.selected(), self.table()) as u32)
            } else {
                bytes::bytes_of(0)
            },
    {
        if data.len() != 4 {
            return;
        }
        let val: u32 = match offset {
            0x00 => self.ioregsel as u32,
            0x10 => {
                let sel: u8 = self.ioregsel;
                if sel == REG_VERSION {
                    0x11 + (IOAPIC_NUM_PINS - 1) as u32 * 0x1_0000
                } else if sel >= REG_TABLE && sel < REG_TABLE + IOAPIC_NUM_PINS as u8 * 2 {
                    let entry: u64 = self.ioredtbl[((sel - REG_TABLE) / 2) as usize];
                    if sel % 2 == 0 {
                        (entry % HALF) as u32
                    } else {
                        (entry / HALF) as u32
                    }
                } else {
                    0
                }
            },
            _ => 0,
        };
        bytes::put_le_word(data, val);
    }

    /// Writes a register. Only writes of four bytes have an effect. Writing
    /// the end-of-interrupt register changes nothing.
    pub fn write(&mut self, _base: u64, offset: u64, data: &[u8])
        ensures
            final(self).partition() == old(self).partition(),
            final(self).selected() == if data@.len() == 4 && offset == 0x00 {
                data@[0]
            } else {
                old(self).selected()
            },
            final(self).table() == if data@.len() == 4 && offset == 0x10 {
                table_written(
                    old(self).selected(),
                    old(self).table(),
                    bytes::word_of(data@[0], data@[1], data@[2], data@[3]),
                )
            } else {
                old(self).table()
            },
    {
        if data.len() != 4 {
            return;
        }
        match offset {
            0x00 => {
                self.ioregsel = data[0];
            },
            0x10 => {
                let val: u32 = bytes::le_word(data[0], data[1], data[2], data[3]);
                let sel: u8 = self.ioregsel;
                if sel >= REG_TABLE && sel < REG_TABLE + IOAPIC_NUM_PINS as u8 * 2 {
                    let pin: usize = ((sel - REG_TABLE) / 2) as usize;
                    let entry: u64 = self.ioredtbl[pin];
                    if sel % 2 == 0 {
                        self.ioredtbl[pin] = entry / HALF * HALF + val as u64;
                    } else {
                        self.ioredtbl[pin] = entry % HALF + val as u64 * HALF;
                    }
                }
            },
            _ => {},
        }
    }

    /// Where the registers begin.
    pub fn get_mmio_addr(&self) -> (addr: u64)
        ensures
            addr == IOAPIC_BASE,
    {
        IOAPIC_BASE
    }

    /// How many bytes the registers take.
    pub fn get_mmio_size(&self) -> (size: u64)
        ensures
            size == IOAPIC_SIZE,
    {
        IOAPIC_SIZE
    }

    /// The interrupt to deliver when a device asserts a line: none without a
    /// line, for a line that is no pin, and for a pin that is masked or has no
    /// vector.
    pub fn set_irq(&self, irq_line: Option<u32>, _interrupt_evt: Option<&EventFd>) -> (interrupt:
        Option<InterruptControl>)
        ensures
            interrupt == match irq_line {
                Some(irq) => if irq < IOAPIC_NUM_PINS && !is_masked(self.table()[irq as int])
                    && vector_of(self.table()[irq as int]) != 0 {
                    Some(interrupt_of(self.table()[irq as int]))
                } else {
                    None
                },
                None => None,
            },
    {
        if let Some(irq) = irq_line {
            let pin: usize = irq as usize;
            if pin < IOAPIC_NUM_PINS {
                let entry: u64 = self.ioredtbl[pin];
                let vector: u64 = entry % 256;
                let masked: bool = entry / 0x1_0000 % 2 != 0;
                if !masked && vector != 0 {
                    return Some(self.deliver_interrupt(pin));
                }
            }
        }
        None
    }
}

/// A selected half of a redirection entry reads back as it was written; the
/// other half, and all other entries, stay as they were.
pub proof fn entry_halves_read_back(sel: u8, table: Seq<u64>, val: u32, other: u8)
    requires
        table.len() == IOAPIC_NUM_PINS,
        selects_entry(sel),
        other != sel,
    ensures
        register_value(sel, table_written(sel, table, val as int)) == val,
        register_value(other, table_written(sel, table, val as int)) == register_value(
            other,
            table,
        ),
        table_written(sel, table, val as int).len() == IOAPIC_NUM_PINS,
{
    let pin = selected_pin(sel);
    let entry = table[pin] as int;
    let half = HALF as int;
    let v = val as int;
    assert(0 <= entry / half * half + v < half * half) by (nonlinear_arith)
        requires
            0 <= entry < half * half,
            0 <= v < half,
            half == 0x1_0000_0000,
    ;
    assert((entry / half * half + v) / half == entry / half);
    assert((entry % half + v * half) / half == v);
    assert((entry % half + v * half) % half == entry % half);
    if selects_entry(other) {
        if selected_pin(other) == pin {
            assert(other % 2 != sel % 2);
        }
    }
}

/// A fresh controller delivers nothing.
pub proof fn fresh_pins_are_masked(pin: int)
    requires
        0 <= pin < IOAPIC_NUM_PINS,
    ensures
        is_masked(Seq::new(24, |i: int| MASKED)[pin]),
{
}

/// A bit of a redirection entry or of an interrupt's bit field.
pub open spec fn bit(word: u64, n: u64) -> bool {
    (word >> n) & 1 == 1
}

/// The interrupt has the fields of the entry where the hypervisor looks for
/// them: the delivery mode, bits 8 to 10 of the entry, in bits 0 to 2; the
/// logical destination, bit 11, in bit 4; the level trigger, bit 15, in bit 5;
/// and no other bit. The vector is bits 0 to 7 of the entry, the destination
/// bits 56 to 63.
pub open spec fn is_described_by(interrupt: InterruptControl, entry: u64) -> bool {
    &&& bit(interrupt.bitfield, 0) == bit(entry, 8)
    &&& bit(interrupt.bitfield, 1) == bit(entry, 9)
    &&& bit(interrupt.bitfield, 2) == bit(entry, 10)
    &&& !bit(interrupt.bitfield, 3)
    &&& bit(interrupt.bitfield, 4) == bit(entry, 11)
    &&& bit(interrupt.bitfield, 5) == bit(entry, 15)
    &&& interrupt.bitfield < 64
    &&& interrupt.vector == entry & 0xff
    &&& interrupt.destination == entry >> 56
}

proof fn lemma_described(entry: u64)
    ensures
        is_described_by(interrupt_of(entry), entry),
        is_masked(entry) == bit(entry, 16),
        vector_of(entry) == entry & 0xff,
{
    let b: u64 = (entry / 0x100 % 8 + 16 * (entry / 0x800 % 2) + 32 * (entry / 0x8000 % 2)) as u64;
    assert(b == entry / 0x100 % 8 + 16 * (entry / 0x800 % 2) + 32 * (entry / 0x8000 % 2));
    assert((b >> 0) & 1 == (entry >> 8) & 1 && (b >> 1) & 1 == (entry >> 9) & 1 && (b >> 2) & 1 == (
    entry >> 10) & 1 && (b >> 3) & 1 == 0 && (b >> 4) & 1 == (entry >> 11) & 1 && (b >> 5) & 1 == (
    entry >> 15) & 1 && b < 64) by (bit_vector)
        requires
            b == entry / 0x100 % 8 + 16 * (entry / 0x800 % 2) + 32 * (entry / 0x8000 % 2),
    ;
    assert((entry >> 16) & 1 == entry / 0x1_0000 % 2 && entry & 0xff == entry % 256 && entry >> 56
        == entry / 0x100_0000_0000_0000 && entry >> 56 < 256) by (bit_vector);
}

/// The delivered interrupt is described by the pin's entry, bit for bit.
pub proof fn delivered_interrupt_has_the_entry_bits(
    ioapic: WhpxIoapic,
    pin: usize,
    interrupt: InterruptControl,
)
    requires
        call_ensures(WhpxIoapic::deliver_interrupt, (&ioapic, pin), interrupt),
        pin < 24,
    ensures
        is_described_by(interrupt, ioapic.table()[pin as int]),
{
    lemma_described(ioapic.table()[pin as int]);
}

/// A line interrupts exactly if it is a pin whose entry has bit 16 clear and a
/// vector; the interrupt is the one that the entry describes.
pub proof fn asserted_line_interrupts(
    ioapic: WhpxIoapic,
    irq_line: Option<u32>,
    evt: Option<&EventFd>,
    interrupt: Option<InterruptControl>,
)
    requires
        call_ensures(WhpxIoapic::set_irq, (&ioapic, irq_line, evt), interrupt),
    ensures
        interrupt is Some <==> (irq_line matches Some(l) && l < 24 && !bit(
            ioapic.table()[l as int],
            16,
        ) && ioapic.table()[l as int] & 0xff != 0),
        interrupt matches Some(i) ==> is_described_by(i, ioapic.table()[irq_line->0 as int]),
{
    if let Some(l) = irq_line {
        lemma_described(ioapic.table()[l as int]);
    }
}

/// No line of a fresh controller interrupts.
pub proof fn fresh_controller_is_silent(
    partition: isize,
    ioapic: WhpxIoapic,
    irq_line: Option<u32>,
    evt: Option<&EventFd>,
    interrupt: Option<InterruptControl>,
)
    requires
        call_ensures(WhpxIoapic::new, (partition,), ioapic),
        call_ensures(WhpxIoapic::set_irq, (&ioapic, irq_line, evt), interrupt),
    ensures
        interrupt is None,
        ioapic.partition() == partition,
{
    assert(MASKED as int / 0x1_0000 % 2 == 1);
}

/// A write of four bytes to the data register puts them, lowest first, in the
/// half of the entry that the selector names: registers 0x10 and 0x11 hold
/// the low and the high half of pin 0, the next two those of pin 1, and so
/// on. The other half and all other entries stay. No other access changes an
/// entry.
pub proof fn data_register_fills_the_selected_half(
    ioapic: &mut WhpxIoapic,
    base: u64,
    offset: u64,
    data: &[u8],
    pin: int,
)
    requires
        call_ensures(WhpxIoapic::write, (ioapic, base, offset, data), ()),
        0 <= pin < 24,
    ensures
        ({
            let sel = old(ioapic).selected();
            let before = old(ioapic).table()[pin];
            let after = final(ioapic).table()[pin];
            let word = data@[0] + 256 * data@[1] + 65_536 * data@[2] + 16_777_216 * data@[3];
            let hits = data@.len() == 4 && offset == 0x10;
            &&& hits && sel == 0x10 + 2 * pin ==> after % 0x1_0000_0000 == word && after
                / 0x1_0000_0000 == before / 0x1_0000_0000
            &&& hits && sel == 0x11 + 2 * pin ==> after / 0x1_0000_0000 == word && after
                % 0x1_0000_0000 == before % 0x1_0000_0000
            &&& !hits || sel != 0x10 + 2 * pin && sel != 0x11 + 2 * pin ==> after == before
            &&& final(ioapic).selected() == if data@.len() == 4 && offset == 0 {
                data@[0]
            } else {
                sel
            }
            &&& final(ioapic).partition() == old(ioapic).partition()
        }),
{
    old(ioapic).table_has_all_pins();
    let sel = old(ioapic).selected();
    let table = old(ioapic).table();
    if data@.len() == 4 && offset == 0x10 && selects_entry(sel) {
        let word = bytes::word_of(data@[0], data@[1], data@[2], data@[3]);
        let entry = table[selected_pin(sel)] as int;
        assert(0 <= word < 0x1_0000_0000);
        assert((entry / 0x1_0000_0000 * 0x1_0000_0000 + word) / 0x1_0000_0000 == entry
            / 0x1_0000_0000);
        assert((entry % 0x1_0000_0000 + word * 0x1_0000_0000) / 0x1_0000_0000 == word);
    }
}

/// Where the bytes of the two halves of an entry end up in its fields.
proof fn lemma_entry_bytes(
    e: u64,
    l0: u64,
    l1: u64,
    l2: u64,
    l3: u64,
    h0: u64,
    h1: u64,
    h2: u64,
    h3: u64,
)
    requires
        l0 < 256 && l1 < 256 && l2 < 256 && l3 < 256,
        h0 < 256 && h1 < 256 && h2 < 256 && h3 < 256,
        e % 0x1_0000_0000 == l0 + 256 * l1 + 65_536 * l2 + 16_777_216 * l3,
        e / 0x1_0000_0000 == h0 + 256 * h1 + 65_536 * h2 + 16_777_216 * h3,
    ensures
        e % 256 == l0,
        e / 0x100 % 8 == l1 % 8,
        e / 0x800 % 2 == l1 / 8 % 2,
        e / 0x8000 % 2 == l1 / 128,
        e / 0x1_0000 % 2 == l2 % 2,
        e / 0x100_0000_0000_0000 == h3,
{
    assert(e % 256 == l0 && e / 0x100 % 8 == l1 % 8 && e / 0x800 % 2 == l1 / 8 % 2 && e / 0x8000 % 2
        == l1 / 128 && e / 0x1_0000 % 2 == l2 % 2 && e / 0x100_0000_0000_0000 == h3)
        by (bit_vector)
        requires
            l0 < 256 && l1 < 256 && l2 < 256 && l3 < 256,
            h0 < 256 && h1 < 256 && h2 < 256 && h3 < 256,
            e % 0x1_0000_0000 == l0 + 256 * l1 + 65_536 * l2 + 16_777_216 * l3,
            e / 0x1_0000_0000 == h0 + 256 * h1 + 65_536 * h2 + 16_777_216 * h3,
    ;
}

/// What the guest writes to the two registers of a pin is what its line then
/// does: the first byte is the vector, the second holds the delivery mode in
/// bits 0 to 2, the logical destination in bit 3 and the level trigger in bit
/// 7, bit 0 of the third masks the pin, and the last byte of the other
/// register is the destination.
pub proof fn guest_programs_its_lines(
    ioapic: WhpxIoapic,
    low: Seq<u8>,
    high: Seq<u8>,
    line: u32,
    evt: Option<&EventFd>,
    interrupt: Option<InterruptControl>,
)
    requires
        call_ensures(WhpxIoapic::set_irq, (&ioapic, Some(line), evt), interrupt),
        line < 24,
        low.len() == 4,
        high.len() == 4,
        ioapic.table()[line as int] % 0x1_0000_0000 == low[0] + 256 * low[1] + 65_536 * low[2]
            + 16_777_216 * low[3],
        ioapic.table()[line as int] / 0x1_0000_0000 == high[0] + 256 * high[1] + 65_536 * high[2]
            + 16_777_216 * high[3],
    ensures
        interrupt is Some <==> low[0] != 0 && low[2] % 2 == 0,
        interrupt matches Some(i) ==> {
            &&& i.vector == low[0]
            &&& i.destination == high[3]
            &&& i.bitfield % 16 == low[1] % 8
            &&& i.bitfield / 16 % 2 == low[1] / 8 % 2
            &&& i.bitfield / 32 == low[1] / 128
        },
{
    lemma_entry_bytes(
        ioapic.table()[line as int],
        low[0] as u64,
        low[1] as u64,
        low[2] as u64,
        low[3] as u64,
        high[0] as u64,
        high[1] as u64,
        high[2] as u64,
        high[3] as u64,
    );
}

/// A read of four bytes from the data register gives, lowest first, the bytes
/// of the selected half of an entry, or of the version: 0x11 with 24 entries.
pub proof fn data_register_shows_the_selected_half(
    ioapic: WhpxIoapic,
    base: u64,
    offset: u64,
    data: &mut [u8],
)
    requires
        call_ensures(WhpxIoapic::read, (&ioapic, base, offset, data), ()),
    ensures
        final(data)@.len() == old(data)@.len(),
        old(data)@.len() != 4 ==> final(data)@ == old(data)@,
        old(data)@.len() == 4 ==> ({
            let sel = ioapic.selected();
            let d = final(data)@;
            let word = d[0] + 256 * d[1] + 65_536 * d[2] + 16_777_216 * d[3];
            &&& offset == 0 ==> word == sel
            &&& offset != 0 && offset != 0x10 ==> word == 0
            &&& offset == 0x10 && sel == 1 ==> d[0] == 0x11 && d[1] == 0 && d[2] == 23 && d[3] == 0
            &&& offset == 0x10 && 0x10 <= sel < 0x40 && sel % 2 == 0 ==> word
                == ioapic.table()[(sel - 0x10) / 2] % 0x1_0000_0000
            &&& offset == 0x10 && 0x10 <= sel < 0x40 && sel % 2 == 1 ==> word
                == ioapic.table()[(sel - 0x11) / 2] / 0x1_0000_0000
            &&& offset == 0x10 && sel != 1 && (sel < 0x10 || sel >= 0x40) ==> word == 0
        }),
{
}

/// The registers stand where guests look for them, in a window of 256 bytes.
pub proof fn registers_stand_at_their_place(ioapic: WhpxIoapic, addr: u64, size: u64)
    requires
        call_ensures(WhpxIoapic::get_mmio_addr, (&ioapic,), addr),
        call_ensures(WhpxIoapic::get_mmio_size, (&ioapic,), size),
    ensures
        addr == 4_273_995_776,
        size == 256,
{
}

} // verus!
