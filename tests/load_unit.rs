use gb_cpu::instructions::{
    ByteAddress, Indirect, LoadByteSource, LoadByteTarget, LoadType, LoadWordSource,
    LoadWordTarget,
};
use gb_cpu::instructions_execution::load;
use gb_cpu::memory::MemoryBus;
use gb_cpu::registers::{FlagsRegister, Registers};

fn registers() -> Registers {
    Registers {
        a: 0,
        b: 0,
        c: 0,
        d: 0,
        e: 0,
        f: FlagsRegister { zero: false, subtract: false, half_carry: false, carry: false },
        h: 0,
        l: 0,
    }
}

#[test]
fn load_register_to_register() {
    let mut r = Registers { e: 0x5A, ..registers() };
    let mut bus = MemoryBus::new();
    let mut sp: u16 = 0;
    let next = load::load(&mut r, &mut bus, 0x10, LoadType::Byte(LoadByteTarget::B, LoadByteSource::E), &mut sp);
    assert_eq!(r.b, 0x5A);
    assert_eq!(next, 0x11);
}

#[test]
fn load_immediate_byte_into_memory_at_hl() {
    let mut r = Registers { h: 0xC0, l: 0x00, ..registers() };
    let mut bus = MemoryBus::new();
    bus.set_byte(0x11, 0x77);
    let mut sp: u16 = 0;
    let next = load::load(&mut r, &mut bus, 0x10, LoadType::Byte(LoadByteTarget::HLI, LoadByteSource::D8), &mut sp);
    assert_eq!(bus.read_byte(0xC000), 0x77);
    assert_eq!(next, 0x12);
}

#[test]
fn load_immediate_word_little_endian() {
    let mut r = registers();
    let mut bus = MemoryBus::new();
    bus.set_byte(0x21, 0xCD);
    bus.set_byte(0x22, 0xAB);
    let mut sp: u16 = 0;
    let next = load::load(&mut r, &mut bus, 0x20, LoadType::Word(LoadWordTarget::DE, LoadWordSource::D16), &mut sp);
    assert_eq!(r.get_de(), 0xABCD);
    assert_eq!(next, 0x23);
    load::load(&mut r, &mut bus, 0x20, LoadType::Word(LoadWordTarget::SP, LoadWordSource::D16), &mut sp);
    assert_eq!(sp, 0xABCD);
}

#[test]
fn load_sp_from_hl() {
    let mut r = Registers { h: 0x12, l: 0x34, ..registers() };
    let mut bus = MemoryBus::new();
    let mut sp: u16 = 0;
    let next = load::load(&mut r, &mut bus, 0, LoadType::Word(LoadWordTarget::SP, LoadWordSource::HL), &mut sp);
    assert_eq!(sp, 0x1234);
    assert_eq!(next, 1);
}

#[test]
fn load_a_through_hl_increment_and_decrement() {
    let mut r = Registers { h: 0xC0, l: 0xFF, ..registers() };
    let mut bus = MemoryBus::new();
    bus.set_byte(0xC0FF, 0x99);
    let mut sp: u16 = 0;
    load::load(&mut r, &mut bus, 0, LoadType::AFromIndirect(Indirect::HLINC), &mut sp);
    assert_eq!(r.a, 0x99);
    assert_eq!(r.get_hl(), 0xC100);
    r.a = 0x42;
    load::load(&mut r, &mut bus, 0, LoadType::IndirectFromA(Indirect::HLDEC), &mut sp);
    assert_eq!(bus.read_byte(0xC100), 0x42);
    assert_eq!(r.get_hl(), 0xC0FF);
}

#[test]
fn load_through_bc_and_de() {
    let mut r = Registers { a: 0x11, b: 0xD0, c: 0x01, d: 0xD0, e: 0x02, ..registers() };
    let mut bus = MemoryBus::new();
    let mut sp: u16 = 0;
    load::load(&mut r, &mut bus, 0, LoadType::IndirectFromA(Indirect::BCI), &mut sp);
    assert_eq!(bus.read_byte(0xD001), 0x11);
    bus.set_byte(0xD002, 0x22);
    let next = load::load(&mut r, &mut bus, 0, LoadType::AFromIndirect(Indirect::DEI), &mut sp);
    assert_eq!(r.a, 0x22);
    assert_eq!(r.get_bc(), 0xD001);
    assert_eq!(next, 1);
}

#[test]
fn load_high_page_addresses() {
    let mut r = Registers { a: 0x5C, c: 0x44, ..registers() };
    let mut bus = MemoryBus::new();
    bus.set_byte(0x101, 0x80);
    let mut sp: u16 = 0;
    let next = load::load(&mut r, &mut bus, 0x100, LoadType::ByteAddressFromA(ByteAddress::A8), &mut sp);
    assert_eq!(bus.read_byte(0xFF80), 0x5C);
    assert_eq!(next, 0x102);
    let next = load::load(&mut r, &mut bus, 0x100, LoadType::ByteAddressFromA(ByteAddress::C), &mut sp);
    assert_eq!(bus.read_byte(0xFF44), 0x5C);
    assert_eq!(next, 0x101);
    bus.set_byte(0xFF44, 0x91);
    load::load(&mut r, &mut bus, 0x100, LoadType::AFromByteAddress(ByteAddress::C), &mut sp);
    assert_eq!(r.a, 0x91);
}

#[test]
fn load_absolute_address() {
    let mut r = Registers { a: 0x3E, ..registers() };
    let mut bus = MemoryBus::new();
    bus.set_byte(0x201, 0x34);
    bus.set_byte(0x202, 0xC2);
    let mut sp: u16 = 0;
    let next = load::load(&mut r, &mut bus, 0x200, LoadType::ByteAddressFromA(ByteAddress::A16), &mut sp);
    assert_eq!(bus.read_byte(0xC234), 0x3E);
    assert_eq!(next, 0x203);
    bus.set_byte(0xC234, 0x01);
    load::load(&mut r, &mut bus, 0x200, LoadType::AFromByteAddress(ByteAddress::A16), &mut sp);
    assert_eq!(r.a, 0x01);
}

#[test]
fn store_sp_low_byte_first() {
    let mut r = registers();
    let mut bus = MemoryBus::new();
    bus.set_byte(0x301, 0x00);
    bus.set_byte(0x302, 0xC0);
    let mut sp: u16 = 0xBEEF;
    let next = load::load(&mut r, &mut bus, 0x300, LoadType::SPToAddress, &mut sp);
    assert_eq!(bus.read_byte(0xC000), 0xEF);
    assert_eq!(bus.read_byte(0xC001), 0xBE);
    assert_eq!(next, 0x303);
}
