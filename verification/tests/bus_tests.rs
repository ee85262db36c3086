use cash_gb::cpu::instructions::Interrupt;
use cash_gb::memory::cart::cart_header::NINTENDO_LOGO;
use cash_gb::memory::cart::Cart;
use cash_gb::memory::MemoryBus;
use cash_gb::ppu::LcdMode;

fn bus_cart(cart_type: u8, ram_code: u8) -> Cart {
    let mut data = vec![0u8; 0x8000];
    for (i, byte) in NINTENDO_LOGO.iter().enumerate() {
        data[0x0104 + i] = *byte;
    }
    data[0x0147] = cart_type;
    data[0x0149] = ram_code;
    data[0x0001] = 0x3C;
    let mut checksum = 0u8;
    for at in 0x0134..=0x014C {
        checksum = checksum.wrapping_sub(data[at]).wrapping_sub(1);
    }
    data[0x014D] = checksum;
    Cart::new(&data).unwrap()
}

fn plain_bus() -> MemoryBus {
    MemoryBus::new(bus_cart(0, 0))
}

#[test]
fn test_work_ram_and_high_ram_round_trip() {
    let mut bus = plain_bus();
    for (addr, value) in [(0xC000u16, 1u8), (0xCFFF, 2), (0xD000, 3), (0xDFFF, 4), (0xFF80, 5), (0xFFFE, 6)] {
        assert!(bus.write(addr, value).is_none());
        assert_eq!(bus.read(addr), value);
    }
    assert_eq!(bus.read(0xC000), 1);
    assert_eq!(bus.read(0xD000), 3);
}

#[test]
fn test_echo_ram_mirrors_work_ram() {
    let mut bus = plain_bus();
    bus.write(0xC123, 0x42);
    assert_eq!(bus.read(0xE123), 0x42);
    bus.write(0xFDFF, 0x24);
    assert_eq!(bus.read(0xDDFF), 0x24);
    bus.write(0xE000, 0x99);
    assert_eq!(bus.read(0xC000), 0x99);
}

#[test]
fn test_unusable_region_drops_writes_and_reads_ff() {
    let mut bus = plain_bus();
    for addr in [0xFEA0u16, 0xFEB7, 0xFEFF] {
        bus.write(addr, 0x12);
        assert_eq!(bus.read(addr), 0xFF);
    }
    assert_eq!(bus.read(0xC000), 0);
    assert_eq!(bus.read(0xFF80), 0);
}

#[test]
fn test_rom_reads_and_ignored_rom_writes() {
    let mut bus = plain_bus();
    assert_eq!(bus.read(0x0001), 0x3C);
    bus.write(0x0001, 0x99);
    assert_eq!(bus.read(0x0001), 0x3C);
    assert_eq!(bus.read(0xA000), 0xFF);
}

#[test]
fn test_bus_reaches_mapper_registers_and_cartridge_ram() {
    let mut bus = MemoryBus::new(bus_cart(0x03, 0x02));
    bus.write(0xA010, 0x77);
    assert_eq!(bus.read(0xA010), 0xFF);
    bus.write(0x0000, 0x0A);
    bus.write(0xA010, 0x77);
    assert_eq!(bus.read(0xA010), 0x77);
    bus.write(0x0000, 0x00);
    assert_eq!(bus.read(0xA010), 0xFF);
}

#[test]
fn test_io_registers_are_plain_bytes() {
    let mut bus = plain_bus();
    for addr in [0xFF00u16, 0xFF3F, 0xFF4C, 0xFF4F, 0xFF50, 0xFF70, 0xFF7F] {
        assert!(bus.write(addr, 0x5A).is_none());
        assert_eq!(bus.read(addr), 0x5A);
    }
    bus.write(0xFFFF, 0x1F);
    assert_eq!(bus.read(0xFFFF), 0x1F);
    assert_eq!(bus.get_interrupt_enable(), 0x1F);
    bus.write(0xD000, 0x44);
    assert_eq!(bus.read(0xD000), 0x44);
}

#[test]
fn test_interrupt_flags_accumulate() {
    let mut bus = plain_bus();
    bus.request_interrupt(Interrupt::Timer);
    bus.request_interrupt(Interrupt::Joypad);
    assert_eq!(bus.get_interrupt_flags(), 0x14);
    assert_eq!(bus.read(0xFF0F), 0x14);
    bus.acknowledge_interrupt(Interrupt::Timer);
    assert_eq!(bus.get_interrupt_flags(), 0x10);
    bus.write(0xFF0F, 0x03);
    assert_eq!(bus.get_interrupt_flags(), 0x03);
}

#[test]
fn test_unmapped_lcd_addresses_read_ff() {
    let mut bus = plain_bus();
    bus.write(0xFF46, 0x12);
    assert_eq!(bus.read(0xFF46), 0xFF);
}

#[test]
fn test_step_ppu_records_interrupts_in_if() {
    let mut bus = plain_bus();
    bus.write(0xFF40, 0x80);
    bus.write(0xFF41, 0x10);
    let mut vblanks = 0;
    for _ in 0..(144 * 114) {
        if bus.step_ppu(4) == Some(Interrupt::VBlank) {
            vblanks += 1;
        }
    }
    assert_eq!(vblanks, 1);
    assert!(bus.is_frame_ready());
    assert_eq!(bus.read(0xFF44), 144);
    assert_eq!(bus.get_ppu().get_current_mode(), LcdMode::VBlank);
    assert_eq!(bus.read(0xFF41) & 0x03, 1);
    assert_eq!(bus.get_interrupt_flags() & 0x03, 0x03);
}

#[test]
fn test_boot_restores_io_registers() {
    let mut bus = plain_bus();
    bus.write(0xFF10, 0x00);
    bus.write(0xFF26, 0x00);
    bus.write(0xFF40, 0x00);
    bus.write(0xFFFF, 0xFF);
    bus.write(0xFF00, 0x30);
    bus.write(0xC000, 0x12);
    bus.boot();
    assert_eq!(bus.read(0xFF10), 0x80);
    assert_eq!(bus.read(0xFF11), 0xBF);
    assert_eq!(bus.read(0xFF12), 0xF3);
    assert_eq!(bus.read(0xFF14), 0xBF);
    assert_eq!(bus.read(0xFF16), 0x3F);
    assert_eq!(bus.read(0xFF19), 0xBF);
    assert_eq!(bus.read(0xFF1A), 0x7F);
    assert_eq!(bus.read(0xFF1B), 0xFF);
    assert_eq!(bus.read(0xFF1C), 0x9F);
    assert_eq!(bus.read(0xFF1E), 0xBF);
    assert_eq!(bus.read(0xFF20), 0xFF);
    assert_eq!(bus.read(0xFF23), 0xBF);
    assert_eq!(bus.read(0xFF24), 0x77);
    assert_eq!(bus.read(0xFF25), 0xF3);
    assert_eq!(bus.read(0xFF26), 0xF1);
    assert_eq!(bus.read(0xFF40), 0x91);
    assert_eq!(bus.read(0xFF47), 0xFC);
    assert_eq!(bus.read(0xFF48), 0xFF);
    assert_eq!(bus.read(0xFF49), 0xFF);
    assert_eq!(bus.read(0xFFFF), 0x00);
    assert_eq!(bus.read(0xFF00), 0x30);
    assert_eq!(bus.read(0xC000), 0x12);
}
