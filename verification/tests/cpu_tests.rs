use nes::cpu::bus::{RAM_LAST, RAM_SIZE};
use nes::cpu::CPU;

#[test]
fn oamdma() {
    let mut c = CPU::test();

    let oam_page = 0x02;
    let oam_base_addr = (oam_page as u16) << 8;

    // fill page 2 of ram with 0 - 255
    for i in 0..256 {
        c.mem.storeb(oam_base_addr + i, i as u8).unwrap();
    }
    c.mem.oamdma(oam_page).unwrap();

    let oam = c.mem.ppu.oam;

    for i in 0..256 {
        assert_eq!(oam[i], i as u8);
    }

    // test oamaddr not starting at 0
    c.mem.storeb(0x2003, 0x55).unwrap();

    for i in 0..256 {
        c.mem.storeb(oam_base_addr + i, 0xBC).unwrap();
    }
    c.mem.oamdma(oam_page).unwrap();

    let oam = c.mem.ppu.oam;

    for val in oam.iter() {
        assert_eq!(*val, 0xBC);
    }
}

#[test]
fn ram() {
    let c = CPU::test();
    let mut mem = c.mem;

    for i in 0..(RAM_LAST + 1) {
        mem.storeb(i, (i % RAM_SIZE) as u8).unwrap();
    }
    for i in 0..(RAM_LAST + 1) {
        assert_eq!(mem.loadb(i).unwrap(), (i % RAM_SIZE) as u8);
    }
}

#[test]
fn interrupt() {
    let mut c = CPU::test();
    c.mem.storeb(0xFFFA, 0xAB).unwrap();
    c.mem.storeb(0xFFFB, 0xCD).unwrap();
    c.pc = 0x8001;
    c.nmi().unwrap();

    assert_eq!(c.mem.loadb(0x01FF).unwrap(), 0x80);
    assert_eq!(c.mem.loadb(0x01FE).unwrap(), 0x01);
    assert_eq!(c.mem.loadb(0x01FD).unwrap(), 0b00100000);
    assert_eq!(c.sp, 0xFC);
    assert_eq!(c.pc, 0xCDAB);
    assert_eq!(c.flags.i, true);

    let mut c = CPU::test();
    c.mem.storeb(0xFFFC, 0xAB).unwrap();
    c.mem.storeb(0xFFFD, 0xCD).unwrap();
    c.reset().unwrap();
    assert_eq!(c.pc, 0xCDAB);
}

#[test]
fn ppu_regs() {
    // let mut c = CPU::test();

}

#[test]
fn mapping() {
    let mut c = CPU::test();

    c.mem.storeb(0x0, 0xA).unwrap();
    c.mem.storeb(0x1, 0xB).unwrap();
    c.mem.storeb(0xFF, 3).unwrap();
    c.mem.storeb(0x7FF, 4).unwrap();

    assert_eq!(c.mem.loadb(0x0800).unwrap(), 0xA);
    assert_eq!(c.mem.loadb(0x1000).unwrap(), 0xA);
    assert_eq!(c.mem.loadb(0x1800).unwrap(), 0xA);
    assert_eq!(c.mem.loadb(0x0FFF).unwrap(), 0x4);
    assert_eq!(c.mem.loadb(0x17FF).unwrap(), 0x4);
    assert_eq!(c.mem.loadb(0x1FFF).unwrap(), 0x4);

    c.mem.storeb(0x1FFF, 5).unwrap();
    assert_eq!(c.mem.loadb(0x07FF).unwrap(), 0x5);
}
