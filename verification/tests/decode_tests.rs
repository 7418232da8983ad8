use nes::cpu::CPU;

#[test]
fn decode_addr_modes() {

    let mut c = CPU::test();

    c.x = 0x00;
    assert_eq!(c.absolute_x(0x0000_u16), 0x0000_u16);
    assert_eq!(c.absolute_x(0xFFFF_u16), 0xFFFF_u16);
    c.x = 0xFF;
    assert_eq!(c.absolute_x(0x0000_u16), 0x00FF_u16);
    assert_eq!(c.absolute_x(0xFFFF_u16), 0x00FE_u16);

    c.y = 0x00;
    assert_eq!(c.absolute_y(0x0000_u16), 0x0000_u16);
    assert_eq!(c.absolute_y(0xFFFF_u16), 0xFFFF_u16);
    c.y = 0xFF;
    assert_eq!(c.absolute_y(0x0000_u16), 0x00FF_u16);
    assert_eq!(c.absolute_y(0xFFFF_u16), 0x00FE_u16);

    assert_eq!(c.zero_page(0x00_u8), 0x0000_u16);
    assert_eq!(c.zero_page(0xFF_u8), 0x00FF_u16);

    c.x = 0x00;
    assert_eq!(c.zero_page_x(0x00_u8), 0x0000_u16);
    assert_eq!(c.zero_page_x(0xFF_u8), 0x00FF_u16);
    c.x = 0xFF;
    assert_eq!(c.zero_page_x(0x00_u8), 0x00FF_u16);
    // this is an interesting case: zero page addressing with index
    // specifies (according to MOS datasheet) essentially that
    // the index is added to the argument before it is extended to
    // 16 bits, so any carry from that addition is dropped
    assert_eq!(c.zero_page_x(0xFF_u8), 0x00FE_u16);

    c.y = 0x00;
    assert_eq!(c.zero_page_y(0x00_u8), 0x0000_u16);
    assert_eq!(c.zero_page_y(0xFF_u8), 0x00FF_u16);
    c.y = 0xFF;
    assert_eq!(c.zero_page_y(0x00_u8), 0x00FF_u16);
    assert_eq!(c.zero_page_y(0xFF_u8), 0x00FE_u16);

    c.mem.storeb(0x0, 0xA).unwrap();
    c.mem.storeb(0x1, 0xB).unwrap();
    c.mem.storeb(0x2, 3).unwrap();
    c.mem.storeb(0xFE, 1).unwrap();
    c.mem.storeb(0xFF, 2).unwrap();
    c.mem.storeb(0x100, 4).unwrap();
    c.mem.storeb(0x1FF, 5).unwrap();
    c.mem.storeb(0x200, 6).unwrap();

    assert_eq!(c.indirect(0x0000_u16).unwrap(), 0x0B0A_u16);
    assert_eq!(c.indirect(0x00FE_u16).unwrap(), 0x0201_u16);

    // wrap around
    assert_eq!(c.indirect(0x00FF_u16).unwrap(), 0x0A02_u16);
    // wrap around
    assert_eq!(c.indirect(0x01FF_u16).unwrap(), 0x0405_u16);

    c.x = 0x00;
    assert_eq!(c.indirect_x(0x00_u8).unwrap(), 0x0B0A_u16);
    assert_eq!(c.indirect_x(0xFE_u8).unwrap(), 0x0201_u16);
    c.x = 0xFE;
    // wrap around
    assert_eq!(c.indirect_x(0x02_u8).unwrap(), 0x0B0A_u16);
    assert_eq!(c.indirect_x(0x00_u8).unwrap(), 0x0201_u16);

    // wrap around
    assert_eq!(c.indirect_x(0x01_u8).unwrap(), 0x0A02_u16);

    c.y = 0x00;
    assert_eq!(c.indirect_y(0x00_u8).unwrap(), 0x0B0A_u16);
    // wrap around
    assert_eq!(c.indirect_y(0xFF_u8).unwrap(), 0x0A02_u16);

    // All kinds of wrap around that I'm still confused about
    c.y = 0x01;
    assert_eq!(c.indirect_y(0xFF_u8).unwrap(), 0x0A03_u16);

    c.y = 0xFE;
    assert_eq!(c.indirect_y(0xFF_u8).unwrap(), 0x0B00_u16);

    c.pc = 0x8000;
    assert_eq!(c.relative(0x50), 0x8050);
    assert_eq!(c.relative(0xFF), 0x7FFF);
    c.pc = 0x8080;
    assert_eq!(c.relative(0x80), 0x8000);
}

#[test]
fn tests_addr_modes() {

    let mut c = CPU::test();

    c.x = 0x00;
    assert_eq!(c.absolute_x(0x0000_u16), 0x0000_u16);
    assert_eq!(c.absolute_x(0xFFFF_u16), 0xFFFF_u16);
    c.x = 0xFF;
    assert_eq!(c.absolute_x(0x0000_u16), 0x00FF_u16);
    assert_eq!(c.absolute_x(0xFFFF_u16), 0x00FE_u16);

    c.y = 0x00;
    assert_eq!(c.absolute_y(0x0000_u16), 0x0000_u16);
    assert_eq!(c.absolute_y(0xFFFF_u16), 0xFFFF_u16);
    c.y = 0xFF;
    assert_eq!(c.absolute_y(0x0000_u16), 0x00FF_u16);
    assert_eq!(c.absolute_y(0xFFFF_u16), 0x00FE_u16);

    assert_eq!(c.zero_page(0x00_u8), 0x0000_u16);
    assert_eq!(c.zero_page(0xFF_u8), 0x00FF_u16);

    c.x = 0x00;
    assert_eq!(c.zero_page_x(0x00_u8), 0x0000_u16);
    assert_eq!(c.zero_page_x(0xFF_u8), 0x00FF_u16);
    c.x = 0xFF;
    assert_eq!(c.zero_page_x(0x00_u8), 0x00FF_u16);
    // this is an interesting case: zero page addressing with index
    // specifies (according to MOS datasheet) essentially that
    // the index is added to the argument before it is extended to
    // 16 bits, so any carry from that addition is dropped
    assert_eq!(c.zero_page_x(0xFF_u8), 0x00FE_u16);

    c.y = 0x00;
    assert_eq!(c.zero_page_y(0x00_u8), 0x0000_u16);
    assert_eq!(c.zero_page_y(0xFF_u8), 0x00FF_u16);
    c.y = 0xFF;
    assert_eq!(c.zero_page_y(0x00_u8), 0x00FF_u16);
    assert_eq!(c.zero_page_y(0xFF_u8), 0x00FE_u16);

    c.mem.storeb(0x0, 0xA).unwrap();
    c.mem.storeb(0x1, 0xB).unwrap();
    c.mem.storeb(0x2, 3).unwrap();
    c.mem.storeb(0xFE, 1).unwrap();
    c.mem.storeb(0xFF, 2).unwrap();
    c.mem.storeb(0x100, 4).unwrap();
    c.mem.storeb(0x1FF, 5).unwrap();
    c.mem.storeb(0x200, 6).unwrap();

    assert_eq!(c.indirect(0x0000_u16).unwrap(), 0x0B0A_u16);
    assert_eq!(c.indirect(0x00FE_u16).unwrap(), 0x0201_u16);

    // wrap around
    assert_eq!(c.indirect(0x00FF_u16).unwrap(), 0x0A02_u16);
    // wrap around
    assert_eq!(c.indirect(0x01FF_u16).unwrap(), 0x0405_u16);

    c.x = 0x00;
    assert_eq!(c.indirect_x(0x00_u8).unwrap(), 0x0B0A_u16);
    assert_eq!(c.indirect_x(0xFE_u8).unwrap(), 0x0201_u16);
    c.x = 0xFE;
    // wrap around
    assert_eq!(c.indirect_x(0x02_u8).unwrap(), 0x0B0A_u16);
    assert_eq!(c.indirect_x(0x00_u8).unwrap(), 0x0201_u16);

    // wrap around
    assert_eq!(c.indirect_x(0x01_u8).unwrap(), 0x0A02_u16);

    c.y = 0x00;
    assert_eq!(c.indirect_y(0x00_u8).unwrap(), 0x0B0A_u16);
    // wrap around
    assert_eq!(c.indirect_y(0xFF_u8).unwrap(), 0x0A02_u16);

    // All kinds of wrap around that I'm still confused about
    c.y = 0x01;
    assert_eq!(c.indirect_y(0xFF_u8).unwrap(), 0x0A03_u16);

    c.y = 0xFE;
    assert_eq!(c.indirect_y(0xFF_u8).unwrap(), 0x0B00_u16);

    c.pc = 0x8000;
    assert_eq!(c.relative(0x50), 0x8050);
    assert_eq!(c.relative(0xFF), 0x7FFF);
    c.pc = 0x8080;
    assert_eq!(c.relative(0x80), 0x8000);
}
