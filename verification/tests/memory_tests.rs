use mos6502::memory::{Memory, MemoryLike};

#[test]
fn test_read_u8() {
    let mut memory = Memory::default();

    let addresses = [0x0000u16, 0xffff, 0x6969, 0xABCD];
    let values = [0u8, 0xff, 0x42, 0xAB];

    for i in 0..4 {
        memory.write_byte(addresses[i], values[i]);
    }

    for i in 0..4 {
        let value: u8 = memory.read(addresses[i]);
        assert_eq!(value, values[i]);
    }
}

#[test]
fn test_read_u16() {
    let mut memory = Memory::default();

    let addresses = [0x0000u16, 0xfffe, 0x6969, 0xABCD];
    let values = [0x0000u16, 0xffff, 0x0420, 0x1234];

    for i in 0..4 {
        memory.write_byte(addresses[i], (values[i] & 0xff) as u8);
        memory.write_byte(addresses[i] + 1, ((values[i] >> 8) & 0xff) as u8);
    }

    for i in 0..4 {
        let value: u16 = memory.read(addresses[i]);
        assert_eq!(value, values[i]);
    }
}

#[test]
fn test_write_u8() {
    let mut memory = Memory::default();

    let addresses = [0x0000, 0xffff, 0xABCD, 0xFEDC];
    let values = [0x00u8, 0xff, 0x12, 0xAB];

    for i in 0..4 {
        memory.write(addresses[i], values[i]);
        let value: u8 = memory.read(addresses[i]);
        assert_eq!(values[i], value);
    }
}

#[test]
fn test_write_u16() {
    let mut memory = Memory::default();

    let addresses = [0x0000u16, 0xfffe, 0xABCD, 0xFEDC];
    let values = [0x0000u16, 0xffff, 0x1234, 0x9876];

    for i in 0..4 {
        memory.write(addresses[i], values[i]);
        let value: u16 = memory.read(addresses[i]);
        assert_eq!(values[i], value);
    }
}

#[test]
fn test_write_zero_page() {
    let mut memory = Memory::default();

    let mut pcs = [0x0010u16, 0xfffe, 0x1234, 0xabcd];
    let pcs_init = [0x0010u16, 0xfffe, 0x1234, 0xabcd];
    let addresses = [0x00u8, 0xff, 0x12, 0xab];
    let values = [0x12u8, 0x00, 0xff, 0x69];

    for i in 0..4 {
        memory.write(pcs[i], addresses[i]);
    }

    for i in 0..4 {
        memory.write_zero_page(&mut pcs[i], values[i]);
        let value: u8 = memory.read(addresses[i] as u16);
        assert_eq!(value, values[i]);
        assert_eq!(pcs[i], pcs_init[i] + 1);
    }
}

#[test]
fn test_write_zero_page_x() {
    let mut memory = Memory::default();

    let mut pcs = [0x0000u16, 0xfffe, 0x1234, 0xabcd];
    let pcs_init = [0x0000u16, 0xfffe, 0x1234, 0xabcd];
    let addresses = [0x00u8, 0xff, 0x12, 0xab];
    let x_addresses = [0x05u8, 0x10, 0xff, 0x11];
    let addresses_final = [0x05u8, 0x0f, 0x11, 0xbc];
    let values = [0x12u8, 0x00, 0xff, 0x69];

    for i in 0..4 {
        memory.write(pcs[i], addresses[i]);
    }

    for i in 0..4 {
        memory.write_zero_page_x(&mut pcs[i], x_addresses[i], values[i]);
        let value: u8 = memory.read(addresses_final[i] as u16);
        assert_eq!(value, values[i]);
        assert_eq!(pcs[i], pcs_init[i] + 1);
    }
}

#[test]
fn test_write_absolute() {
    let mut memory = Memory::default();

    let mut pcs = [0x0000u16, 0xfffd, 0xABCD, 0x5648];
    let pcs_init = [0x0000u16, 0xfffd, 0xABCD, 0x5648];
    let addresses = [0x0010u16, 0xffed, 0x1234, 0xBADC];
    let values = [0xffu8, 0x00, 0xab, 0x31];

    for i in 0..4 {
        memory.write(pcs[i], addresses[i]);
    }

    for i in 0..4 {
        memory.write_absolute(&mut pcs[i], values[i]);
        let value: u8 = memory.read(addresses[i]);

        assert_eq!(value, values[i]);
        assert_eq!(pcs[i], pcs_init[i] + 2);
    }
}

#[test]
fn test_write_absolute_x() {
    let mut memory = Memory::default();

    let mut pcs = [0x0000u16, 0xfffd, 0xABCD, 0x5648];
    let pcs_init = [0x0000u16, 0xfffd, 0xABCD, 0x5648];
    let addresses = [0x0010u16, 0xffed, 0x1234, 0xBADC];
    let x_addresses = [0x00u8, 0x05, 0x52, 0x42];
    let addresses_final = [0x0010, 0xfff2, 0x1286, 0xbb1e];
    let values = [0xffu8, 0x00, 0xab, 0x31];

    for i in 0..4 {
        memory.write(pcs[i], addresses[i]);
    }

    for i in 0..4 {
        memory.write_absolute_x(&mut pcs[i], x_addresses[i], values[i]);
        let value: u8 = memory.read(addresses_final[i]);

        assert_eq!(value, values[i]);
        assert_eq!(pcs[i], pcs_init[i] + 2);
    }
}

#[test]
fn test_write_indirect_x() {
    let mut memory = Memory::default();

    let mut pcs = [0x0000u16, 0xfffd, 0xABCD, 0x5648];
    let pcs_init = [0x0000u16, 0xfffd, 0xABCD, 0x5648];
    let addresses = [0x05u8, 0xff, 0x14, 0x54];
    let x_addresses = [0x10u8, 0x05, 0x52, 0x42];
    let addresses_sum = [0x15u8, 0x04, 0x66, 0x96];
    let addresses_on_zp = [0x1015u16, 0xABDC, 0x6342, 0x9999];
    let values = [0xffu8, 0x00, 0xab, 0x31];

    for i in 0..4 {
        memory.write(pcs[i], addresses[i]);
        memory.write(addresses_sum[i] as u16, addresses_on_zp[i]);
    }

    for i in 0..4 {
        memory.write_indirect_x(&mut pcs[i], x_addresses[i], values[i]);
        let value: u8 = memory.read(addresses_on_zp[i]);
        assert_eq!(value, values[i]);
        assert_eq!(pcs[i], pcs_init[i] + 1);
    }
}

#[test]
fn test_write_indirect_y() {
    let mut memory = Memory::default();

    let mut pcs = [0x0000u16, 0xfffd, 0xABCD, 0x5648];
    let pcs_init = [0x0000u16, 0xfffd, 0xABCD, 0x5648];
    let addresses = [0x05u8, 0xff, 0x14, 0x54];
    let addresses_on_zp = [0x1015u16, 0xABDC, 0x6342, 0x9999];
    let y_addresses = [0x10u8, 0x05, 0x52, 0x42];
    let addresses_sum = [0x1025u16, 0xABE1, 0x6394, 0x99DB];
    let values = [0xffu8, 0x00, 0xab, 0x31];

    for i in 0..4 {
        memory.write(pcs[i], addresses[i]);
        memory.write(addresses[i] as u16, addresses_on_zp[i]);
    }

    for i in 0..4 {
        memory.write_indirect_y(&mut pcs[i], y_addresses[i], values[i]);
        let value: u8 = memory.read(addresses_sum[i]);
        assert_eq!(value, values[i]);
        assert_eq!(pcs[i], pcs_init[i] + 1);
    }
}

#[test]
fn test_read_immediate() {
    let mut memory = Memory::default();

    let pc1 = 0x0010u16;
    let pc2 = 0xfffeu16;
    let pc3 = 0x1234u16;
    let pc4 = 0xABCDu16;

    let mut pcs = [pc1, pc2, pc3, pc4];
    let addresses = [0x0010u16, 0xfffeu16, 0x1234u16, 0xABCDu16];
    let values = [0x00u8, 0xff, 0xAB, 0x12];

    for i in 0..4 {
        memory.write_byte(pcs[i], values[i]);
    }

    for i in 0..4 {
        let value = memory.read_immediate(&mut pcs[i]);
        assert_eq!(value, values[i]);
        assert_eq!(pcs[i], addresses[i] + 1);
    }
}

#[test]
fn test_read_zero_page_u8() {
    let mut memory = Memory::default();

    let mut pcs = [0x0010u16, 0xfffe, 0x1234, 0xabcd];
    let pcs_init = [0x0010u16, 0xfffe, 0x1234, 0xabcd];
    let addresses = [0x00u8, 0xff, 0x12, 0xab];
    let values = [0x12u8, 0x00, 0xff, 0x69];

    for i in 0..4 {
        memory.write(pcs[i], addresses[i]);
        memory.write(addresses[i] as u16, values[i]);
    }

    for i in 0..4 {
        let value: u8 = memory.read_zero_page(&mut pcs[i]);
        assert_eq!(value, values[i]);
        assert_eq!(pcs[i], pcs_init[i] + 1);
    }
}

#[test]
fn test_read_zero_page_u16() {
    let mut memory = Memory::default();

    let mut pcs = [0x0010u16, 0xfffe, 0x1234, 0xabcd];
    let pcs_init = [0x0010u16, 0xfffe, 0x1234, 0xabcd];
    let addresses = [0x00u8, 0xfe, 0x12, 0xab];
    let values = [0x1234u16, 0x0000, 0xffff, 0x6969];

    for i in 0..4 {
        memory.write(pcs[i], addresses[i]);
        memory.write(addresses[i] as u16, values[i]);
    }

    for i in 0..4 {
        let value: u16 = memory.read_zero_page(&mut pcs[i]);
        assert_eq!(value, values[i]);
        assert_eq!(pcs[i], pcs_init[i] + 1);
    }
}

#[test]
fn test_read_zero_page_x_u8() {
    let mut memory = Memory::default();

    let mut pcs = [0x0000u16, 0xfffe, 0x1234, 0xabcd];
    let pcs_init = [0x0000u16, 0xfffe, 0x1234, 0xabcd];
    let addresses = [0x00u8, 0xff, 0x12, 0xab];
    let x_addresses = [0x05u8, 0x10, 0xff, 0x11];
    let addresses_final = [0x05u8, 0x0f, 0x11, 0xbc];
    let values = [0x12u8, 0x00, 0xff, 0x69];

    for i in 0..4 {
        memory.write(pcs[i], addresses[i]);
        memory.write(addresses_final[i] as u16, values[i]);
    }

    for i in 0..4 {
        let value: u8 = memory.read_zero_page_x(&mut pcs[i], x_addresses[i]);
        assert_eq!(value, values[i]);
        assert_eq!(pcs[i], pcs_init[i] + 1);
    }
}

#[test]
fn test_read_zero_page_x_u16() {
    let mut memory = Memory::default();

    let mut pcs = [0x0000u16, 0xfffe, 0x1234, 0xabcd];
    let pcs_init = [0x0000u16, 0xfffe, 0x1234, 0xabcd];
    let addresses = [0x00u8, 0xfe, 0x12, 0xab];
    let x_addresses = [0x05u8, 0x10, 0xff, 0x11];
    let addresses_final = [0x05u8, 0x0e, 0x11, 0xbc];
    let values = [0x1234u16, 0x0000, 0xffff, 0x6969];

    for i in 0..4 {
        memory.write(pcs[i], addresses[i]);
        memory.write(addresses_final[i] as u16, values[i]);
    }

    for i in 0..4 {
        let value: u16 = memory.read_zero_page_x(&mut pcs[i], x_addresses[i]);
        assert_eq!(value, values[i]);
        assert_eq!(pcs[i], pcs_init[i] + 1);
    }
}

#[test]
fn test_read_absolute_u8() {
    let mut memory = Memory::default();

    let mut pcs = [0x0000u16, 0xfffd, 0xABCD, 0x5648];
    let pcs_init = [0x0000u16, 0xfffd, 0xABCD, 0x5648];
    let addresses = [0x0010u16, 0xffed, 0x1234, 0xBADC];
    let values = [0xffu8, 0x00, 0xab, 0x31];

    for i in 0..4 {
        memory.write(pcs[i], addresses[i]);
        memory.write(addresses[i], values[i]);
    }

    for i in 0..4 {
        let value: u8 = memory.read_absolute(&mut pcs[i]);

        assert_eq!(value, values[i]);
        assert_eq!(pcs[i], pcs_init[i] + 2);
    }
}

#[test]
fn test_read_absolute_u16() {
    let mut memory = Memory::default();

    let mut pcs = [0x0000u16, 0xfffd, 0xABCD, 0x5648];
    let pcs_init = [0x0000u16, 0xfffd, 0xABCD, 0x5648];
    let addresses = [0x0010u16, 0xffed, 0x1234, 0xBADC];
    let values = [0xffffu16, 0x0020, 0xabcd, 0x3109];

    for i in 0..4 {
        memory.write(pcs[i], addresses[i]);
        memory.write(addresses[i], values[i]);
    }

    for i in 0..4 {
        let value: u16 = memory.read_absolute(&mut pcs[i]);

        assert_eq!(value, values[i]);
        assert_eq!(pcs[i], pcs_init[i] + 2);
    }
}

#[test]
fn test_read_absolute_x_u8() {
    let mut memory = Memory::default();

    let mut pcs = [0x0000u16, 0xfffd, 0xABCD, 0x5648];
    let pcs_init = [0x0000u16, 0xfffd, 0xABCD, 0x5648];
    let addresses = [0x0010u16, 0xffed, 0x1234, 0xBADC];
    let x_addresses = [0x00u8, 0x05, 0x52, 0x42];
    let addresses_final = [0x0010, 0xfff2, 0x1286, 0xbb1e];
    let values = [0xffu8, 0x00, 0xab, 0x31];

    for i in 0..4 {
        memory.write(pcs[i], addresses[i]);
        memory.write(addresses_final[i], values[i]);
    }

    for i in 0..4 {
        let value: u8 = memory.read_absolute_x(&mut pcs[i], x_addresses[i]);

        assert_eq!(value, values[i]);
        assert_eq!(pcs[i], pcs_init[i] + 2);
    }
}

#[test]
fn test_read_absolute_x_u16() {
    let mut memory = Memory::default();

    let mut pcs = [0x0000u16, 0xfffd, 0xABCD, 0x5648];
    let pcs_init = [0x0000u16, 0xfffd, 0xABCD, 0x5648];
    let addresses = [0x0010u16, 0xffed, 0x1234, 0xBADC];
    let x_addresses = [0x00u8, 0x05, 0x52, 0x42];
    let addresses_final = [0x0010, 0xfff2, 0x1286, 0xbb1e];
    let values = [0xffffu16, 0x0020, 0xabcd, 0x3109];

    for i in 0..4 {
        memory.write(pcs[i], addresses[i]);
        memory.write(addresses_final[i], values[i]);
    }

    for i in 0..4 {
        let value: u16 = memory.read_absolute_x(&mut pcs[i], x_addresses[i]);

        assert_eq!(value, values[i]);
        assert_eq!(pcs[i], pcs_init[i] + 2);
    }
}

#[test]
fn test_read_indirect_x_u8() {
    let mut memory = Memory::default();

    let mut pcs = [0x0000u16, 0xfffd, 0xABCD, 0x5648];
    let pcs_init = [0x0000u16, 0xfffd, 0xABCD, 0x5648];
    let addresses = [0x05u8, 0xff, 0x14, 0x54];
    let x_addresses = [0x10u8, 0x05, 0x52, 0x42];
    let addresses_sum = [0x15u8, 0x04, 0x66, 0x96];
    let addresses_on_zp = [0x1015u16, 0xABDC, 0x6342, 0x9999];
    let values = [0xffu8, 0x00, 0xab, 0x31];

    for i in 0..4 {
        memory.write(pcs[i], addresses[i]);
        memory.write(addresses_sum[i] as u16, addresses_on_zp[i]);
        memory.write(addresses_on_zp[i], values[i]);
    }

    for i in 0..4 {
        let value: u8 = memory.read_indirect_x(&mut pcs[i], x_addresses[i]);

        assert_eq!(value, values[i]);
        assert_eq!(pcs[i], pcs_init[i] + 1);
    }
}

#[test]
fn test_read_indirect_y_u8() {
    let mut memory = Memory::default();

    let mut pcs = [0x0000u16, 0xfffd, 0xABCD, 0x5648];
    let pcs_init = [0x0000u16, 0xfffd, 0xABCD, 0x5648];
    let addresses = [0x05u8, 0xff, 0x14, 0x54];
    let addresses_on_zp = [0x1015u16, 0xABDC, 0x6342, 0x9999];
    let y_addresses = [0x10u8, 0x05, 0x52, 0x42];
    let addresses_sum = [0x1025u16, 0xABE1, 0x6394, 0x99DB];
    let values = [0xffu8, 0x00, 0xab, 0x31];

    for i in 0..4 {
        memory.write(pcs[i], addresses[i]);
        memory.write(addresses[i] as u16, addresses_on_zp[i]);
        memory.write(addresses_sum[i] as u16, values[i]);
    }

    for i in 0..4 {
        let value: u8 = memory.read_indirect_y(&mut pcs[i], y_addresses[i]);

        assert_eq!(value, values[i]);
        assert_eq!(pcs[i], pcs_init[i] + 1);
    }
}
