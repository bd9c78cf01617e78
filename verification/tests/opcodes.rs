use pty_opcodes::Pty;
use pty_opcodes::TTY_OP_END;

/// Every published opcode with its canonical wire byte.
fn opcode_table() -> Vec<(u8, Pty)> {
    vec![
        (1, Pty::VINTR),
        (2, Pty::VQUIT),
        (3, Pty::VERASE),
        (4, Pty::VKILL),
        (5, Pty::VEOF),
        (6, Pty::VEOL),
        (7, Pty::VEOL2),
        (8, Pty::VSTART),
        (9, Pty::VSTOP),
        (10, Pty::VSUSP),
        (11, Pty::VDSUSP),
        (12, Pty::VREPRINT),
        (13, Pty::VWERASE),
        (14, Pty::VLNEXT),
        (15, Pty::VFLUSH),
        (16, Pty::VSWTCH),
        (17, Pty::VSTATUS),
        (18, Pty::VDISCARD),
        (30, Pty::IGNPAR),
        (31, Pty::PARMRK),
        (32, Pty::INPCK),
        (33, Pty::ISTRIP),
        (34, Pty::INLCR),
        (35, Pty::IGNCR),
        (36, Pty::ICRNL),
        (37, Pty::IUCLC),
        (38, Pty::IXON),
        (39, Pty::IXANY),
        (40, Pty::IXOFF),
        (41, Pty::IMAXBEL),
        (42, Pty::IUTF8),
        (50, Pty::ISIG),
        (51, Pty::ICANON),
        (52, Pty::XCASE),
        (53, Pty::ECHO),
        (54, Pty::ECHOE),
        (55, Pty::ECHOK),
        (56, Pty::ECHONL),
        (57, Pty::NOFLSH),
        (58, Pty::TOSTOP),
        (59, Pty::IEXTEN),
        (60, Pty::ECHOCTL),
        (61, Pty::ECHOKE),
        (62, Pty::PENDIN),
        (70, Pty::OPOST),
        (71, Pty::OLCUC),
        (72, Pty::ONLCR),
        (73, Pty::OCRNL),
        (74, Pty::ONOCR),
        (75, Pty::ONLRET),
        (90, Pty::CS7),
        (91, Pty::CS8),
        (92, Pty::PARENB),
        (93, Pty::PARODD),
        (128, Pty::TTY_OP_ISPEED),
        (129, Pty::TTY_OP_OSPEED),
    ]
}

#[test]
fn encode_matches_published_bytes() {
    for (byte, opcode) in opcode_table() {
        assert_eq!(opcode.encode(), byte);
    }
}

#[test]
fn decode_covers_every_published_byte() {
    for (byte, opcode) in opcode_table() {
        assert_eq!(Pty::from_u8(byte), Some(opcode));
    }
}

#[test]
fn decode_named_examples() {
    assert_eq!(Pty::from_u8(1), Some(Pty::VINTR));
    assert_eq!(Pty::from_u8(53), Some(Pty::ECHO));
    assert_eq!(Pty::from_u8(91), Some(Pty::CS8));
    assert_eq!(Pty::from_u8(129), Some(Pty::TTY_OP_OSPEED));
}

#[test]
fn round_trip_all_opcodes() {
    for (_, opcode) in opcode_table() {
        assert_eq!(Pty::from_u8(opcode.encode()), Some(opcode));
    }
}

#[test]
fn encode_is_injective() {
    let table = opcode_table();
    for i in 0..table.len() {
        for j in (i + 1)..table.len() {
            assert_ne!(table[i].1.encode(), table[j].1.encode());
        }
    }
}

#[test]
fn terminator_decodes_to_none() {
    assert_eq!(TTY_OP_END, 0);
    assert_eq!(Pty::from_u8(0), None);
}

#[test]
fn gap_bytes_decode_to_none() {
    for byte in [19u8, 29, 43, 49, 63, 69, 76, 89, 94, 127, 130, 255] {
        assert_eq!(Pty::from_u8(byte), None);
    }
}

#[test]
fn every_unlisted_byte_decodes_to_none() {
    let assigned: Vec<u8> = opcode_table().iter().map(|&(b, _)| b).collect();
    for byte in 0u8..=255 {
        if !assigned.contains(&byte) {
            assert_eq!(Pty::from_u8(byte), None);
        }
    }
}

#[test]
fn repeated_decode_is_stable() {
    assert_eq!(Pty::from_u8(38), Pty::from_u8(38));
    assert_eq!(Pty::from_u8(38), Some(Pty::IXON));
    for byte in 0u8..=255 {
        assert_eq!(Pty::from_u8(byte), Pty::from_u8(byte));
    }
}

#[test]
fn serialize_mode_block_scenario() {
    // Serialize [(ICANON, 1), (ECHO, 1), (ISIG, 0)]: each opcode byte is
    // followed by its 32-bit big-endian value, then the terminator closes
    // the block.
    let pairs: Vec<(Pty, u32)> = vec![(Pty::ICANON, 1), (Pty::ECHO, 1), (Pty::ISIG, 0)];
    let opcode_bytes: Vec<u8> = pairs.iter().map(|&(op, _)| op.encode()).collect();
    assert_eq!(opcode_bytes, vec![51, 53, 50]);

    let mut block: Vec<u8> = Vec::new();
    for (op, value) in pairs {
        block.push(op.encode());
        block.extend_from_slice(&value.to_be_bytes());
    }
    block.push(TTY_OP_END);
    assert_eq!(
        block,
        vec![51, 0, 0, 0, 1, 53, 0, 0, 0, 1, 50, 0, 0, 0, 0, 0]
    );
}
