use byte_calc::CalcError;
use byte_calc::CalculatorInstruction;
use byte_calc::PAYLOAD_LEN;

#[test]
fn encoding_is_17_fixed_layout_bytes() {
    let instr = CalculatorInstruction { operation: 0, left: 10, right: 5 };
    let bytes = instr.encode();
    assert_eq!(bytes.len(), PAYLOAD_LEN);
    assert_eq!(bytes, vec![0, 10, 0, 0, 0, 0, 0, 0, 0, 5, 0, 0, 0, 0, 0, 0, 0]);
}

#[test]
fn encoding_of_negative_operands_is_twos_complement() {
    let instr = CalculatorInstruction { operation: 1, left: -1, right: -2 };
    let bytes = instr.encode();
    assert_eq!(
        bytes,
        vec![
            1, 0xff, 0xff, 0xff, 0xff, 0xff, 0xff, 0xff, 0xff, 0xfe, 0xff, 0xff, 0xff, 0xff,
            0xff, 0xff, 0xff
        ]
    );
}

#[test]
fn decode_reads_fields_little_endian() {
    let bytes = [3u8, 1, 2, 0, 0, 0, 0, 0, 0, 0xff, 0xff, 0xff, 0xff, 0xff, 0xff, 0xff, 0xff];
    let instr = CalculatorInstruction::decode(&bytes).unwrap();
    assert_eq!(instr.operation, 3);
    assert_eq!(instr.left, 0x0201);
    assert_eq!(instr.right, -1);
}

#[test]
fn round_trip_keeps_every_field() {
    let samples = [
        CalculatorInstruction { operation: 0, left: 0, right: 0 },
        CalculatorInstruction { operation: 5, left: 2, right: 10 },
        CalculatorInstruction { operation: 255, left: i64::MIN, right: i64::MAX },
        CalculatorInstruction { operation: 9, left: -1, right: 1 },
        CalculatorInstruction { operation: 4, left: i64::MAX, right: i64::MIN },
    ];
    for instr in samples {
        let decoded = CalculatorInstruction::decode(&instr.encode()).unwrap();
        assert_eq!(decoded, instr);
    }
}

#[test]
fn wrong_length_payload_is_rejected() {
    assert_eq!(CalculatorInstruction::decode(&[]), Err(CalcError::DecodeError));
    assert_eq!(CalculatorInstruction::decode(&[0u8; 16]), Err(CalcError::DecodeError));
    assert_eq!(CalculatorInstruction::decode(&[0u8; 18]), Err(CalcError::DecodeError));
    assert_eq!(CalculatorInstruction::decode(&[0u8; 1]), Err(CalcError::DecodeError));
}

#[test]
fn encoding_matches_borsh_wire_format() {
    let samples = [
        (0u8, 10i64, 5i64),
        (1, 20, 8),
        (5, -3, -1),
        (255, i64::MIN, i64::MAX),
    ];
    for (operation, left, right) in samples {
        let instr = CalculatorInstruction { operation, left, right };
        let ours = instr.encode();
        let theirs = borsh::to_vec(&(operation, left, right)).expect("Failed to serialize instruction");
        assert_eq!(ours, theirs);
    }
}

#[test]
fn decode_matches_borsh_wire_format() {
    let bytes = borsh::to_vec(&(3u8, 10i64, 0i64)).expect("Failed to serialize instruction");
    let instr = CalculatorInstruction::decode(&bytes).unwrap();
    assert_eq!(instr, CalculatorInstruction { operation: 3, left: 10, right: 0 });

    let ours = CalculatorInstruction { operation: 2, left: -40, right: 7 }.encode();
    let theirs: (u8, i64, i64) = borsh::from_slice(&ours).expect("borsh should accept our encoding");
    assert_eq!(theirs, (2, -40, 7));
}
