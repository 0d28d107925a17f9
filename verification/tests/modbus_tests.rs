use carro::crc::hash;
use carro::modbus::{
    checa_crc16, create_modbus, desliga_frames, ModbusOperation, READ_REGISTERS, WRITE_REGISTERS,
    CONTROL_CRUISE_WRITE, CONTROL_READ_SETA_ESQUERDA, CONTROL_VELOCIDADE_WRITE,
    CONTROL_WRITE_FAROL_ALTO, CONTROL_WRITE_SETA, CONTROL_WRITE_SETA_DIREITA, LE_TEMP,
    CONTROL_VELOCIDADE_READ,
};

#[test]
fn crc_check_value() {
    assert_eq!(hash(b"123456789"), 0xBB3D);
    assert_eq!(hash(&[]), 0);
}

#[test]
fn temperature_request_bytes() {
    let frame = create_modbus(LE_TEMP(), &[]);
    assert_eq!(frame, vec![0x01, 0x23, 0xAA, 3, 7, 4, 3, 0xFC, 0xCF]);
}

#[test]
fn register_write_request_bytes() {
    let frame = create_modbus(CONTROL_WRITE_SETA_DIREITA(), &[1]);
    assert_eq!(frame, vec![0x01, 0x06, 0x0C, 0x01, 0x01, 3, 7, 4, 3, 0x8E, 0xEF]);
    let frame = create_modbus(CONTROL_WRITE_SETA(), &[0]);
    assert_eq!(frame, vec![0x01, 0x06, 0x00, 0x01, 0x00, 3, 7, 4, 3, 0x7F, 0x2F]);
}

#[test]
fn speed_request_carries_float_bytes() {
    let frame = create_modbus(CONTROL_VELOCIDADE_WRITE(), &10.0f32.to_le_bytes());
    assert_eq!(
        frame,
        vec![0x01, 0x06, 0x03, 0x04, 0x00, 0x00, 0x20, 0x41, 3, 7, 4, 3, 0xE9, 0xAF]
    );
}

#[test]
fn register_constructors() {
    let op: ModbusOperation = READ_REGISTERS(0x0B, 1);
    assert_eq!(create_modbus(op, &[]), create_modbus(CONTROL_READ_SETA_ESQUERDA(), &[]));
    let op = WRITE_REGISTERS(0x0D, 1);
    assert_eq!((op.code, op.subcode, op.qtd), (0x06, 0x0D, Some(1)));
    assert_eq!(create_modbus(op, &[0]), create_modbus(CONTROL_WRITE_FAROL_ALTO(), &[0]));
    let op = READ_REGISTERS(0x03, 4);
    assert_eq!(create_modbus(op, &[]), create_modbus(CONTROL_VELOCIDADE_READ(), &[]));
}

#[test]
fn built_frames_pass_the_check() {
    for data in [vec![], vec![0u8], vec![1, 2, 3, 4], vec![0xFF; 40]] {
        assert!(checa_crc16(&create_modbus(CONTROL_CRUISE_WRITE(), &data)));
        assert!(checa_crc16(&create_modbus(LE_TEMP(), &data)));
    }
}

#[test]
fn check_rejects_corrupted_and_short_buffers() {
    let mut frame = create_modbus(LE_TEMP(), &[]);
    frame[1] ^= 0x01;
    assert!(!checa_crc16(&frame));
    let mut frame = create_modbus(LE_TEMP(), &[]);
    let n = frame.len();
    frame[n - 1] ^= 0x80;
    assert!(!checa_crc16(&frame));
    assert!(!checa_crc16(&[]));
    assert!(!checa_crc16(&[0x00]));
    assert!(checa_crc16(&[0x00, 0x00]));
}

#[test]
fn shutdown_sequence() {
    let frames = desliga_frames();
    assert_eq!(frames.len(), 18);
    assert_eq!(frames[0], create_modbus(CONTROL_WRITE_FAROL_ALTO(), &[0]));
    assert_eq!(frames[5], create_modbus(CONTROL_CRUISE_WRITE(), &[0]));
    assert_eq!(frames[13], create_modbus(CONTROL_WRITE_FAROL_ALTO(), &[0]));
    assert_eq!(frames[14], create_modbus(CONTROL_VELOCIDADE_WRITE(), &0.0f32.to_le_bytes()));
    assert_eq!(frames[17], create_modbus(CONTROL_VELOCIDADE_READ(), &[0, 0, 0, 0]));
    for f in &frames {
        assert!(checa_crc16(f));
    }
}
