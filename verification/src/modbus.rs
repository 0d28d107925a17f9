//! Frames of the Modbus-like protocol spoken with the dashboard.

use vstd::prelude::*;
use vstd::slice::slice_subrange;
use crate::crc::{crc16, hash, lemma_crc16_detects_single_byte_change, lemma_crc16_residue};

verus! {

/// Address of the dashboard on the serial link.
pub const TARGET_ADDRESS: u8 = 0x01;

/// One kind of request: function code, sub-code and, for register
/// accesses, the number of registers.
#[derive(Clone, Copy)]
pub struct ModbusOperation {
    pub code: u8,
    pub subcode: u8,
    pub qtd: Option<u8>,
}

/// Reads the temperature of the motor.
#[verifier::allow_in_spec]
#[allow(non_snake_case)]
pub fn LE_TEMP() -> ModbusOperation
    returns
        (ModbusOperation { code: 0x23, subcode: 0xAA, qtd: None }),
{
    ModbusOperation { code: 0x23, subcode: 0xAA, qtd: None }
}

/// Reads the turn-signal stalk.
#[verifier::allow_in_spec]
#[allow(non_snake_case)]
pub fn CONTROL_READ_SETA() -> ModbusOperation
    returns
        (ModbusOperation { code: 0x03, subcode: 0x00, qtd: Some(1) }),
{
    ModbusOperation { code: 0x03, subcode: 0x00, qtd: Some(1) }
}

/// Writes the turn-signal stalk.
#[verifier::allow_in_spec]
#[allow(non_snake_case)]
pub fn CONTROL_WRITE_SETA() -> ModbusOperation
    returns
        (ModbusOperation { code: 0x06, subcode: 0x00, qtd: Some(1) }),
{
    ModbusOperation { code: 0x06, subcode: 0x00, qtd: Some(1) }
}

/// Reads the left turn-signal lamp.
#[verifier::allow_in_spec]
#[allow(non_snake_case)]
pub fn CONTROL_READ_SETA_ESQUERDA() -> ModbusOperation
    returns
        (ModbusOperation { code: 0x03, subcode: 0x0B, qtd: Some(1) }),
{
    ModbusOperation { code: 0x03, subcode: 0x0B, qtd: Some(1) }
}

/// Reads the right turn-signal lamp.
#[verifier::allow_in_spec]
#[allow(non_snake_case)]
pub fn CONTROL_READ_SETA_DIREITA() -> ModbusOperation
    returns
        (ModbusOperation { code: 0x03, subcode: 0x0C, qtd: Some(1) }),
{
    ModbusOperation { code: 0x03, subcode: 0x0C, qtd: Some(1) }
}

/// Writes the left turn-signal lamp.
#[verifier::allow_in_spec]
#[allow(non_snake_case)]
pub fn CONTROL_WRITE_SETA_ESQUERDA() -> ModbusOperation
    returns
        (ModbusOperation { code: 0x06, subcode: 0x0B, qtd: Some(1) }),
{
    ModbusOperation { code: 0x06, subcode: 0x0B, qtd: Some(1) }
}

/// Writes the right turn-signal lamp.
#[verifier::allow_in_spec]
#[allow(non_snake_case)]
pub fn CONTROL_WRITE_SETA_DIREITA() -> ModbusOperation
    returns
        (ModbusOperation { code: 0x06, subcode: 0x0C, qtd: Some(1) }),
{
    ModbusOperation { code: 0x06, subcode: 0x0C, qtd: Some(1) }
}

/// Reads the cruise-control stalk.
#[verifier::allow_in_spec]
#[allow(non_snake_case)]
pub fn CONTROL_CRUISE_READ() -> ModbusOperation
    returns
        (ModbusOperation { code: 0x03, subcode: 0x01, qtd: Some(1) }),
{
    ModbusOperation { code: 0x03, subcode: 0x01, qtd: Some(1) }
}

/// Writes the cruise-control stalk.
#[verifier::allow_in_spec]
#[allow(non_snake_case)]
pub fn CONTROL_CRUISE_WRITE() -> ModbusOperation
    returns
        (ModbusOperation { code: 0x06, subcode: 0x01, qtd: Some(1) }),
{
    ModbusOperation { code: 0x06, subcode: 0x01, qtd: Some(1) }
}

/// Writes the speedometer.
#[verifier::allow_in_spec]
#[allow(non_snake_case)]
pub fn CONTROL_VELOCIDADE_WRITE() -> ModbusOperation
    returns
        (ModbusOperation { code: 0x06, subcode: 0x03, qtd: Some(4) }),
{
    ModbusOperation { code: 0x06, subcode: 0x03, qtd: Some(4) }
}

/// Reads the speedometer.
#[verifier::allow_in_spec]
#[allow(non_snake_case)]
pub fn CONTROL_VELOCIDADE_READ() -> ModbusOperation
    returns
        (ModbusOperation { code: 0x03, subcode: 0x03, qtd: Some(4) }),
{
    ModbusOperation { code: 0x03, subcode: 0x03, qtd: Some(4) }
}

/// Writes the tachometer.
#[verifier::allow_in_spec]
#[allow(non_snake_case)]
pub fn CONTROL_RPM_WRITE() -> ModbusOperation
    returns
        (ModbusOperation { code: 0x06, subcode: 0x07, qtd: Some(4) }),
{
    ModbusOperation { code: 0x06, subcode: 0x07, qtd: Some(4) }
}

/// Reads the tachometer.
#[verifier::allow_in_spec]
#[allow(non_snake_case)]
pub fn CONTROL_RPM_READ() -> ModbusOperation
    returns
        (ModbusOperation { code: 0x03, subcode: 0x07, qtd: Some(4) }),
{
    ModbusOperation { code: 0x03, subcode: 0x07, qtd: Some(4) }
}

/// Reads the headlight switch.
#[verifier::allow_in_spec]
#[allow(non_snake_case)]
pub fn CONTROL_FAROL() -> ModbusOperation
    returns
        (ModbusOperation { code: 0x03, subcode: 0x02, qtd: Some(1) }),
{
    ModbusOperation { code: 0x03, subcode: 0x02, qtd: Some(1) }
}

/// Writes the headlight switch.
#[verifier::allow_in_spec]
#[allow(non_snake_case)]
pub fn CONTROL_WRITE_FAROL() -> ModbusOperation
    returns
        (ModbusOperation { code: 0x06, subcode: 0x02, qtd: Some(1) }),
{
    ModbusOperation { code: 0x06, subcode: 0x02, qtd: Some(1) }
}

/// Reads the high-beam lamp.
#[verifier::allow_in_spec]
#[allow(non_snake_case)]
pub fn CONTROL_FAROL_ALTO() -> ModbusOperation
    returns
        (ModbusOperation { code: 0x03, subcode: 0x0D, qtd: Some(1) }),
{
    ModbusOperation { code: 0x03, subcode: 0x0D, qtd: Some(1) }
}

/// Reads the low-beam lamp.
#[verifier::allow_in_spec]
#[allow(non_snake_case)]
pub fn CONTROL_FAROL_BAIXO() -> ModbusOperation
    returns
        (ModbusOperation { code: 0x03, subcode: 0x0E, qtd: Some(1) }),
{
    ModbusOperation { code: 0x03, subcode: 0x0E, qtd: Some(1) }
}

/// Writes the high-beam lamp.
#[verifier::allow_in_spec]
#[allow(non_snake_case)]
pub fn CONTROL_WRITE_FAROL_ALTO() -> ModbusOperation
    returns
        (ModbusOperation { code: 0x06, subcode: 0x0D, qtd: Some(1) }),
{
    ModbusOperation { code: 0x06, subcode: 0x0D, qtd: Some(1) }
}

/// Writes the low-beam lamp.
#[verifier::allow_in_spec]
#[allow(non_snake_case)]
pub fn CONTROL_WRITE_FAROL_BAIXO() -> ModbusOperation
    returns
        (ModbusOperation { code: 0x06, subcode: 0x0E, qtd: Some(1) }),
{
    ModbusOperation { code: 0x06, subcode: 0x0E, qtd: Some(1) }
}

/// A read of `qtd` registers starting at `address`.
#[allow(non_snake_case)]
pub fn READ_REGISTERS(address: u8, qtd: u8) -> (op: ModbusOperation)
    ensures
        op == (ModbusOperation { code: 0x03, subcode: address, qtd: Some(qtd) }),
{
    ModbusOperation { code: 0x03, subcode: address, qtd: Some(qtd) }
}

/// A write of `qtd` registers starting at `address`.
#[allow(non_snake_case)]
pub fn WRITE_REGISTERS(address: u8, qtd: u8) -> (op: ModbusOperation)
    ensures
        op == (ModbusOperation { code: 0x06, subcode: address, qtd: Some(qtd) }),
{
    ModbusOperation { code: 0x06, subcode: address, qtd: Some(qtd) }
}

/// The fixed registration code that closes the body of every request.
pub open spec fn register_code() -> Seq<u8> {
    seq![3u8, 7u8, 4u8, 3u8]
}

/// The register count byte of an operation, if it has one.
pub open spec fn qtd_bytes(op: ModbusOperation) -> Seq<u8> {
    match op.qtd {
        Some(q) => seq![q],
        None => Seq::<u8>::empty(),
    }
}

/// The bytes of a request before its checksum.
pub open spec fn frame_body(op: ModbusOperation, data: Seq<u8>) -> Seq<u8> {
    seq![TARGET_ADDRESS, op.code, op.subcode] + qtd_bytes(op) + data + register_code()
}

/// A 16-bit value as two bytes, low byte first.
pub open spec fn le_bytes(v: u16) -> Seq<u8> {
    seq![(v & 0xff) as u8, (v >> 8u16) as u8]
}

/// The 16-bit value of two bytes, low byte first.
pub open spec fn le_value(lo: u8, hi: u8) -> u16 {
    (lo as u16) | ((hi as u16) << 8u16)
}

/// A whole request: the body followed by its checksum.
pub open spec fn modbus_frame(op: ModbusOperation, data: Seq<u8>) -> Seq<u8> {
    let body = frame_body(op, data);
    body + le_bytes(crc16(body))
}

/// A buffer whose last two bytes are the checksum of the bytes before them.
pub open spec fn crc_ok(buffer: Seq<u8>) -> bool {
    &&& buffer.len() >= 2
    &&& le_value(buffer[buffer.len() - 2], buffer[buffer.len() - 1]) == crc16(
        buffer.subrange(0, buffer.len() - 2),
    )
}

/// Builds the request for `operation` carrying `data`.
pub fn create_modbus(operation: ModbusOperation, data: &[u8]) -> (buffer: Vec<u8>)
    ensures
        buffer@ == modbus_frame(operation, data@),
        ({
            let f = buffer@;
            let n = data@.len() as int;
            let h: int = if operation.qtd is Some { 4 } else { 3 };
            &&& f.len() == h + n + 6
            &&& f[0] == 0x01 && f[1] == operation.code && f[2] == operation.subcode
            &&& (operation.qtd matches Some(q) ==> f[3] == q)
            &&& forall|i: int| 0 <= i < n ==> f[h + i] == #[trigger] data@[i]
            &&& f[h + n] == 3 && f[h + n + 1] == 7 && f[h + n + 2] == 4 && f[h + n + 3] == 3
            &&& f[h + n + 4] as int + 256 * f[h + n + 5] as int == crc16(f.take(h + n + 4)) as int
        }),
{
    let mut buffer: Vec<u8> = Vec::new();
    buffer.push(TARGET_ADDRESS);
    buffer.push(operation.code);
    buffer.push(operation.subcode);
    if let Some(qtd) = operation.qtd {
        buffer.push(qtd);
    }
    let ghost head = buffer@;
    assert(head == seq![TARGET_ADDRESS, operation.code, operation.subcode] + qtd_bytes(operation));
    let mut i: usize = 0;
    while i < data.len()
        invariant
            i <= data@.len(),
            buffer@ == head + data@.take(i as int),
        decreases data@.len() - i,
    {
        buffer.push(data[i]);
        assert(data@.take(i as int + 1) =~= data@.take(i as int).push(data@[i as int]));
        i = i + 1;
    }
    assert(data@.take(data@.len() as int) =~= data@);
    let code: [u8; 4] = [3, 7, 4, 3];
    let mut j: usize = 0;
    while j < 4
        invariant
            j <= 4,
            code@ == register_code(),
            buffer@ == head + data@ + register_code().take(j as int),
        decreases 4 - j,
    {
        buffer.push(code[j]);
        assert(register_code().take(j as int + 1) =~= register_code().take(j as int).push(
            register_code()[j as int],
        ));
        j = j + 1;
    }
    assert(register_code().take(4) =~= register_code());
    assert(buffer@ =~= frame_body(operation, data@));
    let crc = hash(buffer.as_slice());
    buffer.push((crc & 0xff) as u8);
    buffer.push((crc >> 8u16) as u8);
    assert(buffer@ =~= modbus_frame(operation, data@));
    proof {
        lemma_frame_layout(operation, data@);
    }
    buffer
}

/// Whether the last two bytes of `buffer` are the checksum of the rest.
pub fn checa_crc16(buffer: &[u8]) -> (ok: bool)
    ensures
        ok == crc_ok(buffer@),
        ok == (buffer@.len() >= 2 && buffer@[buffer@.len() - 2] as int + 256 * buffer@[buffer@.len()
            - 1] as int == crc16(buffer@.take(buffer@.len() - 2)) as int),
{
    proof {
        lemma_crc_ok_compares_all_sixteen_bits(buffer@);
    }
    if buffer.len() < 2 {
        return false;
    }
    let n = buffer.len();
    let received_crc: u16 = (buffer[n - 2] as u16) | ((buffer[n - 1] as u16) << 8u16);
    let calculated_crc = hash(slice_subrange(buffer, 0, n - 2));
    received_crc == calculated_crc
}

/// The contents of a list of frames.
pub open spec fn frames_view(frames: Seq<Vec<u8>>) -> Seq<Seq<u8>> {
    frames.map_values(|f: Vec<u8>| f@)
}

fn push_frame(frames: &mut Vec<Vec<u8>>, op: ModbusOperation, data: &[u8])
    ensures
        frames_view(final(frames)@) == frames_view(old(frames)@).push(modbus_frame(op, data@)),
{
    let frame = create_modbus(op, data);
    frames.push(frame);
    assert(frames_view(frames@) =~= frames_view(old(frames)@).push(modbus_frame(op, data@)));
}

/// The requests sent when the car shuts down, in order: every lamp and
/// stalk register cleared, then speedometer and tachometer set to a speed
/// of zero (the four bytes of the float 0.0).
pub open spec fn shutdown_frames() -> Seq<Seq<u8>> {
    seq![
        modbus_frame(CONTROL_WRITE_FAROL_ALTO(), seq![0u8]),
        modbus_frame(CONTROL_WRITE_FAROL_BAIXO(), seq![0u8]),
        modbus_frame(CONTROL_WRITE_SETA_ESQUERDA(), seq![0u8]),
        modbus_frame(CONTROL_WRITE_SETA_DIREITA(), seq![0u8]),
        modbus_frame(CONTROL_CRUISE_READ(), seq![0u8]),
        modbus_frame(CONTROL_CRUISE_WRITE(), seq![0u8]),
        modbus_frame(LE_TEMP(), seq![0u8]),
        modbus_frame(CONTROL_READ_SETA(), seq![0u8]),
        modbus_frame(CONTROL_WRITE_SETA(), seq![0u8]),
        modbus_frame(CONTROL_FAROL(), seq![0u8]),
        modbus_frame(CONTROL_WRITE_FAROL(), seq![0u8]),
        modbus_frame(CONTROL_FAROL_ALTO(), seq![0u8]),
        modbus_frame(CONTROL_FAROL_BAIXO(), seq![0u8]),
        modbus_frame(CONTROL_WRITE_FAROL_ALTO(), seq![0u8]),
        modbus_frame(CONTROL_VELOCIDADE_WRITE(), seq![0u8, 0u8, 0u8, 0u8]),
        modbus_frame(CONTROL_RPM_WRITE(), seq![0u8, 0u8, 0u8, 0u8]),
        modbus_frame(CONTROL_RPM_READ(), seq![0u8, 0u8, 0u8, 0u8]),
        modbus_frame(CONTROL_VELOCIDADE_READ(), seq![0u8, 0u8, 0u8, 0u8]),
    ]
}

/// Builds the requests sent when the car shuts down.
pub fn desliga_frames() -> (frames: Vec<Vec<u8>>)
    ensures
        frames_view(frames@) == shutdown_frames(),
        ({
            let f = frames_view(frames@);
            &&& f.len() == 18
            &&& forall|i: int| 0 <= i < 18 ==> crc_ok(#[trigger] f[i])
            &&& f[0][1] == 0x06 && f[0][2] == 0x0D && f[0][3] == 1 && f[0][4] == 0
            &&& f[1][1] == 0x06 && f[1][2] == 0x0E && f[1][3] == 1 && f[1][4] == 0
            &&& f[2][1] == 0x06 && f[2][2] == 0x0B && f[2][3] == 1 && f[2][4] == 0
            &&& f[3][1] == 0x06 && f[3][2] == 0x0C && f[3][3] == 1 && f[3][4] == 0
            &&& f[14][1] == 0x06 && f[14][2] == 0x03 && f[14][3] == 4
            &&& f[14][4] == 0 && f[14][5] == 0 && f[14][6] == 0 && f[14][7] == 0
            &&& f[15][1] == 0x06 && f[15][2] == 0x07 && f[15][3] == 4
            &&& f[15][4] == 0 && f[15][5] == 0 && f[15][6] == 0 && f[15][7] == 0
        }),
{
    let zero: [u8; 1] = [0];
    let stopped: [u8; 4] = [0, 0, 0, 0];
    assert(zero@ =~= seq![0u8]);
    assert(stopped@ =~= seq![0u8, 0u8, 0u8, 0u8]);
    let mut frames: Vec<Vec<u8>> = Vec::new();
    push_frame(&mut frames, CONTROL_WRITE_FAROL_ALTO(), &zero);
    push_frame(&mut frames, CONTROL_WRITE_FAROL_BAIXO(), &zero);
    push_frame(&mut frames, CONTROL_WRITE_SETA_ESQUERDA(), &zero);
    push_frame(&mut frames, CONTROL_WRITE_SETA_DIREITA(), &zero);
    push_frame(&mut frames, CONTROL_CRUISE_READ(), &zero);
    push_frame(&mut frames, CONTROL_CRUISE_WRITE(), &zero);
    push_frame(&mut frames, LE_TEMP(), &zero);
    push_frame(&mut frames, CONTROL_READ_SETA(), &zero);
    push_frame(&mut frames, CONTROL_WRITE_SETA(), &zero);
    push_frame(&mut frames, CONTROL_FAROL(), &zero);
    push_frame(&mut frames, CONTROL_WRITE_FAROL(), &zero);
    push_frame(&mut frames, CONTROL_FAROL_ALTO(), &zero);
    push_frame(&mut frames, CONTROL_FAROL_BAIXO(), &zero);
    push_frame(&mut frames, CONTROL_WRITE_FAROL_ALTO(), &zero);
    push_frame(&mut frames, CONTROL_VELOCIDADE_WRITE(), &stopped);
    push_frame(&mut frames, CONTROL_RPM_WRITE(), &stopped);
    push_frame(&mut frames, CONTROL_RPM_READ(), &stopped);
    push_frame(&mut frames, CONTROL_VELOCIDADE_READ(), &stopped);
    assert(frames_view(frames@) =~= shutdown_frames());
    proof {
        lemma_shutdown_clears_every_lamp();
    }
    frames
}

proof fn lemma_le_value_int(lo: u8, hi: u8)
    ensures
        le_value(lo, hi) as int == lo as int + 256 * hi as int,
{
    assert((lo as u16) | ((hi as u16) << 8u16) == lo as int + 256 * hi as int) by (bit_vector);
}

proof fn lemma_le_bytes_int(v: u16)
    ensures
        le_bytes(v)[0] as int + 256 * le_bytes(v)[1] as int == v as int,
{
    assert(((v & 0xff) as u8) as int + 256 * ((v >> 8u16) as u8) as int == v as int) by (bit_vector);
}

/// The layout of every request: address 0x01, function code, sub-code,
/// the register count when the operation has one (whatever the data), the
/// data, the registration code 3, 7, 4, 3, and last the checksum of all the
/// bytes before it, low byte first.
pub proof fn lemma_frame_layout(op: ModbusOperation, data: Seq<u8>)
    ensures
        ({
            let f = modbus_frame(op, data);
            let n = data.len() as int;
            let h: int = if op.qtd is Some { 4 } else { 3 };
            &&& f.len() == h + n + 6
            &&& f[0] == 0x01 && f[1] == op.code && f[2] == op.subcode
            &&& (op.qtd matches Some(q) ==> f[3] == q)
            &&& forall|i: int| 0 <= i < n ==> f[h + i] == #[trigger] data[i]
            &&& f[h + n] == 3 && f[h + n + 1] == 7 && f[h + n + 2] == 4 && f[h + n + 3] == 3
            &&& f[h + n + 4] as int + 256 * f[h + n + 5] as int == crc16(f.take(h + n + 4)) as int
        }),
{
    let body = frame_body(op, data);
    let f = modbus_frame(op, data);
    let h: int = if op.qtd is Some { 4 } else { 3 };
    assert(body.len() == h + data.len() + 4);
    assert(f.take(body.len() as int) =~= body);
    assert forall|i: int| 0 <= i < data.len() implies f[h + i] == #[trigger] data[i] by {
        assert(f[h + i] == body[h + i]);
    }
    lemma_le_bytes_int(crc16(body));
}

/// The checksum check compares all sixteen bits: a buffer passes exactly
/// when it has at least two bytes and its last two, read low byte first,
/// equal the CRC of the bytes before them.
pub proof fn lemma_crc_ok_compares_all_sixteen_bits(b: Seq<u8>)
    ensures
        crc_ok(b) == (b.len() >= 2 && b[b.len() - 2] as int + 256 * b[b.len() - 1] as int == crc16(
            b.take(b.len() - 2),
        ) as int),
{
    if b.len() >= 2 {
        lemma_le_value_int(b[b.len() - 2], b[b.len() - 1]);
        assert(b.subrange(0, b.len() - 2) =~= b.take(b.len() - 2));
    }
}

/// Changing any single byte of a buffer that passes the checksum check,
/// the checksum bytes included, makes it fail the check.
pub proof fn lemma_single_byte_change_rejected(b: Seq<u8>, k: int, v: u8)
    requires
        crc_ok(b),
        0 <= k < b.len(),
        b[k] != v,
    ensures
        !crc_ok(b.update(k, v)),
{
    let c = b.update(k, v);
    let n = b.len() as int;
    lemma_crc_ok_compares_all_sixteen_bits(b);
    lemma_crc_ok_compares_all_sixteen_bits(c);
    if k < n - 2 {
        assert(c.take(n - 2) =~= b.take(n - 2).update(k, v));
        lemma_crc16_detects_single_byte_change(b.take(n - 2), k, v);
        assert(c[n - 2] == b[n - 2] && c[n - 1] == b[n - 1]);
    } else {
        assert(c.take(n - 2) =~= b.take(n - 2));
    }
}

/// The shutdown requests all pass the checksum check; the first four write
/// 0 to the high-beam (0x0D), low-beam (0x0E), left-signal (0x0B) and
/// right-signal (0x0C) lamp registers, and two later ones write a speed of
/// zero to the speedometer (0x03) and the tachometer (0x07).
pub proof fn lemma_shutdown_clears_every_lamp()
    ensures
        ({
            let f = shutdown_frames();
            &&& f.len() == 18
            &&& forall|i: int| 0 <= i < 18 ==> crc_ok(#[trigger] f[i])
            &&& f[0][1] == 0x06 && f[0][2] == 0x0D && f[0][3] == 1 && f[0][4] == 0
            &&& f[1][1] == 0x06 && f[1][2] == 0x0E && f[1][3] == 1 && f[1][4] == 0
            &&& f[2][1] == 0x06 && f[2][2] == 0x0B && f[2][3] == 1 && f[2][4] == 0
            &&& f[3][1] == 0x06 && f[3][2] == 0x0C && f[3][3] == 1 && f[3][4] == 0
            &&& f[14][1] == 0x06 && f[14][2] == 0x03 && f[14][3] == 4
            &&& f[14][4] == 0 && f[14][5] == 0 && f[14][6] == 0 && f[14][7] == 0
            &&& f[15][1] == 0x06 && f[15][2] == 0x07 && f[15][3] == 4
            &&& f[15][4] == 0 && f[15][5] == 0 && f[15][6] == 0 && f[15][7] == 0
        }),
{
    lemma_frame_layout(CONTROL_WRITE_FAROL_ALTO(), seq![0u8]);
    lemma_frame_passes_crc_check(CONTROL_WRITE_FAROL_ALTO(), seq![0u8]);
    lemma_frame_layout(CONTROL_WRITE_FAROL_BAIXO(), seq![0u8]);
    lemma_frame_passes_crc_check(CONTROL_WRITE_FAROL_BAIXO(), seq![0u8]);
    lemma_frame_layout(CONTROL_WRITE_SETA_ESQUERDA(), seq![0u8]);
    lemma_frame_passes_crc_check(CONTROL_WRITE_SETA_ESQUERDA(), seq![0u8]);
    lemma_frame_layout(CONTROL_WRITE_SETA_DIREITA(), seq![0u8]);
    lemma_frame_passes_crc_check(CONTROL_WRITE_SETA_DIREITA(), seq![0u8]);
    lemma_frame_layout(CONTROL_CRUISE_READ(), seq![0u8]);
    lemma_frame_passes_crc_check(CONTROL_CRUISE_READ(), seq![0u8]);
    lemma_frame_layout(CONTROL_CRUISE_WRITE(), seq![0u8]);
    lemma_frame_passes_crc_check(CONTROL_CRUISE_WRITE(), seq![0u8]);
    lemma_frame_layout(LE_TEMP(), seq![0u8]);
    lemma_frame_passes_crc_check(LE_TEMP(), seq![0u8]);
    lemma_frame_layout(CONTROL_READ_SETA(), seq![0u8]);
    lemma_frame_passes_crc_check(CONTROL_READ_SETA(), seq![0u8]);
    lemma_frame_layout(CONTROL_WRITE_SETA(), seq![0u8]);
    lemma_frame_passes_crc_check(CONTROL_WRITE_SETA(), seq![0u8]);
    lemma_frame_layout(CONTROL_FAROL(), seq![0u8]);
    lemma_frame_passes_crc_check(CONTROL_FAROL(), seq![0u8]);
    lemma_frame_layout(CONTROL_WRITE_FAROL(), seq![0u8]);
    lemma_frame_passes_crc_check(CONTROL_WRITE_FAROL(), seq![0u8]);
    lemma_frame_layout(CONTROL_FAROL_ALTO(), seq![0u8]);
    lemma_frame_passes_crc_check(CONTROL_FAROL_ALTO(), seq![0u8]);
    lemma_frame_layout(CONTROL_FAROL_BAIXO(), seq![0u8]);
    lemma_frame_passes_crc_check(CONTROL_FAROL_BAIXO(), seq![0u8]);
    lemma_frame_layout(CONTROL_WRITE_FAROL_ALTO(), seq![0u8]);
    lemma_frame_passes_crc_check(CONTROL_WRITE_FAROL_ALTO(), seq![0u8]);
    lemma_frame_layout(CONTROL_VELOCIDADE_WRITE(), seq![0u8, 0u8, 0u8, 0u8]);
    lemma_frame_passes_crc_check(CONTROL_VELOCIDADE_WRITE(), seq![0u8, 0u8, 0u8, 0u8]);
    lemma_frame_layout(CONTROL_RPM_WRITE(), seq![0u8, 0u8, 0u8, 0u8]);
    lemma_frame_passes_crc_check(CONTROL_RPM_WRITE(), seq![0u8, 0u8, 0u8, 0u8]);
    lemma_frame_layout(CONTROL_RPM_READ(), seq![0u8, 0u8, 0u8, 0u8]);
    lemma_frame_passes_crc_check(CONTROL_RPM_READ(), seq![0u8, 0u8, 0u8, 0u8]);
    lemma_frame_layout(CONTROL_VELOCIDADE_READ(), seq![0u8, 0u8, 0u8, 0u8]);
    lemma_frame_passes_crc_check(CONTROL_VELOCIDADE_READ(), seq![0u8, 0u8, 0u8, 0u8]);
    let f = shutdown_frames();
    assert forall|i: int| 0 <= i < 18 implies crc_ok(#[trigger] f[i]) by {
        if i == 0 { } else if i == 1 { } else if i == 2 { } else if i == 3 { } else if i == 4 {
        } else if i == 5 { } else if i == 6 { } else if i == 7 { } else if i == 8 {
        } else if i == 9 { } else if i == 10 { } else if i == 11 { } else if i == 12 {
        } else if i == 13 { } else if i == 14 { } else if i == 15 { } else if i == 16 {
        } else { }
    }
}

/// Running the CRC over a whole request, checksum included, gives 0.
pub proof fn lemma_whole_frame_crc_is_zero(op: ModbusOperation, data: Seq<u8>)
    ensures
        crc16(modbus_frame(op, data)) == 0,
{
    let body = frame_body(op, data);
    let c = crc16(body);
    lemma_crc16_residue(body);
    assert(modbus_frame(op, data) =~= body.push((c & 0xff) as u8).push((c >> 8u16) as u8));
}

proof fn lemma_le_roundtrip(v: u16)
    ensures
        le_value(le_bytes(v)[0], le_bytes(v)[1]) == v,
{
    assert(((v & 0xff) as u8) as u16 | (((v >> 8u16) as u8) as u16) << 8u16 == v) by (bit_vector);
}

/// Every request built by `create_modbus` passes `checa_crc16`.
pub proof fn lemma_frame_passes_crc_check(op: ModbusOperation, data: Seq<u8>)
    ensures
        crc_ok(modbus_frame(op, data)),
{
    let body = frame_body(op, data);
    let f = modbus_frame(op, data);
    lemma_le_roundtrip(crc16(body));
    assert(f.subrange(0, f.len() - 2) =~= body);
}

} // verus!
