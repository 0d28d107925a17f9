//! What the car does with each reading of the dashboard's stalks, and the
//! requests it answers with.

use vstd::prelude::*;
use crate::common::{CruiseControl, Direction};
use crate::modbus::{
    create_modbus, crc_ok, frames_view, lemma_frame_layout, lemma_frame_passes_crc_check, modbus_frame, ModbusOperation, CONTROL_CRUISE_WRITE, CONTROL_WRITE_FAROL,
    CONTROL_WRITE_FAROL_ALTO, CONTROL_WRITE_FAROL_BAIXO, CONTROL_WRITE_SETA, CONTROL_WRITE_SETA_DIREITA,
    CONTROL_WRITE_SETA_ESQUERDA,
};

verus! {

/// The state of the car that the dashboard logic reads and changes.
#[derive(PartialEq, Eq, Structural, Debug, Clone, Copy)]
pub struct CarState {
    pub current_direction: Direction,
    pub seta_esquerda: bool,
    pub seta_direita: bool,
    pub farol_baixo: bool,
    pub farol_alto: bool,
    pub cruise_control: bool,
    pub temp_alert: bool,
}

impl CarState {
    /// A car at rest: motor idle, every lamp and cruise control off.
    pub fn new() -> (s: CarState)
        ensures
            s == (CarState {
                current_direction: Direction::Idle,
                seta_esquerda: false,
                seta_direita: false,
                farol_baixo: false,
                farol_alto: false,
                cruise_control: false,
                temp_alert: false,
            }),
    {
        CarState {
            current_direction: Direction::Idle,
            seta_esquerda: false,
            seta_direita: false,
            farol_baixo: false,
            farol_alto: false,
            cruise_control: false,
            temp_alert: false,
        }
    }
}

/// Acceleration and brake duty cycles for each direction.
pub open spec fn duty_cycles(direction: Direction) -> (u8, u8) {
    match direction {
        Direction::Idle => (0, 0),
        Direction::Accelerate => (1, 0),
        Direction::Reverse => (0, 1),
        Direction::Brake => (1, 1),
    }
}

/// The acceleration and brake duty cycles that the motor driver is set to
/// for `direction`.
pub fn motor_duty(direction: Direction) -> (duty: (u8, u8))
    ensures
        duty == duty_cycles(direction),
{
    match direction {
        Direction::Idle => (0, 0),
        Direction::Accelerate => (1, 0),
        Direction::Reverse => (0, 1),
        Direction::Brake => (1, 1),
    }
}

/// The requests that flip one lamp: first the switch register is cleared,
/// then the lamp register is set to its new value.
pub struct SwitchPlan {
    pub frames: Vec<Vec<u8>>,
    pub turn_on: bool,
}

impl View for SwitchPlan {
    type V = (Seq<Seq<u8>>, bool);

    open spec fn view(&self) -> (Seq<Seq<u8>>, bool) {
        (frames_view(self.frames@), self.turn_on)
    }
}

/// The two requests that flip the lamp written by `lamp`, which was `was_on`.
pub open spec fn switch_frames(switch: ModbusOperation, lamp: ModbusOperation, was_on: bool) -> Seq<
    Seq<u8>,
> {
    seq![
        modbus_frame(switch, seq![0u8]),
        modbus_frame(lamp, seq![if was_on { 0u8 } else { 1u8 }]),
    ]
}

fn two_frames(first: Vec<u8>, second: Vec<u8>) -> (frames: Vec<Vec<u8>>)
    ensures
        frames_view(frames@) == seq![first@, second@],
        frames@.len() == 2,
        frames@[0]@ == first@,
        frames@[1]@ == second@,
{
    let mut frames: Vec<Vec<u8>> = Vec::new();
    frames.push(first);
    frames.push(second);
    assert(frames_view(frames@) =~= seq![first@, second@]);
    frames
}

/// Flips a turn signal: `direction` 1 is the right one, any other the left
/// one; `estado` is whether it is blinking.
pub fn muda_seta(direction: usize, estado: &mut bool) -> (plan: SwitchPlan)
    ensures
        *final(estado) == !*old(estado),
        plan@ == (
            switch_frames(
                CONTROL_WRITE_SETA(),
                if direction == 1 {
                    CONTROL_WRITE_SETA_DIREITA()
                } else {
                    CONTROL_WRITE_SETA_ESQUERDA()
                },
                *old(estado),
            ),
            !*old(estado),
        ),
        plan.frames@.len() == 2,
        plan.frames@[0]@[1] == 0x06 && plan.frames@[0]@[2] == 0x00 && plan.frames@[0]@[4] == 0,
        plan.frames@[1]@[1] == 0x06 && plan.frames@[1]@[2] == (if direction == 1 {
            0x0Cu8
        } else {
            0x0Bu8
        }),
        plan.frames@[1]@[4] == (if *final(estado) { 1u8 } else { 0u8 }),
{
    proof {
        lemma_frame_layout(CONTROL_WRITE_SETA(), seq![0u8]);
        lemma_frame_layout(CONTROL_WRITE_SETA_DIREITA(), seq![if *estado { 0u8 } else { 1u8 }]);
        lemma_frame_layout(CONTROL_WRITE_SETA_ESQUERDA(), seq![if *estado { 0u8 } else { 1u8 }]);
    }
    let zero: [u8; 1] = [0];
    assert(zero@ =~= seq![0u8]);
    let clear = create_modbus(CONTROL_WRITE_SETA(), &zero);
    let lamp = if direction == 1 {
        CONTROL_WRITE_SETA_DIREITA()
    } else {
        CONTROL_WRITE_SETA_ESQUERDA()
    };
    let value: u8 = if *estado {
        0
    } else {
        1
    };
    let data: [u8; 1] = [value];
    assert(data@ =~= seq![value]);
    let request = create_modbus(lamp, &data);
    let turn_on = !*estado;
    *estado = !*estado;
    let frames = two_frames(clear, request);
    SwitchPlan { frames, turn_on }
}

/// Flips a headlight: `farol_direcao` 2 is the low beam, any other the high
/// beam; `estado` is whether it is lit.
pub fn muda_farol(farol_direcao: usize, estado: &mut bool) -> (plan: SwitchPlan)
    ensures
        *final(estado) == !*old(estado),
        plan@ == (
            switch_frames(
                CONTROL_WRITE_FAROL(),
                if farol_direcao == 2 {
                    CONTROL_WRITE_FAROL_BAIXO()
                } else {
                    CONTROL_WRITE_FAROL_ALTO()
                },
                *old(estado),
            ),
            !*old(estado),
        ),
        plan.frames@.len() == 2,
        plan.frames@[0]@[1] == 0x06 && plan.frames@[0]@[2] == 0x02 && plan.frames@[0]@[4] == 0,
        plan.frames@[1]@[1] == 0x06 && plan.frames@[1]@[2] == (if farol_direcao == 2 {
            0x0Eu8
        } else {
            0x0Du8
        }),
        plan.frames@[1]@[4] == (if *final(estado) { 1u8 } else { 0u8 }),
{
    proof {
        lemma_frame_layout(CONTROL_WRITE_FAROL(), seq![0u8]);
        lemma_frame_layout(CONTROL_WRITE_FAROL_BAIXO(), seq![if *estado { 0u8 } else { 1u8 }]);
        lemma_frame_layout(CONTROL_WRITE_FAROL_ALTO(), seq![if *estado { 0u8 } else { 1u8 }]);
    }
    let zero: [u8; 1] = [0];
    assert(zero@ =~= seq![0u8]);
    let clear = create_modbus(CONTROL_WRITE_FAROL(), &zero);
    let lamp = if farol_direcao == 2 {
        CONTROL_WRITE_FAROL_BAIXO()
    } else {
        CONTROL_WRITE_FAROL_ALTO()
    };
    let value: u8 = if *estado {
        0
    } else {
        1
    };
    let data: [u8; 1] = [value];
    assert(data@ =~= seq![value]);
    let request = create_modbus(lamp, &data);
    let turn_on = !*estado;
    *estado = !*estado;
    let frames = two_frames(clear, request);
    SwitchPlan { frames, turn_on }
}

/// The state after the turn-signal stalk reads `leitura`: its low two bits
/// 0b10 flip the right signal, 0b01 the left one.
pub open spec fn seta_next(s: CarState, leitura: u8) -> CarState {
    if leitura % 4 == 2 {
        CarState { seta_direita: !s.seta_direita, ..s }
    } else if leitura % 4 == 1 {
        CarState { seta_esquerda: !s.seta_esquerda, ..s }
    } else {
        s
    }
}

/// Which signal the stalk reading flips (1 right, 2 left) and the plan for it.
pub open spec fn seta_plan(s: CarState, leitura: u8) -> Option<(usize, (Seq<Seq<u8>>, bool))> {
    if leitura % 4 == 2 {
        Some(
            (
                1,
                (
                    switch_frames(CONTROL_WRITE_SETA(), CONTROL_WRITE_SETA_DIREITA(), s.seta_direita),
                    !s.seta_direita,
                ),
            ),
        )
    } else if leitura % 4 == 1 {
        Some(
            (
                2,
                (
                    switch_frames(
                        CONTROL_WRITE_SETA(),
                        CONTROL_WRITE_SETA_ESQUERDA(),
                        s.seta_esquerda,
                    ),
                    !s.seta_esquerda,
                ),
            ),
        )
    } else {
        None
    }
}

/// Acts on a reading of the turn-signal stalk.
pub fn seta(state: &mut CarState, leitura: u8) -> (r: Option<(usize, SwitchPlan)>)
    ensures
        *final(state) == seta_next(*old(state), leitura),
        match r {
            Some((d, plan)) => seta_plan(*old(state), leitura) == Some((d, plan@)),
            None => seta_plan(*old(state), leitura) is None,
        },
        r is None <==> (leitura % 4 == 0 || leitura % 4 == 3),
        r matches Some((d, plan)) ==> {
            &&& (d == 1 <==> leitura % 4 == 2) && (d == 2 <==> leitura % 4 == 1)
            &&& plan.frames@.len() == 2
            &&& plan.frames@[0]@[1] == 0x06 && plan.frames@[0]@[2] == 0x00 && plan.frames@[0]@[4] == 0
            &&& plan.frames@[1]@[1] == 0x06
            &&& plan.frames@[1]@[2] == (if d == 1 { 0x0Cu8 } else { 0x0Bu8 })
            &&& plan.frames@[1]@[4] == (if plan.turn_on { 1u8 } else { 0u8 })
        },
{
    proof {
        lemma_seta_signals_the_chosen_side(*state, leitura);
    }
    let ultimos_dois_bits = leitura & 0b00000011;
    assert(leitura & 0b00000011 == leitura % 4) by (bit_vector);
    if ultimos_dois_bits == 0b10 {
        let plan = muda_seta(1, &mut state.seta_direita);
        Some((1, plan))
    } else if ultimos_dois_bits == 0b01 {
        let plan = muda_seta(2, &mut state.seta_esquerda);
        Some((2, plan))
    } else {
        None
    }
}

/// The state after the headlight stalk reads `leitura`: its low two bits
/// 0b10 flip the high beam, 0b01 the low beam.
pub open spec fn farol_next(s: CarState, leitura: u8) -> CarState {
    if leitura % 4 == 2 {
        CarState { farol_alto: !s.farol_alto, ..s }
    } else if leitura % 4 == 1 {
        CarState { farol_baixo: !s.farol_baixo, ..s }
    } else {
        s
    }
}

/// Which headlight the stalk reading flips (1 high, 2 low) and the plan for it.
pub open spec fn farol_plan(s: CarState, leitura: u8) -> Option<(usize, (Seq<Seq<u8>>, bool))> {
    if leitura % 4 == 2 {
        Some(
            (
                1,
                (
                    switch_frames(CONTROL_WRITE_FAROL(), CONTROL_WRITE_FAROL_ALTO(), s.farol_alto),
                    !s.farol_alto,
                ),
            ),
        )
    } else if leitura % 4 == 1 {
        Some(
            (
                2,
                (
                    switch_frames(CONTROL_WRITE_FAROL(), CONTROL_WRITE_FAROL_BAIXO(), s.farol_baixo),
                    !s.farol_baixo,
                ),
            ),
        )
    } else {
        None
    }
}

/// Acts on a reading of the headlight stalk.
pub fn farol(state: &mut CarState, leitura: u8) -> (r: Option<(usize, SwitchPlan)>)
    ensures
        *final(state) == farol_next(*old(state), leitura),
        match r {
            Some((d, plan)) => farol_plan(*old(state), leitura) == Some((d, plan@)),
            None => farol_plan(*old(state), leitura) is None,
        },
        r is None <==> (leitura % 4 == 0 || leitura % 4 == 3),
        r matches Some((d, plan)) ==> {
            &&& (d == 1 <==> leitura % 4 == 2) && (d == 2 <==> leitura % 4 == 1)
            &&& plan.frames@.len() == 2
            &&& plan.frames@[0]@[1] == 0x06 && plan.frames@[0]@[2] == 0x02 && plan.frames@[0]@[4] == 0
            &&& plan.frames@[1]@[1] == 0x06
            &&& plan.frames@[1]@[2] == (if d == 1 { 0x0Du8 } else { 0x0Eu8 })
            &&& plan.frames@[1]@[4] == (if plan.turn_on { 1u8 } else { 0u8 })
        },
{
    proof {
        lemma_farol_switches_the_chosen_beam(*state, leitura);
    }
    let ultimos_dois_bits = leitura & 0b00000011;
    assert(leitura & 0b00000011 == leitura % 4) by (bit_vector);
    if ultimos_dois_bits == 0b10 {
        let plan = muda_farol(1, &mut state.farol_alto);
        Some((1, plan))
    } else if ultimos_dois_bits == 0b01 {
        let plan = muda_farol(2, &mut state.farol_baixo);
        Some((2, plan))
    } else {
        None
    }
}

/// A command of the cruise-control stalk that the car acts on, and the
/// request it answers with, if any.
pub struct CruiseAction {
    pub command: CruiseControl,
    pub request: Option<Vec<u8>>,
}

impl View for CruiseAction {
    type V = (CruiseControl, Option<Seq<u8>>);

    open spec fn view(&self) -> (CruiseControl, Option<Seq<u8>>) {
        (
            self.command,
            match self.request {
                Some(f) => Some(f@),
                None => None,
            },
        )
    }
}

/// The state after the cruise-control stalk reads `leitura`: 1 engages
/// cruise control (and idles the motor) when it is off, 2 releases it when
/// it is on; nothing else changes the state.
pub open spec fn cruise_next(s: CarState, leitura: u8) -> CarState {
    if leitura == 1 && !s.cruise_control {
        CarState { cruise_control: true, current_direction: Direction::Idle, ..s }
    } else if leitura == 2 && s.cruise_control {
        CarState { cruise_control: false, ..s }
    } else {
        s
    }
}

/// The command that a cruise-control reading stands for, given the state:
/// 1 resumes when off, 2 cancels, 4 raises and 8 lowers the speed when on.
/// Resume and cancel are echoed to the dashboard.
pub open spec fn cruise_plan(s: CarState, leitura: u8) -> Option<(CruiseControl, Option<Seq<u8>>)> {
    if leitura == 1 && !s.cruise_control {
        Some((CruiseControl::Res, Some(modbus_frame(CONTROL_CRUISE_WRITE(), seq![1u8]))))
    } else if leitura == 2 && s.cruise_control {
        Some((CruiseControl::Cancel, Some(modbus_frame(CONTROL_CRUISE_WRITE(), seq![2u8]))))
    } else if leitura == 4 && s.cruise_control {
        Some((CruiseControl::Plus, None))
    } else if leitura == 8 && s.cruise_control {
        Some((CruiseControl::Minus, None))
    } else {
        None
    }
}

/// Acts on a reading of the cruise-control stalk.
pub fn cruise_control(state: &mut CarState, leitura: u8) -> (r: Option<CruiseAction>)
    ensures
        *final(state) == cruise_next(*old(state), leitura),
        match r {
            Some(a) => cruise_plan(*old(state), leitura) == Some(a@),
            None => cruise_plan(*old(state), leitura) is None,
        },
        r matches Some(a) ==> {
            &&& (a.request is Some <==> (a.command == CruiseControl::Res || a.command
                == CruiseControl::Cancel))
            &&& (a.request matches Some(f) ==> f@[1] == 0x06 && f@[2] == 0x01 && f@[4] == leitura)
        },
{
    proof {
        lemma_cruise_commands_and_requests(*state, leitura);
    }
    if leitura == 0b00000001 && !state.cruise_control {
        let data: [u8; 1] = [1];
        assert(data@ =~= seq![1u8]);
        let request = create_modbus(CONTROL_CRUISE_WRITE(), &data);
        state.cruise_control = true;
        state.current_direction = Direction::Idle;
        Some(CruiseAction { command: CruiseControl::Res, request: Some(request) })
    } else if leitura == 0b00000010 && state.cruise_control {
        let data: [u8; 1] = [2];
        assert(data@ =~= seq![2u8]);
        let request = create_modbus(CONTROL_CRUISE_WRITE(), &data);
        state.cruise_control = false;
        Some(CruiseAction { command: CruiseControl::Cancel, request: Some(request) })
    } else if leitura == 0b00000100 && state.cruise_control {
        Some(CruiseAction { command: CruiseControl::Plus, request: None })
    } else if leitura == 0b00001000 && state.cruise_control {
        Some(CruiseAction { command: CruiseControl::Minus, request: None })
    } else {
        None
    }
}

/// Reading the same turn-signal position twice leaves every lamp as it was.
pub proof fn lemma_seta_twice_restores(s: CarState, leitura: u8)
    ensures
        seta_next(seta_next(s, leitura), leitura) == s,
{
}

/// Reading the same headlight position twice leaves every lamp as it was.
pub proof fn lemma_farol_twice_restores(s: CarState, leitura: u8)
    ensures
        farol_next(farol_next(s, leitura), leitura) == s,
{
}

/// While cruise control is off, only the resume reading (1) has an effect;
/// while it is on, resume has none.
pub proof fn lemma_cruise_guards(s: CarState, leitura: u8)
    ensures
        !s.cruise_control && leitura != 1 ==> cruise_next(s, leitura) == s
            && cruise_plan(s, leitura) is None,
        s.cruise_control && leitura == 1 ==> cruise_next(s, leitura) == s
            && cruise_plan(s, leitura) is None,
{
}

/// Engaging cruise control and then cancelling it leaves it off, with the
/// motor idle and every lamp as it was.
pub proof fn lemma_cruise_engage_then_cancel(s: CarState)
    requires
        !s.cruise_control,
    ensures
        cruise_next(cruise_next(s, 1), 2) == (CarState { current_direction: Direction::Idle, ..s }),
{
}

/// Raising or lowering the set speed never changes the state.
pub proof fn lemma_cruise_speed_steps_keep_state(s: CarState)
    ensures
        cruise_next(s, 4) == s,
        cruise_next(s, 8) == s,
{
}

/// Low bits 0b01 flip the left signal and write its new state to the
/// left-lamp register (0x0B); 0b10 flip the right signal and write the
/// right-lamp register (0x0C); both first clear the stalk register (0x00).
/// Other readings do nothing, and no reading touches the motor, cruise
/// control or the temperature alarm.
pub proof fn lemma_seta_signals_the_chosen_side(s: CarState, leitura: u8)
    ensures
        leitura % 4 == 1 ==> ({
            let p = seta_plan(s, leitura).unwrap();
            let t = seta_next(s, leitura);
            &&& seta_plan(s, leitura) is Some
            &&& p.0 == 2
            &&& p.1.1 == !s.seta_esquerda
            &&& p.1.0.len() == 2
            &&& p.1.0[0][1] == 0x06 && p.1.0[0][2] == 0x00 && p.1.0[0][3] == 1 && p.1.0[0][4] == 0
            &&& crc_ok(p.1.0[0]) && crc_ok(p.1.0[1])
            &&& p.1.0[1][1] == 0x06 && p.1.0[1][2] == 0x0B && p.1.0[1][3] == 1
            &&& p.1.0[1][4] == (if s.seta_esquerda { 0u8 } else { 1u8 })
            &&& t.seta_esquerda == !s.seta_esquerda && t.seta_direita == s.seta_direita
        }),
        leitura % 4 == 2 ==> ({
            let p = seta_plan(s, leitura).unwrap();
            let t = seta_next(s, leitura);
            &&& seta_plan(s, leitura) is Some
            &&& p.0 == 1
            &&& p.1.1 == !s.seta_direita
            &&& p.1.0.len() == 2
            &&& p.1.0[0][1] == 0x06 && p.1.0[0][2] == 0x00 && p.1.0[0][3] == 1 && p.1.0[0][4] == 0
            &&& crc_ok(p.1.0[0]) && crc_ok(p.1.0[1])
            &&& p.1.0[1][1] == 0x06 && p.1.0[1][2] == 0x0C && p.1.0[1][3] == 1
            &&& p.1.0[1][4] == (if s.seta_direita { 0u8 } else { 1u8 })
            &&& t.seta_direita == !s.seta_direita && t.seta_esquerda == s.seta_esquerda
        }),
        leitura % 4 == 0 || leitura % 4 == 3 ==> seta_plan(s, leitura) is None && seta_next(s, leitura) == s,
        ({
            let t = seta_next(s, leitura);
            &&& t.current_direction == s.current_direction && t.cruise_control == s.cruise_control
            &&& t.temp_alert == s.temp_alert
        }),
{
    lemma_frame_layout(CONTROL_WRITE_SETA(), seq![0u8]);
    lemma_frame_passes_crc_check(CONTROL_WRITE_SETA(), seq![0u8]);
    lemma_frame_layout(CONTROL_WRITE_SETA_ESQUERDA(), seq![if s.seta_esquerda { 0u8 } else { 1u8 }]);
    lemma_frame_passes_crc_check(CONTROL_WRITE_SETA_ESQUERDA(), seq![if s.seta_esquerda { 0u8 } else { 1u8 }]);
    lemma_frame_layout(CONTROL_WRITE_SETA_DIREITA(), seq![if s.seta_direita { 0u8 } else { 1u8 }]);
    lemma_frame_passes_crc_check(CONTROL_WRITE_SETA_DIREITA(), seq![if s.seta_direita { 0u8 } else { 1u8 }]);
}

/// Low bits 0b01 flip the low beam and write its new state to the low-beam
/// register (0x0E); 0b10 flip the high beam and write the high-beam
/// register (0x0D); both first clear the switch register (0x02). Other
/// readings do nothing, and no reading touches the motor, cruise control or
/// the temperature alarm.
pub proof fn lemma_farol_switches_the_chosen_beam(s: CarState, leitura: u8)
    ensures
        leitura % 4 == 1 ==> ({
            let p = farol_plan(s, leitura).unwrap();
            let t = farol_next(s, leitura);
            &&& farol_plan(s, leitura) is Some
            &&& p.0 == 2
            &&& p.1.1 == !s.farol_baixo
            &&& p.1.0.len() == 2
            &&& p.1.0[0][1] == 0x06 && p.1.0[0][2] == 0x02 && p.1.0[0][3] == 1 && p.1.0[0][4] == 0
            &&& crc_ok(p.1.0[0]) && crc_ok(p.1.0[1])
            &&& p.1.0[1][1] == 0x06 && p.1.0[1][2] == 0x0E && p.1.0[1][3] == 1
            &&& p.1.0[1][4] == (if s.farol_baixo { 0u8 } else { 1u8 })
            &&& t.farol_baixo == !s.farol_baixo && t.farol_alto == s.farol_alto
        }),
        leitura % 4 == 2 ==> ({
            let p = farol_plan(s, leitura).unwrap();
            let t = farol_next(s, leitura);
            &&& farol_plan(s, leitura) is Some
            &&& p.0 == 1
            &&& p.1.1 == !s.farol_alto
            &&& p.1.0.len() == 2
            &&& p.1.0[0][1] == 0x06 && p.1.0[0][2] == 0x02 && p.1.0[0][3] == 1 && p.1.0[0][4] == 0
            &&& crc_ok(p.1.0[0]) && crc_ok(p.1.0[1])
            &&& p.1.0[1][1] == 0x06 && p.1.0[1][2] == 0x0D && p.1.0[1][3] == 1
            &&& p.1.0[1][4] == (if s.farol_alto { 0u8 } else { 1u8 })
            &&& t.farol_alto == !s.farol_alto && t.farol_baixo == s.farol_baixo
        }),
        leitura % 4 == 0 || leitura % 4 == 3 ==> farol_plan(s, leitura) is None && farol_next(s, leitura) == s,
        ({
            let t = farol_next(s, leitura);
            &&& t.current_direction == s.current_direction && t.cruise_control == s.cruise_control
            &&& t.temp_alert == s.temp_alert
        }),
{
    lemma_frame_layout(CONTROL_WRITE_FAROL(), seq![0u8]);
    lemma_frame_passes_crc_check(CONTROL_WRITE_FAROL(), seq![0u8]);
    lemma_frame_layout(CONTROL_WRITE_FAROL_BAIXO(), seq![if s.farol_baixo { 0u8 } else { 1u8 }]);
    lemma_frame_passes_crc_check(CONTROL_WRITE_FAROL_BAIXO(), seq![if s.farol_baixo { 0u8 } else { 1u8 }]);
    lemma_frame_layout(CONTROL_WRITE_FAROL_ALTO(), seq![if s.farol_alto { 0u8 } else { 1u8 }]);
    lemma_frame_passes_crc_check(CONTROL_WRITE_FAROL_ALTO(), seq![if s.farol_alto { 0u8 } else { 1u8 }]);
}

/// Each cruise-control command answers to one reading (1 resume, 2 cancel,
/// 4 raise, 8 lower). Only resume and cancel send a request, and that
/// request writes the reading itself to the cruise-control register (0x01);
/// raising and lowering send nothing. The lamps and the temperature alarm
/// are never touched.
pub proof fn lemma_cruise_commands_and_requests(s: CarState, leitura: u8)
    ensures
        cruise_plan(s, leitura) matches Some((c, req)) ==> {
            &&& (c == CruiseControl::Res <==> leitura == 1)
            &&& (c == CruiseControl::Cancel <==> leitura == 2)
            &&& (c == CruiseControl::Plus <==> leitura == 4)
            &&& (c == CruiseControl::Minus <==> leitura == 8)
            &&& (req is Some <==> (leitura == 1 || leitura == 2))
        },
        leitura == 4 || leitura == 8 ==> cruise_plan(s, leitura) is None || cruise_plan(
            s,
            leitura,
        ).unwrap().1 is None,
        cruise_plan(s, leitura) matches Some((_, Some(f))) ==> {
            &&& f.len() == 11
            &&& f[1] == 0x06 && f[2] == 0x01 && f[3] == 1 && f[4] == leitura
            &&& crc_ok(f)
        },
        ({
            let t = cruise_next(s, leitura);
            &&& t.seta_esquerda == s.seta_esquerda && t.seta_direita == s.seta_direita
            &&& t.farol_baixo == s.farol_baixo && t.farol_alto == s.farol_alto
            &&& t.temp_alert == s.temp_alert
        }),
{
    lemma_frame_layout(CONTROL_CRUISE_WRITE(), seq![1u8]);
    lemma_frame_passes_crc_check(CONTROL_CRUISE_WRITE(), seq![1u8]);
    lemma_frame_layout(CONTROL_CRUISE_WRITE(), seq![2u8]);
    lemma_frame_passes_crc_check(CONTROL_CRUISE_WRITE(), seq![2u8]);
}

} // verus!
