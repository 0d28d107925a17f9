use carro::common::{CruiseControl, Direction};
use carro::dashboard::{cruise_control, farol, motor_duty, muda_farol, muda_seta, seta, CarState};
use carro::modbus::{
    create_modbus, CONTROL_CRUISE_WRITE, CONTROL_WRITE_FAROL, CONTROL_WRITE_FAROL_ALTO,
    CONTROL_WRITE_FAROL_BAIXO, CONTROL_WRITE_SETA, CONTROL_WRITE_SETA_DIREITA,
    CONTROL_WRITE_SETA_ESQUERDA,
};

#[test]
fn new_car_is_at_rest() {
    let s = CarState::new();
    assert_eq!(s.current_direction, Direction::Idle);
    assert!(!s.seta_esquerda && !s.seta_direita && !s.farol_baixo && !s.farol_alto);
    assert!(!s.cruise_control && !s.temp_alert);
}

#[test]
fn motor_duty_per_direction() {
    assert_eq!(motor_duty(Direction::Idle), (0, 0));
    assert_eq!(motor_duty(Direction::Accelerate), (1, 0));
    assert_eq!(motor_duty(Direction::Reverse), (0, 1));
    assert_eq!(motor_duty(Direction::Brake), (1, 1));
}

#[test]
fn turn_signal_toggles() {
    let mut on = false;
    let plan = muda_seta(1, &mut on);
    assert!(on && plan.turn_on);
    assert_eq!(
        plan.frames,
        vec![
            create_modbus(CONTROL_WRITE_SETA(), &[0]),
            create_modbus(CONTROL_WRITE_SETA_DIREITA(), &[1])
        ]
    );
    let plan = muda_seta(1, &mut on);
    assert!(!on && !plan.turn_on);
    assert_eq!(plan.frames[1], create_modbus(CONTROL_WRITE_SETA_DIREITA(), &[0]));
    let plan = muda_seta(2, &mut on);
    assert_eq!(plan.frames[1], create_modbus(CONTROL_WRITE_SETA_ESQUERDA(), &[1]));
}

#[test]
fn headlight_toggles() {
    let mut lit = true;
    let plan = muda_farol(2, &mut lit);
    assert!(!lit && !plan.turn_on);
    assert_eq!(
        plan.frames,
        vec![
            create_modbus(CONTROL_WRITE_FAROL(), &[0]),
            create_modbus(CONTROL_WRITE_FAROL_BAIXO(), &[0])
        ]
    );
    let plan = muda_farol(1, &mut lit);
    assert!(lit && plan.turn_on);
    assert_eq!(plan.frames[1], create_modbus(CONTROL_WRITE_FAROL_ALTO(), &[1]));
}

#[test]
fn stalk_readings_pick_the_signal() {
    let mut s = CarState::new();
    let (d, plan) = seta(&mut s, 0b10).unwrap();
    assert_eq!(d, 1);
    assert!(plan.turn_on && s.seta_direita && !s.seta_esquerda);
    let (d, _) = seta(&mut s, 0b1111_1101).unwrap();
    assert_eq!(d, 2);
    assert!(s.seta_direita && s.seta_esquerda);
    let before = s;
    assert!(seta(&mut s, 0b11).is_none());
    assert!(seta(&mut s, 0b100).is_none());
    assert_eq!(s, before);
    // the same reading twice restores the lamps
    seta(&mut s, 0b10);
    seta(&mut s, 0b10);
    assert_eq!(s, before);
}

#[test]
fn headlight_readings_pick_the_beam() {
    let mut s = CarState::new();
    let (d, plan) = farol(&mut s, 0b10).unwrap();
    assert_eq!(d, 1);
    assert!(plan.turn_on && s.farol_alto && !s.farol_baixo);
    assert_eq!(plan.frames[1], create_modbus(CONTROL_WRITE_FAROL_ALTO(), &[1]));
    let (d, _) = farol(&mut s, 0b01).unwrap();
    assert_eq!(d, 2);
    assert!(s.farol_baixo);
    let before = s;
    assert!(farol(&mut s, 0).is_none());
    farol(&mut s, 0b01);
    farol(&mut s, 0b01);
    assert_eq!(s, before);
}

#[test]
fn cruise_control_sequence() {
    let mut s = CarState::new();
    s.current_direction = Direction::Accelerate;
    // while off, only resume acts
    assert!(cruise_control(&mut s, 2).is_none());
    assert!(cruise_control(&mut s, 4).is_none());
    assert!(cruise_control(&mut s, 8).is_none());
    assert!(!s.cruise_control);
    let a = cruise_control(&mut s, 1).unwrap();
    assert_eq!(a.command, CruiseControl::Res);
    assert_eq!(a.request, Some(create_modbus(CONTROL_CRUISE_WRITE(), &[1])));
    assert!(s.cruise_control);
    assert_eq!(s.current_direction, Direction::Idle);
    assert!(cruise_control(&mut s, 1).is_none());
    let a = cruise_control(&mut s, 4).unwrap();
    assert_eq!(a.command, CruiseControl::Plus);
    assert!(a.request.is_none());
    let a = cruise_control(&mut s, 8).unwrap();
    assert_eq!(a.command, CruiseControl::Minus);
    assert!(s.cruise_control);
    assert!(cruise_control(&mut s, 3).is_none());
    let a = cruise_control(&mut s, 2).unwrap();
    assert_eq!(a.command, CruiseControl::Cancel);
    assert_eq!(a.request, Some(create_modbus(CONTROL_CRUISE_WRITE(), &[2])));
    assert!(!s.cruise_control);
}
