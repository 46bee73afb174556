use robotrs::ds::{alliance_from_station, Alliance, ControlWord, State, StateWatch};
use robotrs::error::{status_to_result, HalError, RuntimeError};
use robotrs::hal::{transfer_ok, Port, SPIError, HAL_SPI_MXP};

fn word(enabled: u32, autonomous: u32, test: u32) -> ControlWord {
    ControlWord { enabled, autonomous, test, ..ControlWord::default() }
}

#[test]
fn control_word_modes() {
    assert_eq!(State::from_control_word(&word(0, 1, 1)), State::Disabled);
    assert_eq!(State::from_control_word(&word(1, 1, 1)), State::Auto);
    assert_eq!(State::from_control_word(&word(1, 0, 1)), State::Test);
    assert_eq!(State::from_control_word(&word(1, 0, 0)), State::Teleop);
    assert!(State::Disabled.disabled());
    assert!(!State::Teleop.disabled());
}

#[test]
fn alliance_stations() {
    assert_eq!(alliance_from_station(1), Some(Alliance::Red(1)));
    assert_eq!(alliance_from_station(3), Some(Alliance::Red(3)));
    assert_eq!(alliance_from_station(4), Some(Alliance::Blue(1)));
    assert_eq!(alliance_from_station(6), Some(Alliance::Blue(3)));
    assert_eq!(alliance_from_station(0), None);
    assert_eq!(alliance_from_station(7), None);
}

#[test]
fn alliance_sides_exclusive() {
    for a in [Alliance::Red(2), Alliance::Blue(2)] {
        assert_ne!(a.is_blue(), a.is_red());
    }
    assert!(Alliance::Blue(1).is_blue());
    assert!(Alliance::Red(1).is_red());
}

#[test]
fn hal_status_codes() {
    assert_eq!(status_to_result(0, 5u32), Ok(5));
    assert_eq!(status_to_result(-1029, 5u32), Err(HalError(-1029)));
    assert_eq!(HalError::from_raw(12), HalError(12));
    assert_eq!(RuntimeError::from(HalError(3)), RuntimeError::HalError(HalError(3)));
}

#[test]
fn spi_ports() {
    assert_eq!(Port::MXP.to_hal(), HAL_SPI_MXP);
    assert_eq!(Port::Onboard(0).to_hal(), 0);
    assert_eq!(Port::Onboard(3).to_hal(), 3);
}

#[test]
fn spi_transfer_results() {
    assert_eq!(transfer_ok(4, 4), Ok(()));
    assert_eq!(transfer_ok(-1, 4), Err(SPIError));
    assert_eq!(transfer_ok(2, 4), Err(SPIError));
}

#[test]
fn state_watch_wakes_on_change() {
    let mut w: StateWatch<u8> = StateWatch::new();
    assert_eq!(w.get_state(), State::Disabled);
    w.register_waker(1);
    w.register_waker(2);
    assert!(w.check_state(&word(0, 0, 0)).is_empty());
    assert_eq!(w.changed_since(State::Disabled), None);
    assert_eq!(w.check_state(&word(1, 0, 0)), vec![1, 2]);
    assert_eq!(w.get_state(), State::Teleop);
    assert_eq!(w.changed_since(State::Disabled), Some(State::Teleop));
    assert!(w.check_state(&word(1, 0, 0)).is_empty());
}
