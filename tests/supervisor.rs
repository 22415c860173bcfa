use roland::device::{find_adapter, is_adapter_name};
use roland::message::{neutral_commands, ClientMessage, SerialCMD};
use roland::supervisor::{ControlState, Dispatch, Server};

fn nothing() -> Dispatch {
    Dispatch { cancel: false, commands: vec![], spawn: None }
}

#[test]
fn switching_to_manual_resets_once() {
    let mut s = Server::new();
    let d = s.change_state(ControlState::KeepDistance);
    assert_eq!(d, Dispatch { cancel: false, commands: vec![], spawn: Some(ControlState::KeepDistance) });
    let d = s.change_state(ControlState::ManualControl);
    assert_eq!(d, Dispatch { cancel: true, commands: neutral_commands(), spawn: None });
    assert_eq!(s.state(), ControlState::ManualControl);
    assert_eq!(s.change_state(ControlState::ManualControl), nothing());
}

#[test]
fn switching_between_automatic_modes_goes_through_manual() {
    let mut s = Server::new();
    s.change_state(ControlState::FollowLine);
    assert_eq!(s.change_state(ControlState::FollowLine), nothing());
    let d = s.change_state(ControlState::ManualControl);
    assert_eq!(d, Dispatch { cancel: true, commands: neutral_commands(), spawn: None });
    let d = s.change_state(ControlState::KeepDistance);
    assert_eq!(d, Dispatch { cancel: false, commands: vec![], spawn: Some(ControlState::KeepDistance) });
}

#[test]
fn operator_messages() {
    let mut s = Server::new();
    assert_eq!(
        s.handle_message(ClientMessage::Buzzer(440)),
        Dispatch { cancel: false, commands: vec![SerialCMD::Buzzer(440)], spawn: None }
    );
    assert_eq!(
        s.handle_message(ClientMessage::LED((1, 2, 3))),
        Dispatch { cancel: false, commands: vec![SerialCMD::LED((1, 2, 3))], spawn: None }
    );
    assert_eq!(
        s.handle_message(ClientMessage::Servo(-45)),
        Dispatch { cancel: false, commands: vec![SerialCMD::Servo(-45)], spawn: None }
    );
    assert_eq!(
        s.handle_message(ClientMessage::Motor((-65535, 100))),
        Dispatch { cancel: false, commands: vec![SerialCMD::HBridge((-65535, 100))], spawn: None }
    );
    assert_eq!(s.handle_message(ClientMessage::ControlState("Dance".to_string())), nothing());
    assert_eq!(
        s.handle_message(ClientMessage::ControlState("FollowLine".to_string())),
        Dispatch { cancel: false, commands: vec![], spawn: Some(ControlState::FollowLine) }
    );
    assert_eq!(s.state(), ControlState::FollowLine);
}

#[test]
fn mode_names() {
    assert_eq!(ControlState::from_str("ManualControl"), Ok(ControlState::ManualControl));
    assert_eq!(ControlState::from_str("FollowLine"), Ok(ControlState::FollowLine));
    assert_eq!(ControlState::from_str("KeepDistance"), Ok(ControlState::KeepDistance));
    assert_eq!(ControlState::from_str("keepdistance"), Err(()));
    assert_eq!(ControlState::from_str(""), Err(()));
}

#[test]
fn adapter_names() {
    assert!(is_adapter_name("ttyACM0"));
    assert!(is_adapter_name("ttyACM"));
    assert!(!is_adapter_name("ttyUSB0"));
    assert!(!is_adapter_name("tty"));
    assert!(!is_adapter_name("xttyACM0"));
    let names: Vec<String> = vec!["null".to_string(), "ttyS0".to_string(), "ttyACM1".to_string(), "ttyACM0".to_string()];
    assert_eq!(find_adapter(&names), Some(2));
    let names: Vec<String> = vec!["null".to_string(), "ttyS0".to_string()];
    assert_eq!(find_adapter(&names), None);
}
