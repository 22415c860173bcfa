use roland::command::{write_plan, CommandQueue, SendError, COMMAND_CAPACITY};
use roland::message::{neutral_commands, reset_command, SerialCMD};

#[test]
fn backpressure_preserves_order() {
    let mut q = CommandQueue::new(1);
    let mut delivered = Vec::new();
    assert_eq!(q.try_send(SerialCMD::Buzzer(1)), Ok(()));
    assert_eq!(q.try_send(SerialCMD::Buzzer(2)), Err(SendError::Full(SerialCMD::Buzzer(2))));
    delivered.push(q.recv().unwrap());
    assert_eq!(q.try_send(SerialCMD::Buzzer(2)), Ok(()));
    assert_eq!(q.try_send(SerialCMD::Buzzer(3)), Err(SendError::Full(SerialCMD::Buzzer(3))));
    delivered.push(q.recv().unwrap());
    assert_eq!(q.try_send(SerialCMD::Buzzer(3)), Ok(()));
    delivered.push(q.recv().unwrap());
    assert_eq!(q.recv(), None);
    assert_eq!(delivered, vec![SerialCMD::Buzzer(1), SerialCMD::Buzzer(2), SerialCMD::Buzzer(3)]);
}

#[test]
fn queue_fills_to_capacity() {
    let mut q = CommandQueue::new(COMMAND_CAPACITY);
    for i in 0..COMMAND_CAPACITY {
        assert_eq!(q.try_send(SerialCMD::Servo(i as i8)), Ok(()));
    }
    assert_eq!(q.len(), COMMAND_CAPACITY);
    assert_eq!(q.try_send(SerialCMD::Servo(-1)), Err(SendError::Full(SerialCMD::Servo(-1))));
    for i in 0..COMMAND_CAPACITY {
        assert_eq!(q.recv(), Some(SerialCMD::Servo(i as i8)));
    }
}

#[test]
fn nothing_is_accepted_after_reset() {
    let mut q = CommandQueue::new(4);
    assert_eq!(q.try_send(SerialCMD::LED((1, 2, 3))), Ok(()));
    assert_eq!(q.try_send(reset_command()), Ok(()));
    assert!(q.closed());
    assert_eq!(q.try_send(SerialCMD::Buzzer(5)), Err(SendError::Closed(SerialCMD::Buzzer(5))));
    assert_eq!(q.recv(), Some(SerialCMD::LED((1, 2, 3))));
    assert_eq!(q.recv(), Some(SerialCMD::Reset(neutral_commands())));
    assert_eq!(q.recv(), None);
}

#[test]
fn write_plan_unpacks_reset() {
    assert_eq!(write_plan(reset_command()), (neutral_commands(), true));
    assert_eq!(write_plan(SerialCMD::Reset(vec![])), (vec![], true));
    assert_eq!(write_plan(SerialCMD::Servo(-90)), (vec![SerialCMD::Servo(-90)], false));
}

#[test]
fn neutral_sequence() {
    assert_eq!(
        neutral_commands(),
        vec![
            SerialCMD::Buzzer(0),
            SerialCMD::LED((0, 0, 0)),
            SerialCMD::Servo(0),
            SerialCMD::HBridge((0, 0)),
        ]
    );
}
