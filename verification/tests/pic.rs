use simple_os::machine::Operation;
use simple_os::pic::InterruptController;

fn write(port: u16, value: u8) -> Operation {
    Operation::WritePort8 { port, value }
}

#[test]
fn new_controller_is_not_active() {
    let controller = InterruptController::new(32, 40);
    assert_eq!(controller.primary_offset(), 32);
    assert_eq!(controller.secondary_offset(), 40);
    assert!(!controller.is_active());
}

#[test]
fn try_new_takes_valid_offsets_only() {
    assert!(InterruptController::try_new(32, 40).is_some());
    assert!(InterruptController::try_new(40, 32).is_some());
    assert!(InterruptController::try_new(240, 248).is_some());
    assert!(InterruptController::try_new(8, 16).is_none());
    assert!(InterruptController::try_new(24, 32).is_none());
    assert!(InterruptController::try_new(32, 32).is_none());
    assert!(InterruptController::try_new(32, 48).is_none());
    assert!(InterruptController::try_new(32, 41).is_none());
    assert!(InterruptController::try_new(248, 0).is_none());
    assert!(InterruptController::try_new(250, 2).is_none());
}

#[test]
fn initialize_writes_the_remap_sequence() {
    let mut controller = InterruptController::new(32, 40);
    let operations = controller.initialize(0xb8, 0x8e);
    assert!(controller.is_active());
    assert_eq!(controller.primary_offset(), 32);
    assert_eq!(controller.secondary_offset(), 40);
    assert_eq!(
        operations,
        vec![
            write(0x20, 0x11),
            write(0x80, 0),
            write(0xa0, 0x11),
            write(0x80, 0),
            write(0x21, 32),
            write(0x80, 0),
            write(0xa1, 40),
            write(0x80, 0),
            write(0x21, 4),
            write(0x80, 0),
            write(0xa1, 2),
            write(0x80, 0),
            write(0x21, 0x01),
            write(0x80, 0),
            write(0xa1, 0x01),
            write(0x80, 0),
            write(0x21, 0xb8),
            write(0xa1, 0x8e),
        ]
    );
}

#[test]
fn initialize_programs_the_offsets_it_was_made_with() {
    let mut controller = InterruptController::new(0x70, 0x78);
    let operations = controller.initialize(0, 0xff);
    assert_eq!(operations.len(), 18);
    assert_eq!(operations[4], write(0x21, 0x70));
    assert_eq!(operations[6], write(0xa1, 0x78));
    assert_eq!(operations[16], write(0x21, 0));
    assert_eq!(operations[17], write(0xa1, 0xff));
}

#[test]
fn primary_line_is_acknowledged_to_the_primary_only() {
    let controller = InterruptController::new(32, 40);
    for vector in 32..40u8 {
        assert_eq!(controller.notify_end_of_interrupt(vector), vec![write(0x20, 0x20)]);
    }
}

#[test]
fn secondary_line_is_acknowledged_to_the_secondary_first() {
    let controller = InterruptController::new(32, 40);
    for vector in 40..48u8 {
        assert_eq!(
            controller.notify_end_of_interrupt(vector),
            vec![write(0xa0, 0x20), write(0x20, 0x20)]
        );
    }
}

#[test]
fn primary_is_acknowledged_for_every_vector() {
    let controller = InterruptController::new(32, 40);
    for vector in 0..=255u8 {
        let operations = controller.notify_end_of_interrupt(vector);
        assert_eq!(operations.last(), Some(&write(0x20, 0x20)));
        let to_primary = operations.iter().filter(|w| **w == write(0x20, 0x20)).count();
        assert_eq!(to_primary, 1);
        assert_eq!(operations.len(), if vector >= 40 { 2 } else { 1 });
    }
}

#[test]
fn acknowledging_does_not_change_the_controller() {
    let mut controller = InterruptController::new(32, 40);
    controller.initialize(0, 0);
    controller.notify_end_of_interrupt(33);
    controller.notify_end_of_interrupt(44);
    assert!(controller.is_active());
    assert_eq!(controller.primary_offset(), 32);
    assert_eq!(controller.secondary_offset(), 40);
}
