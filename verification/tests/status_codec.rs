use systypes::DispatchError;
use systypes::Status;

fn all_statuses() -> Vec<(u32, Status)> {
    vec![
        (0, Status::Success),
        (1, Status::Invalid),
        (2, Status::Denied),
        (3, Status::NoEntity),
        (4, Status::Busy),
        (5, Status::AlreadyMapped),
        (6, Status::TimeOut),
        (7, Status::Critical),
    ]
}

#[test]
fn status_codes_zero_to_seven_decode() {
    for (code, status) in all_statuses() {
        assert_eq!(Status::try_from(code), Ok(status));
    }
}

#[test]
fn status_encodes_to_its_code() {
    for (code, status) in all_statuses() {
        assert_eq!(u32::from(status), code);
    }
}

#[test]
fn zero_means_success_and_nothing_else_does() {
    assert_eq!(u32::from(Status::Success), 0);
    for (code, status) in all_statuses() {
        assert_eq!(code == 0, status == Status::Success);
    }
}

#[test]
fn status_code_eight_is_an_error_not_a_trap() {
    assert_eq!(Status::try_from(8u32), Err(DispatchError::IllegalValue));
}

#[test]
fn status_codes_above_seven_are_illegal_values() {
    for code in [8u32, 9, 255, 256, 65536, u32::MAX - 1, u32::MAX] {
        assert_eq!(Status::try_from(code), Err(DispatchError::IllegalValue));
    }
}

#[test]
fn status_decode_undoes_encode() {
    for (_, status) in all_statuses() {
        assert_eq!(Status::try_from(u32::from(status)), Ok(status));
    }
}
