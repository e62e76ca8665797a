use silk_pay::error::{
    build_string, invalid_end_time, tx_already_cancelled, tx_not_at_confirmation_stage, CodeType,
    DetailedError, Error, PayError,
};

#[derive(Copy, Clone, PartialEq, Debug)]
enum TestCode {
    Error1,
    Error2,
    Error3,
}

impl From<TestCode> for u8 {
    fn from(err: TestCode) -> u8 {
        err as u8
    }
}

impl CodeType for TestCode {
    fn to_code(&self) -> u8 {
        (*self).into()
    }

    fn to_verbose(&self, context: &Vec<&str>) -> String {
        match self {
            TestCode::Error1 => build_string("Error", context),
            TestCode::Error2 => build_string("Broke in {}", context),
            TestCode::Error3 => build_string("Expecting {} but got {}", context),
        }
    }
}

#[test]
fn string_builder() {
    assert_eq!(
        build_string("Test string {}", &vec!["arg"]),
        "Test string arg".to_string()
    )
}

#[test]
fn build_string_fills_in_order_and_keeps_extra_placeholders() {
    assert_eq!(build_string("{} and {}", &vec!["a"]), "a and {}".to_string());
    assert_eq!(build_string("no placeholder", &vec!["a"]), "no placeholder".to_string());
    assert_eq!(build_string("{}{}", &vec!["x", "y"]), "xy".to_string());
}

#[test]
fn to_code() {
    let code1 = TestCode::Error1;
    assert_eq!(code1.to_code(), 0);

    let code2 = TestCode::Error2;
    assert_eq!(code2.to_code(), 1);

    let code3 = TestCode::Error3;
    assert_eq!(code3.to_code(), 2);
}

#[test]
fn to_verbose() {
    assert_eq!(TestCode::Error1.to_verbose(&vec![]), "Error".to_string());
    assert_eq!(
        TestCode::Error2.to_verbose(&vec!["function"]),
        "Broke in function".to_string()
    );
    assert_eq!(
        TestCode::Error3.to_verbose(&vec!["address", "amount"]),
        "Expecting address but got amount".to_string()
    );
}

#[test]
fn from_code() {
    let err1 = DetailedError::from_code("contract", TestCode::Error1, vec![]);
    assert_eq!(err1.code, 0);
    assert_eq!(err1.code_type, TestCode::Error1);
    let empty: Vec<String> = vec![];
    assert_eq!(err1.context, empty);
    assert_eq!(err1.verbose, "Error".to_string());

    let err2 = DetailedError::from_code("contract", TestCode::Error2, vec!["function"]);
    assert_eq!(err2.code, 1);
    assert_eq!(err2.code_type, TestCode::Error2);
    assert_eq!(err2.context, vec!["function".to_string()]);
    assert_eq!(err2.verbose, "Broke in function".to_string());

    let err3 = DetailedError::from_code("contract", TestCode::Error3, vec!["address", "amount"]);
    assert_eq!(err3.code, 2);
    assert_eq!(err3.code_type, TestCode::Error3);
    assert_eq!(err3.context, vec!["address".to_string(), "amount".to_string()]);
    assert_eq!(err3.verbose, "Expecting address but got amount".to_string());
}

#[test]
fn library_error_codes_follow_declaration_order() {
    assert_eq!(Error::OverflowOccurred.to_code(), 0);
    assert_eq!(Error::TxNotConfirmed.to_code(), 4);
    assert_eq!(Error::IncorrectTotalAmount.to_code(), 9);
}

#[test]
fn already_cancelled_names_the_position_in_decimal() {
    let e = tx_already_cancelled(1205);
    assert_eq!(e.target, "silk_pay".to_string());
    assert_eq!(e.code, 2);
    assert_eq!(e.code_type, Error::TxAlreadyCancelled);
    assert_eq!(e.context, vec!["1205".to_string()]);
    assert_eq!(e.verbose, "Tx at position 1205 has already been cancelled".to_string());
}

#[test]
fn confirmation_stage_names_the_state() {
    let e = tx_not_at_confirmation_stage(3);
    assert_eq!(e.context, vec!["Tx Completed".to_string()]);
    assert_eq!(
        e.verbose,
        "Tx is not at confirmation state. Current state is 'Tx Completed'".to_string()
    );
    let e = tx_not_at_confirmation_stage(9);
    assert_eq!(e.context, vec!["Error Misfire".to_string()]);
}

#[test]
fn invalid_end_time_names_end_and_now() {
    let e = invalid_end_time(0, 18446744073709551615, 7);
    assert_eq!(e.code_type, Error::InvalidEndTime);
    assert_eq!(
        e.verbose,
        "End time of 0 must be after current time of 18446744073709551615".to_string()
    );
}

#[test]
fn plain_errors_have_no_detail() {
    assert!(PayError::Unauthorized.detailed().is_none());
    assert!(PayError::OutOfBounds.detailed().is_none());
    assert!(PayError::WrongAmount.detailed().is_none());
    assert!(PayError::WrongToken.detailed().is_none());
    assert!(PayError::SelfPaymentRejected.detailed().is_none());
    let d = PayError::TxNotRecurring.detailed().unwrap();
    assert_eq!(d.code, 5);
    assert_eq!(d.verbose, "Tx selected isn't recurring".to_string());
    let d = PayError::TxNotConfirmed { status: 4 }.detailed().unwrap();
    assert_eq!(d.code, 4);
    assert_eq!(d.context, vec!["Tx Unconfirmed".to_string()]);
    let d = PayError::OverflowOccurred.detailed().unwrap();
    assert_eq!(d.code, 0);
    assert_eq!(d.verbose, "Overflow error occurred. Check values".to_string());
    let d = PayError::InvalidStartTime { start_time: 9, end_time: 3 }.detailed().unwrap();
    assert_eq!(d.verbose, "Start time of 9 must be before selected end time of 3".to_string());
    let d = PayError::CannotCreateEvenIntervals { diff: 300, interval: 70 }.detailed().unwrap();
    assert_eq!(d.context, vec!["300".to_string(), "70".to_string()]);
    let d = PayError::IncorrectTotalAmount { amount: 100, num_intervals: 4, total_amount: 399 }
        .detailed()
        .unwrap();
    assert_eq!(d.code, 9);
    assert_eq!(
        d.verbose,
        "Amount of 100 over 4 intervals does not equal total amount of 399".to_string()
    );
}
