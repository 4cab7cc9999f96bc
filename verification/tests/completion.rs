use shim_core::completion::{
    resolve_deferred, validate, visible_exit_code, CanHandle, Completion, Resolution,
    FAILURE_EXIT_CODE,
};

#[test]
fn unit_resolves_to_zero() {
    assert_eq!(Completion::Unit.resolve(), Resolution { code: 0, log: None });
}

#[test]
fn code_resolves_to_itself() {
    assert_eq!(Completion::Code(5).resolve(), Resolution { code: 5, log: None });
    assert_eq!(Completion::Code(-1).resolve().code, -1);
    assert_eq!(Completion::Code(i32::MAX).resolve().code, i32::MAX);
    assert_eq!(Completion::Code(i32::MIN).resolve().code, i32::MIN);
}

#[test]
fn ok_five_resolves_to_five() {
    let value = Completion::Nested(Ok(Box::new(Completion::Code(5))));
    assert_eq!(value.resolve(), Resolution { code: 5, log: None });
}

#[test]
fn ok_unit_resolves_to_zero() {
    let value = Completion::Nested(Ok(Box::new(Completion::Unit)));
    assert_eq!(value.resolve(), Resolution { code: 0, log: None });
}

#[test]
fn error_resolves_to_137_and_is_logged() {
    assert_eq!(FAILURE_EXIT_CODE, 137);
    let value = Completion::Nested(Err("boom".to_string()));
    assert_eq!(
        value.resolve(),
        Resolution { code: 137, log: Some("error: boom".to_string()) }
    );
}

#[test]
fn deferred_value_resolves_like_what_it_yields() {
    let deferred = || Ok::<i32, String>(3);
    let resolution = resolve_deferred(deferred, |pending| match pending() {
        Ok(code) => Completion::Nested(Ok(Box::new(Completion::Code(code)))),
        Err(cause) => Completion::Nested(Err(cause)),
    });
    assert_eq!(resolution, Resolution { code: 3, log: None });
}

#[test]
fn deferred_value_is_driven_exactly_once() {
    let mut driven = 0;
    let resolution = resolve_deferred(7, |code| {
        driven += 1;
        Completion::Code(code)
    });
    assert_eq!(resolution, Resolution { code: 7, log: None });
    assert_eq!(driven, 1);
}

#[test]
fn deferred_failure_resolves_to_137() {
    let resolution =
        resolve_deferred("late", |cause: &str| Completion::Nested(Err(cause.to_string())));
    assert_eq!(resolution, Resolution { code: 137, log: Some("error: late".to_string()) });
}

#[test]
fn nesting_is_followed_to_any_depth() {
    let deep_ok = Completion::Nested(Ok(Box::new(Completion::Nested(Ok(Box::new(
        Completion::Nested(Ok(Box::new(Completion::Code(9)))),
    ))))));
    assert_eq!(deep_ok.resolve(), Resolution { code: 9, log: None });
    let deep_err = Completion::Nested(Ok(Box::new(Completion::Nested(Ok(Box::new(
        Completion::Nested(Err("inner".to_string())),
    ))))));
    assert_eq!(
        deep_err.resolve(),
        Resolution { code: 137, log: Some("error: inner".to_string()) }
    );
}

#[test]
fn only_the_low_eight_bits_are_visible() {
    assert_eq!(visible_exit_code(0), 0);
    assert_eq!(visible_exit_code(5), 5);
    assert_eq!(visible_exit_code(137), 137);
    assert_eq!(visible_exit_code(255), 255);
    assert_eq!(visible_exit_code(256), 0);
    assert_eq!(visible_exit_code(257), 1);
    assert_eq!(visible_exit_code(-1), 255);
    assert_eq!(visible_exit_code(-256), 0);
    assert_eq!(visible_exit_code(-257), 255);
    assert_eq!(visible_exit_code(i32::MAX), 255);
    assert_eq!(visible_exit_code(i32::MIN), 0);
    for code in [-70000i32, -513, -3, 2, 300, 65536, 1234567] {
        assert_eq!(visible_exit_code(code), code as u8);
    }
}

#[test]
fn validate_accepts_unit_and_true() {
    assert_eq!(validate(&CanHandle::Unit), Ok(()));
    assert_eq!(validate(&CanHandle::Flag(true)), Ok(()));
    assert_eq!(validate(&CanHandle::Nested(Ok(Box::new(CanHandle::Flag(true))))), Ok(()));
    assert_eq!(validate(&CanHandle::Nested(Ok(Box::new(CanHandle::Unit)))), Ok(()));
}

#[test]
fn validate_refuses_false() {
    assert_eq!(validate(&CanHandle::Flag(false)), Err("can't handle workflow".to_string()));
    assert_eq!(
        validate(&CanHandle::Nested(Ok(Box::new(CanHandle::Flag(false))))),
        Err("can't handle workflow".to_string())
    );
}

#[test]
fn validate_hands_errors_on() {
    assert_eq!(
        validate(&CanHandle::Nested(Err("no entrypoint".to_string()))),
        Err("no entrypoint".to_string())
    );
    assert_eq!(
        validate(&CanHandle::Nested(Ok(Box::new(CanHandle::Nested(Err("deep".to_string())))))),
        Err("deep".to_string())
    );
}
