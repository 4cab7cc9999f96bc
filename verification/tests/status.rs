use shim_core::status::{
    fallback_at, signed_of, unsigned_of, ExitStatus, Timestamp, WaitOutcome, FALLBACK_EXIT_CODE,
    SIGNAL_EXIT_BASE,
};

#[test]
fn constants() {
    assert_eq!(FALLBACK_EXIT_CODE, 137);
    assert_eq!(SIGNAL_EXIT_BASE, 128);
}

#[test]
fn normal_exit_gives_its_status() {
    assert_eq!(WaitOutcome::Exited { status: 0 }.to_exit_code(), 0);
    assert_eq!(WaitOutcome::Exited { status: 42 }.to_exit_code(), 42);
    assert_eq!(WaitOutcome::Exited { status: 255 }.to_exit_code(), 255);
}

#[test]
fn negative_status_keeps_its_bits() {
    assert_eq!(WaitOutcome::Exited { status: -1 }.to_exit_code(), u32::MAX);
    assert_eq!(WaitOutcome::Exited { status: i32::MIN }.to_exit_code(), 0x8000_0000);
}

#[test]
fn signal_gives_128_plus_number() {
    assert_eq!(WaitOutcome::Signaled { signal: 9 }.to_exit_code(), 137);
    assert_eq!(WaitOutcome::Signaled { signal: 15 }.to_exit_code(), 143);
    assert_eq!(WaitOutcome::Signaled { signal: 1 }.to_exit_code(), 129);
    assert_eq!(WaitOutcome::Signaled { signal: 31 }.to_exit_code(), 159);
    assert_eq!(WaitOutcome::Signaled { signal: 0 }.to_exit_code(), 128);
}

#[test]
fn signal_number_out_of_range_wraps() {
    assert_eq!(WaitOutcome::Signaled { signal: -1 }.to_exit_code(), 127);
    assert_eq!(WaitOutcome::Signaled { signal: -128 }.to_exit_code(), 0);
    assert_eq!(WaitOutcome::Signaled { signal: -129 }.to_exit_code(), u32::MAX);
    assert_eq!(WaitOutcome::Signaled { signal: i32::MAX }.to_exit_code(), 0x8000_007f);
    assert_eq!(WaitOutcome::Signaled { signal: i32::MIN }.to_exit_code(), 0x8000_0080);
}

#[test]
fn anything_else_gives_the_fallback() {
    assert_eq!(WaitOutcome::Unexpected.to_exit_code(), 137);
    assert_eq!(WaitOutcome::Failed.to_exit_code(), 137);
}

#[test]
fn status_carries_code_and_time() {
    let at = Timestamp { secs: 1_700_000_000, nanos: 123 };
    assert_eq!(
        WaitOutcome::Exited { status: 3 }.to_status(at),
        ExitStatus { code: 3, at }
    );
    assert_eq!(fallback_at(at), ExitStatus { code: 137, at });
}

#[test]
fn signed_and_unsigned_readings_agree() {
    assert_eq!(unsigned_of(0), 0);
    assert_eq!(unsigned_of(7), 7);
    assert_eq!(unsigned_of(i32::MAX), 0x7fff_ffff);
    assert_eq!(unsigned_of(-1), u32::MAX);
    assert_eq!(unsigned_of(i32::MIN), 0x8000_0000);
    assert_eq!(signed_of(0), 0);
    assert_eq!(signed_of(0x7fff_ffff), i32::MAX);
    assert_eq!(signed_of(0x8000_0000), i32::MIN);
    assert_eq!(signed_of(u32::MAX), -1);
    for x in [0u32, 1, 31, 0x7fff_ffff, 0x8000_0000, 0xdead_beef, u32::MAX] {
        assert_eq!(unsigned_of(signed_of(x)), x);
        assert_eq!(signed_of(x), x as i32);
    }
}
