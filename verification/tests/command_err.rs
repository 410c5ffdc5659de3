use command_glue::discriminant_CommandErr;
use command_glue::CommandErr;
use std::hash::DefaultHasher;
use std::hash::Hash;
use std::hash::Hasher;

#[test]
fn exit_code_variant() {
    let e = CommandErr::ExitCode(2);
    assert!(e.discriminant() == discriminant_CommandErr::ExitCode);
    assert!(e.is_ExitCode());
    assert!(!e.is_IOError());
    assert!(!e.is_KilledBySignal());
}

#[test]
fn io_error_variant() {
    let e = CommandErr::IOError(String::from("no such file"));
    assert!(e.discriminant() == discriminant_CommandErr::IOError);
    assert!(!e.is_ExitCode());
    assert!(e.is_IOError());
    assert!(!e.is_KilledBySignal());
}

#[test]
fn killed_by_signal_variant() {
    let e = CommandErr::KilledBySignal();
    assert!(e.discriminant() == discriminant_CommandErr::KilledBySignal);
    assert!(!e.is_ExitCode());
    assert!(!e.is_IOError());
    assert!(e.is_KilledBySignal());
}

#[test]
fn discriminant_bytes() {
    assert_eq!(discriminant_CommandErr::ExitCode.byte(), 0);
    assert_eq!(discriminant_CommandErr::IOError.byte(), 1);
    assert_eq!(discriminant_CommandErr::KilledBySignal.byte(), 2);
}

#[test]
fn discriminant_from_byte_round_trip() {
    for d in [
        discriminant_CommandErr::ExitCode,
        discriminant_CommandErr::IOError,
        discriminant_CommandErr::KilledBySignal,
    ] {
        let b = d.byte();
        assert!(discriminant_CommandErr::from_byte(b) == Some(d));
    }
}

#[test]
fn discriminant_from_byte_rejects_others() {
    assert!(discriminant_CommandErr::from_byte(3).is_none());
    assert!(discriminant_CommandErr::from_byte(255).is_none());
}

#[test]
fn discriminant_names() {
    assert_eq!(
        discriminant_CommandErr::ExitCode.name(),
        "discriminant_CommandErr::ExitCode"
    );
    assert_eq!(
        discriminant_CommandErr::IOError.name(),
        "discriminant_CommandErr::IOError"
    );
    assert_eq!(
        discriminant_CommandErr::KilledBySignal.name(),
        "discriminant_CommandErr::KilledBySignal"
    );
}

#[test]
fn variant_names() {
    assert_eq!(CommandErr::ExitCode(1).variant_name(), "CommandErr::ExitCode");
    assert_eq!(
        CommandErr::IOError(String::new()).variant_name(),
        "CommandErr::IOError"
    );
    assert_eq!(
        CommandErr::KilledBySignal().variant_name(),
        "CommandErr::KilledBySignal"
    );
}

#[test]
fn io_error_round_trip() {
    let s = String::from("permission denied");
    let e = CommandErr::IOError(s);
    assert_eq!(e.unwrap_IOError(), "permission denied");
}

#[test]
fn io_error_round_trip_empty() {
    let e = CommandErr::IOError(String::new());
    assert_eq!(e.unwrap_IOError(), "");
}

#[test]
fn exit_code_round_trip() {
    let e = CommandErr::ExitCode(-7);
    assert_eq!(e.unwrap_ExitCode(), -7);
}

#[test]
fn clone_io_error_is_equal_and_independent() {
    let original = CommandErr::IOError(String::from("broken pipe"));
    let copy = original.clone();
    assert!(original == copy);
    drop(original);
    assert_eq!(copy.unwrap_IOError(), "broken pipe");
}

#[test]
fn clone_other_variants() {
    let a = CommandErr::ExitCode(3);
    let b = a.clone();
    assert!(a == b);
    let c = CommandErr::KilledBySignal();
    let d = c.clone();
    assert!(c == d);
}

#[test]
fn drop_without_string_payload() {
    let a = CommandErr::ExitCode(42);
    assert!(a.is_ExitCode());
    drop(a);
    let b = CommandErr::KilledBySignal();
    assert!(b.is_KilledBySignal());
    drop(b);
}

#[test]
fn equality_law() {
    assert!(CommandErr::ExitCode(1) != CommandErr::ExitCode(2));
    assert!(CommandErr::ExitCode(1) != CommandErr::IOError(String::from("1")));
    assert!(CommandErr::KilledBySignal() == CommandErr::KilledBySignal());
    assert!(CommandErr::ExitCode(5) == CommandErr::ExitCode(5));
    assert!(
        CommandErr::IOError(String::from("x")) == CommandErr::IOError(String::from("x"))
    );
    assert!(
        CommandErr::IOError(String::from("x")) != CommandErr::IOError(String::from("y"))
    );
    assert!(CommandErr::ExitCode(0) != CommandErr::KilledBySignal());
}

#[test]
fn equal_values_hash_alike() {
    let mut h1 = DefaultHasher::new();
    CommandErr::IOError(String::from("boom")).hash(&mut h1);
    let mut h2 = DefaultHasher::new();
    CommandErr::IOError(String::from("boom")).hash(&mut h2);
    assert_eq!(h1.finish(), h2.finish());
}
