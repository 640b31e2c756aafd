use oppai_rs::{Call, Combo, Error, Mode, OppaiError, Reply, Single};
use std::convert::TryFrom;

#[test]
fn mode_codes_are_those_of_the_engine() {
    assert_eq!(i32::from(Mode::Std), 0);
    assert_eq!(i32::from(Mode::Taiko), 1);
    let code: i32 = Mode::Taiko.into();
    assert_eq!(code, 1);
}

#[test]
fn known_mode_codes_give_their_mode() {
    assert_eq!(Mode::try_from(0), Ok(Mode::Std));
    assert_eq!(Mode::try_from(1), Ok(Mode::Taiko));
}

#[test]
fn mode_codes_round_trip() {
    for mode in [Mode::Std, Mode::Taiko] {
        assert_eq!(Mode::try_from(i32::from(mode)), Ok(mode));
    }
}

#[test]
fn unknown_mode_keeps_its_code() {
    for code in [2, 3, -1, 17, i32::MAX, i32::MIN] {
        assert_eq!(Mode::try_from(code), Err(Error::OppaiUnknownMode(code)));
    }
}

#[test]
fn status_zero_resolves_to_success() {
    assert_eq!(OppaiError::resolve(0), Ok(()));
}

#[test]
fn known_status_codes_resolve_to_their_error() {
    let table = [
        (-1, OppaiError::ErrMore),
        (-2, OppaiError::ErrSyntax),
        (-3, OppaiError::ErrTruncated),
        (-4, OppaiError::ErrNotImplemented),
        (-5, OppaiError::ErrIO),
        (-6, OppaiError::ErrFormat),
        (-7, OppaiError::ErrOOM),
    ];
    for (code, error) in table {
        assert_eq!(OppaiError::resolve(code), Err(Error::OppaiReturns(error)));
        assert_eq!(error.code(), code);
    }
}

#[test]
fn other_status_codes_resolve_to_a_failure_that_keeps_them() {
    for code in [1, 2, -8, 100, i32::MAX, i32::MIN] {
        assert_eq!(
            OppaiError::resolve(code),
            Err(Error::OppaiFails("Unknown error code", code))
        );
    }
}

#[test]
fn two_unknown_status_codes_are_told_apart() {
    assert_ne!(OppaiError::resolve(1), OppaiError::resolve(-8));
    match OppaiError::resolve(-8) {
        Err(Error::OppaiFails(_, status)) => assert_eq!(status, -8),
        other => panic!("{:?}", other),
    }
}

#[test]
fn combo_constructors() {
    assert_eq!(Combo::perfect(), Combo::FC(0));
    assert_eq!(
        Combo::non_fc(300, 4),
        Combo::NonFC {
            max_combo: 300,
            misses: 4
        }
    );
}

#[test]
fn single_keeps_its_bits() {
    for bits in [0u32, 1, 0x42C8_0000, 0x8000_0000, 0x7FC0_0000, u32::MAX] {
        assert_eq!(Single::from_bits(bits).to_bits(), bits);
    }
    assert_eq!(Single::from_bits(100.0f32.to_bits()).to_bits(), 0x42C8_0000);
    assert_eq!(Single::HUNDRED, 100.0f32.to_bits());
    assert_eq!(Single::NEGATIVE_ZERO, (-0.0f32).to_bits());
}

fn is_percentage(x: f32) -> bool {
    Single::from_bits(x.to_bits()).is_percentage()
}

#[test]
fn percentages_are_the_numbers_from_0_to_100() {
    for x in [0.0f32, -0.0, 100.0, 50.5, 99.99999, 1.0e-30, f32::MIN_POSITIVE, 1.0e-45] {
        assert!(is_percentage(x), "{}", x);
    }
    for x in [-0.0001f32, 100.0001, -1.0, 100.00001, 1.0e30, -1.0e-45, f32::MAX, f32::MIN] {
        assert!(!is_percentage(x), "{}", x);
    }
}

#[test]
fn the_neighbours_of_100_are_told_apart() {
    assert!(Single::from_bits(0x42C8_0000).is_percentage());
    assert!(Single::from_bits(0x42C7_FFFF).is_percentage());
    assert!(!Single::from_bits(0x42C8_0001).is_percentage());
}

#[test]
fn infinities_and_nans_are_no_percentages() {
    assert!(!is_percentage(f32::INFINITY));
    assert!(!is_percentage(f32::NEG_INFINITY));
    assert!(!is_percentage(f32::NAN));
    assert!(!Single::from_bits(0x7F80_0001).is_percentage());
    assert!(!Single::from_bits(0xFFC0_0000).is_percentage());
}

#[test]
fn percentage_agrees_with_comparing_the_numbers() {
    let mut bits: u32 = 0;
    loop {
        let x = f32::from_bits(bits);
        assert_eq!(
            Single::from_bits(bits).is_percentage(),
            x >= 0.0 && x <= 100.0,
            "{:#x}",
            bits
        );
        match bits.checked_add(65_521) {
            Some(next) => bits = next,
            None => break,
        }
    }
}

#[test]
fn each_call_accepts_its_kind_of_reply() {
    let replies = [
        Reply::Unit,
        Reply::Handle(true),
        Reply::Int(0),
        Reply::Float(Single::from_bits(0)),
    ];
    let table = [
        (Call::New, 1),
        (Call::Free, 0),
        (Call::Data, 2),
        (Call::SetMods(0), 0),
        (Call::Mode, 2),
        (Call::SetModeOverride(1), 0),
        (Call::SetMode(1), 0),
        (Call::MaxCombo, 2),
        (Call::SetCombo(1), 0),
        (Call::SetNmiss(1), 0),
        (Call::SetAccuracyPercent(Single::from_bits(0)), 0),
        (Call::Pp, 3),
        (Call::Stars, 3),
    ];
    for (call, kind) in table {
        for (i, reply) in replies.iter().enumerate() {
            assert_eq!(call.accepts(reply), i == kind, "{:?} {:?}", call, reply);
        }
    }
}
