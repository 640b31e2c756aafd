use oppai_rs::{Call, Combo, Error, Evaluation, Mode, Mods, Oppai, Progress, Reply, Single};

const MAP: &[u8] = b"osu file format v14\n";

/// A map of the given mode and longest combo, as the engine would tell it.
fn load(mode: i32, max_combo: i32) -> Oppai {
    let mut session = Oppai::new_from_content(MAP.to_vec()).expect("no zero byte");
    loop {
        let reply = match session.pending() {
            Call::New => Reply::Handle(true),
            Call::Data => Reply::Int(0),
            Call::Mode => Reply::Int(mode),
            Call::MaxCombo => Reply::Int(max_combo),
            _ => Reply::Unit,
        };
        match session.advance(reply) {
            Progress::Pending(next) => session = next,
            Progress::Finished(result) => return result.expect("a map"),
        }
    }
}

/// The calls of a run, the handle given.
fn calls(mut session: Evaluation) -> Vec<Call> {
    let mut calls = Vec::new();
    loop {
        let call = session.pending();
        calls.push(call);
        let reply = match call {
            Call::New => Reply::Handle(true),
            Call::Data => Reply::Int(0),
            Call::Pp | Call::Stars => Reply::Float(Single::from_bits(0)),
            _ => Reply::Unit,
        };
        match session.advance(reply) {
            Progress::Pending(next) => session = next,
            Progress::Finished(_) => return calls,
        }
    }
}

fn percent(x: f32) -> Single {
    Single::from_bits(x.to_bits())
}

fn failure(result: Result<&mut Oppai, Error>) -> Error {
    match result {
        Ok(_) => panic!("the value was taken"),
        Err(e) => e,
    }
}

#[test]
fn accuracy_is_taken_from_0_to_100() {
    let mut oppai = load(0, 100);
    for x in [0.0f32, 100.0, -0.0, 33.3, 99.9999] {
        assert!(oppai.accuracy(percent(x)).is_ok(), "{}", x);
    }
    for x in [-0.0001f32, 100.0001, -5.0, 1000.0, f32::NAN, f32::INFINITY] {
        assert_eq!(failure(oppai.accuracy(percent(x))), Error::InvalidAccuracy, "{}", x);
    }
}

#[test]
fn full_combo_must_miss_fewer_slider_ends_than_the_map_has_combo() {
    let mut oppai = load(0, 100);
    assert!(oppai.combo(Combo::FC(0)).is_ok());
    assert!(oppai.combo(Combo::FC(99)).is_ok());
    assert_eq!(failure(oppai.combo(Combo::FC(100))), Error::InvalidCombo);
    assert_eq!(failure(oppai.combo(Combo::FC(u32::MAX))), Error::InvalidCombo);
}

#[test]
fn partial_combo_and_misses_must_fit_the_map() {
    let mut oppai = load(0, 100);
    assert!(oppai.combo(Combo::non_fc(100, 0)).is_ok());
    assert!(oppai.combo(Combo::non_fc(0, 100)).is_ok());
    assert!(oppai.combo(Combo::non_fc(60, 40)).is_ok());
    assert!(oppai.combo(Combo::non_fc(0, 0)).is_ok());
    assert_eq!(failure(oppai.combo(Combo::non_fc(60, 41))), Error::InvalidCombo);
    assert_eq!(failure(oppai.combo(Combo::non_fc(101, 0))), Error::InvalidCombo);
}

#[test]
fn combo_and_misses_are_added_without_overflow() {
    let mut oppai = load(0, 100);
    assert_eq!(
        failure(oppai.combo(Combo::non_fc(u32::MAX, u32::MAX))),
        Error::InvalidCombo
    );
    assert_eq!(
        failure(oppai.combo(Combo::non_fc(u32::MAX, 2))),
        Error::InvalidCombo
    );
    let mut oppai = load(0, -1);
    assert!(oppai.combo(Combo::non_fc(u32::MAX, 0)).is_ok());
    assert_eq!(
        failure(oppai.combo(Combo::non_fc(u32::MAX, 1))),
        Error::InvalidCombo
    );
}

#[test]
fn a_map_without_combo_takes_only_the_empty_partial_combo() {
    let mut oppai = load(0, 0);
    assert!(oppai.combo(Combo::non_fc(0, 0)).is_ok());
    assert_eq!(failure(oppai.combo(Combo::perfect())), Error::InvalidCombo);
    assert_eq!(failure(oppai.combo(Combo::FC(1))), Error::InvalidCombo);
    assert_eq!(failure(oppai.combo(Combo::non_fc(1, 0))), Error::InvalidCombo);
    assert_eq!(failure(oppai.combo(Combo::non_fc(0, 1))), Error::InvalidCombo);
}

#[test]
fn a_standard_map_converts_to_every_mode() {
    let mut oppai = load(0, 100);
    assert!(oppai.mode(Mode::Std).is_ok());
    assert!(oppai.mode(Mode::Taiko).is_ok());
}

#[test]
fn a_taiko_map_does_not_convert() {
    let mut oppai = load(1, 100);
    assert!(oppai.mode(Mode::Taiko).is_ok());
    assert_eq!(failure(oppai.mode(Mode::Std)), Error::CannotConvertMode);
}

#[test]
fn content_with_a_zero_byte_is_refused() {
    let content = b"osu\0file\0".to_vec();
    match Oppai::new_from_content(content.clone()) {
        Ok(_) => panic!("the content was taken"),
        Err(e) => assert_eq!(e, Error::InvalidPathNull(3, content)),
    }
    match Oppai::new_from_content(vec![0]) {
        Ok(_) => panic!("the content was taken"),
        Err(e) => assert_eq!(e, Error::InvalidPathNull(0, vec![0])),
    }
    match Oppai::new_from_content(vec![1, 2, 3, 0]) {
        Ok(_) => panic!("the content was taken"),
        Err(e) => assert_eq!(e, Error::InvalidPathNull(3, vec![1, 2, 3, 0])),
    }
}

#[test]
fn a_file_with_a_zero_byte_is_refused_before_any_call() {
    let file = b"osu file format v14\n\0[General]\n".to_vec();
    match Oppai::new(file.clone()) {
        Ok(_) => panic!("the file was taken"),
        Err(e) => assert_eq!(e, Error::InvalidPathNull(20, file)),
    }
}

#[test]
fn a_file_without_a_zero_byte_starts_with_a_handle() {
    match Oppai::new(MAP.to_vec()) {
        Ok(session) => {
            assert_eq!(session.pending(), Call::New);
            assert_eq!(session.content().as_slice(), MAP);
        }
        Err(e) => panic!("{:?}", e),
    }
}

#[test]
fn content_without_a_zero_byte_is_taken() {
    assert!(Oppai::new_from_content(Vec::new()).is_ok());
    assert!(Oppai::new_from_content(vec![1, 255, 10, 13]).is_ok());
}

#[test]
fn mods_set_twice_are_replaced() {
    let mut oppai = load(0, 100);
    let a = Mods::from_bits_truncate(Mods::HD | Mods::HR);
    let b = Mods::from_bits_truncate(Mods::DT);
    oppai.mods(a);
    oppai.mods(b);
    assert_eq!(
        calls(oppai.run()),
        vec![
            Call::New,
            Call::SetMods(Mods::DT),
            Call::Data,
            Call::Pp,
            Call::Stars,
            Call::Free
        ]
    );
    oppai.mods(a).mods(Mods::empty());
    assert_eq!(calls(oppai.run())[1], Call::SetMods(0));
}

#[test]
fn the_last_value_set_stands() {
    let mut oppai = load(0, 100);
    oppai.combo(Combo::FC(5)).expect("combo");
    oppai.combo(Combo::non_fc(50, 1)).expect("combo");
    oppai.accuracy(percent(10.0)).expect("accuracy");
    oppai.accuracy(percent(90.0)).expect("accuracy");
    oppai.mode(Mode::Taiko).expect("mode");
    oppai.mode(Mode::Std).expect("mode");
    assert_eq!(
        calls(oppai.run()),
        vec![
            Call::New,
            Call::SetCombo(50),
            Call::SetNmiss(1),
            Call::SetModeOverride(0),
            Call::SetMode(0),
            Call::SetAccuracyPercent(percent(90.0)),
            Call::Data,
            Call::Pp,
            Call::Stars,
            Call::Free
        ]
    );
}

#[test]
fn a_value_that_is_refused_changes_nothing() {
    let mut oppai = load(1, 100);
    oppai.combo(Combo::FC(5)).expect("combo");
    oppai.accuracy(percent(75.0)).expect("accuracy");
    let before = calls(oppai.run());
    assert!(oppai.combo(Combo::FC(100)).is_err());
    assert!(oppai.accuracy(percent(101.0)).is_err());
    assert!(oppai.mode(Mode::Std).is_err());
    assert_eq!(calls(oppai.run()), before);
    assert_eq!(
        before,
        vec![
            Call::New,
            Call::SetCombo(95),
            Call::SetAccuracyPercent(percent(75.0)),
            Call::Data,
            Call::Pp,
            Call::Stars,
            Call::Free
        ]
    );
}

#[test]
fn settings_can_be_made_in_any_order() {
    let mods = Mods::from_bits_truncate(Mods::FL);
    let mut one = load(0, 100);
    one.mods(mods);
    one.mode(Mode::Taiko).expect("mode");
    one.combo(Combo::FC(1)).expect("combo");
    one.accuracy(percent(50.0)).expect("accuracy");
    let mut other = load(0, 100);
    other
        .accuracy(percent(50.0))
        .expect("accuracy")
        .combo(Combo::FC(1))
        .expect("combo")
        .mode(Mode::Taiko)
        .expect("mode")
        .mods(mods);
    assert_eq!(calls(one.run()), calls(other.run()));
}

#[test]
fn max_combo_is_the_maps() {
    assert_eq!(load(0, 0).max_combo(), 0);
    assert_eq!(load(0, 2385).max_combo(), 2385);
    assert_eq!(load(1, i32::MAX).max_combo(), 0x7FFF_FFFF);
}
