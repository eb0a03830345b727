use arith_drill::audio::{is_enabled, play_kind, set_enabled, AudioError, SoundKind, SoundSwitch};

#[test]
fn cue_names() {
    let sw = SoundSwitch::new();
    assert!(is_enabled(&sw));
    assert_eq!(play_kind(&sw, "beep"), Ok(Some(SoundKind::Beep)));
    assert_eq!(play_kind(&sw, "applause"), Ok(Some(SoundKind::Applause)));
    assert_eq!(play_kind(&sw, "buzzer"), Ok(Some(SoundKind::Buzzer)));
    assert_eq!(play_kind(&sw, "horn"), Err(AudioError::UnknownKind));
    assert_eq!(play_kind(&sw, "Beep"), Err(AudioError::UnknownKind));
    assert_eq!(play_kind(&sw, ""), Err(AudioError::UnknownKind));
}

#[test]
fn disabled_sound_plays_nothing() {
    let mut sw = SoundSwitch::new();
    set_enabled(&mut sw, false);
    assert!(!is_enabled(&sw));
    assert_eq!(play_kind(&sw, "beep"), Ok(None));
    assert_eq!(play_kind(&sw, "horn"), Ok(None));
    set_enabled(&mut sw, true);
    assert_eq!(play_kind(&sw, "buzzer"), Ok(Some(SoundKind::Buzzer)));
}
