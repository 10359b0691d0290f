use qlight::qlight::{
    is_supported_device, Color, LightCommandSet, LightMode, ParseError, SoundMode, PID, REPORT_ID,
    REPORT_LEN, SOUND_OFFSET, VID,
};

const COLORS: [Color; 5] = [
    Color::Red,
    Color::Yellow,
    Color::Green,
    Color::Blue,
    Color::White,
];

const MODES: [LightMode; 4] = [
    LightMode::Off,
    LightMode::On,
    LightMode::Blink,
    LightMode::Ignore,
];

#[test]
fn color_tokens_parse_whatever_their_case() {
    for color in COLORS {
        let name = color.name();
        assert_eq!(Color::try_from(name), Ok(color));
        assert_eq!(Color::try_from(name.to_uppercase().as_str()), Ok(color));
    }
    assert_eq!(Color::try_from("rEd"), Ok(Color::Red));
    assert_eq!(Color::try_from("Yellow"), Ok(Color::Yellow));
    assert_eq!(Color::try_from("WHITE"), Ok(Color::White));
}

#[test]
fn color_names_are_the_canonical_ones() {
    assert_eq!(Color::Red.name(), "red");
    assert_eq!(Color::Yellow.name(), "yellow");
    assert_eq!(Color::Green.name(), "green");
    assert_eq!(Color::Blue.name(), "blue");
    assert_eq!(Color::White.name(), "white");
}

#[test]
fn color_error_names_the_five_options_and_the_lowered_token() {
    let err = Color::try_from("Purple").unwrap_err();
    assert_eq!(
        err.message(),
        "Expected one of [red, yellow, green, blue, white], got purple"
    );
    let err = Color::try_from("").unwrap_err();
    assert_eq!(
        err.message(),
        "Expected one of [red, yellow, green, blue, white], got "
    );
    assert!(Color::try_from(" red").is_err());
    assert!(Color::try_from("reds").is_err());
}

#[test]
fn mode_tokens_parse_whatever_their_case() {
    assert_eq!(LightMode::try_from("on"), Ok(LightMode::On));
    assert_eq!(LightMode::try_from("off"), Ok(LightMode::Off));
    assert_eq!(LightMode::try_from("blink"), Ok(LightMode::Blink));
    assert_eq!(LightMode::try_from("ON"), Ok(LightMode::On));
    assert_eq!(LightMode::try_from("oFf"), Ok(LightMode::Off));
    assert_eq!(LightMode::try_from("Blink"), Ok(LightMode::Blink));
}

#[test]
fn mode_lowercase_follows_unicode() {
    // The Kelvin sign is an uppercase letter whose lowercase is the letter k.
    assert_eq!(LightMode::try_from("BLIN\u{212A}"), Ok(LightMode::Blink));
}

#[test]
fn mode_ignore_is_never_accepted() {
    for token in ["ignore", "Ignore", "IGNORE"] {
        let err = LightMode::try_from(token).unwrap_err();
        assert_eq!(
            err.message(),
            "Expected one of [on, off, blink] in command, got ignore"
        );
    }
}

#[test]
fn mode_error_names_the_three_options_and_the_lowered_token() {
    let err = LightMode::try_from("Florb").unwrap_err();
    assert_eq!(
        err.message(),
        "Expected one of [on, off, blink] in command, got florb"
    );
    assert!(LightMode::try_from("").is_err());
    assert!(LightMode::try_from("0").is_err());
}

#[test]
fn from_lowercase_takes_the_token_as_it_is() {
    assert_eq!(Color::from_lowercase(&"blue".to_string()), Some(Color::Blue));
    assert_eq!(Color::from_lowercase(&"Blue".to_string()), None);
    assert_eq!(LightMode::from_lowercase(&"on".to_string()), Some(LightMode::On));
    assert_eq!(LightMode::from_lowercase(&"ON".to_string()), None);
    assert_eq!(LightMode::from_lowercase(&"ignore".to_string()), None);
}

#[test]
fn parse_error_carries_its_message() {
    let err = ParseError::new("no such thing".to_string());
    assert_eq!(err.message(), "no such thing");
    assert_eq!(err.clone(), err);
}

#[test]
fn wire_codes() {
    assert_eq!(Color::Red.code(), 2);
    assert_eq!(Color::Yellow.code(), 3);
    assert_eq!(Color::Green.code(), 4);
    assert_eq!(Color::Blue.code(), 5);
    assert_eq!(Color::White.code(), 6);
    assert_eq!(LightMode::Off.code(), 0);
    assert_eq!(LightMode::On.code(), 1);
    assert_eq!(LightMode::Blink.code(), 2);
    assert_eq!(LightMode::Ignore.code(), 3);
    assert_eq!(SoundMode::Off.code(), 0);
    assert_eq!(SoundMode::Noise1.code(), 1);
    assert_eq!(SoundMode::Noise2.code(), 2);
    assert_eq!(SoundMode::Noise3.code(), 3);
    assert_eq!(SoundMode::Noise4.code(), 4);
    assert_eq!(SoundMode::Noise5.code(), 5);
    assert_eq!(SoundMode::Ignore.code(), 6);
}

#[test]
fn defaults_are_ignore() {
    assert_eq!(LightMode::default(), LightMode::Ignore);
    assert_eq!(SoundMode::default(), SoundMode::Ignore);
    let set = LightCommandSet::default();
    for color in COLORS {
        assert_eq!(set.get(color), LightMode::Ignore);
    }
    assert_eq!(set.sound, SoundMode::Ignore);
}

#[test]
fn all_off_is_off_everywhere() {
    let set = LightCommandSet::all_off();
    for color in COLORS {
        assert_eq!(set.get(color), LightMode::Off);
    }
    assert_eq!(set.sound, SoundMode::Off);
}

#[test]
fn default_report() {
    let report = LightCommandSet::default().to_report();
    let mut expected = [0u8; 65];
    expected[0] = 0x57;
    expected[2] = 3;
    expected[3] = 3;
    expected[4] = 3;
    expected[5] = 3;
    expected[6] = 3;
    expected[7] = 6;
    assert_eq!(report, expected);
}

#[test]
fn all_off_report() {
    let report = LightCommandSet::all_off().to_report();
    let mut expected = [0u8; 65];
    expected[0] = 0x57;
    assert_eq!(report, expected);
    assert_eq!(&report[2..8], &[0, 0, 0, 0, 0, 0]);
}

#[test]
fn report_layout() {
    let set = LightCommandSet {
        red: LightMode::On,
        yellow: LightMode::Blink,
        green: LightMode::Off,
        blue: LightMode::Ignore,
        white: LightMode::On,
        sound: SoundMode::Noise4,
    };
    let report = set.to_report();
    assert_eq!(report.len(), REPORT_LEN);
    assert_eq!(report[0], REPORT_ID);
    assert_eq!(report[1], 0);
    assert_eq!(&report[2..7], &[1, 2, 0, 3, 1]);
    assert_eq!(report[SOUND_OFFSET], 4);
    assert!(report[8..].iter().all(|byte| *byte == 0));
}

#[test]
fn report_holds_each_color_at_the_offset_of_its_code() {
    for color in COLORS {
        for mode in MODES {
            let mut set = LightCommandSet::default();
            set.set(color, mode);
            let report = set.to_report();
            assert_eq!(report[color.code() as usize], mode.code());
            for other in COLORS {
                if other != color {
                    assert_eq!(report[other.code() as usize], 3);
                }
            }
            assert_eq!(report[7], 6);
        }
    }
}

#[test]
fn set_changes_one_channel() {
    let mut set = LightCommandSet::all_off();
    set.set(Color::Blue, LightMode::Blink);
    assert_eq!(
        set,
        LightCommandSet {
            red: LightMode::Off,
            yellow: LightMode::Off,
            green: LightMode::Off,
            blue: LightMode::Blink,
            white: LightMode::Off,
            sound: SoundMode::Off,
        }
    );
}

#[test]
fn set_is_idempotent() {
    let mut once = LightCommandSet::default();
    once.set(Color::Yellow, LightMode::On);
    let mut twice = once;
    twice.set(Color::Yellow, LightMode::On);
    assert_eq!(once, twice);
}

#[test]
fn set_last_write_wins() {
    for color in COLORS {
        for first in MODES {
            for second in MODES {
                let mut set = LightCommandSet::default();
                set.set(color, first);
                set.set(color, second);
                let mut direct = LightCommandSet::default();
                direct.set(color, second);
                assert_eq!(set, direct);
                assert_eq!(set.to_report(), direct.to_report());
                assert_eq!(set.to_report()[color.code() as usize], second.code());
            }
        }
    }
}

#[test]
fn set_takes_ignore() {
    let mut set = LightCommandSet::all_off();
    set.set(Color::Red, LightMode::Ignore);
    assert_eq!(set.red, LightMode::Ignore);
    assert_eq!(set.to_report()[2], 3);
}

#[test]
fn supported_device_ids() {
    assert_eq!(VID, 0x04d8);
    assert_eq!(PID, 0xe73c);
    assert!(is_supported_device(0x04d8, 0xe73c));
    assert!(!is_supported_device(0x04d8, 0xe73d));
    assert!(!is_supported_device(0x04d9, 0xe73c));
    assert!(!is_supported_device(0xe73c, 0x04d8));
}
