//! Channels, modes, the per-channel command set and its wire format.

use crate::text::{lowercase, to_lowercase};
use vstd::prelude::*;

verus! {

/// USB vendor id of the supported light.
pub const VID: u16 = 0x04d8;

/// USB product id of the supported light.
pub const PID: u16 = 0xe73c;

/// First byte of every report sent to the device.
pub const REPORT_ID: u8 = 0x57;

/// Length in bytes of a report, the report id included.
pub const REPORT_LEN: usize = 65;

/// Offset in the report of the sound channel's byte.
pub const SOUND_OFFSET: usize = 7;

/// One channel update: which color, and the mode it is put in.
pub type LightCommand = (Color, LightMode);

/// True for the vendor and product id pair of the supported light, and for no other.
pub fn is_supported_device(vendor_id: u16, product_id: u16) -> (supported: bool)
    ensures
        supported == (vendor_id == VID && product_id == PID),
{
    vendor_id == VID && product_id == PID
}

/// Why a token was not understood; it carries the message for the user.
#[derive(Debug, Clone, PartialEq, Eq)]
pub struct ParseError(String);

impl View for ParseError {
    type V = Seq<char>;

    closed spec fn view(&self) -> Seq<char> {
        self.0@
    }
}

impl ParseError {
    /// An error that carries `message`.
    pub fn new(message: String) -> (error: Self)
        ensures
            error@ == message@,
    {
        ParseError(message)
    }

    /// The message for the user.
    pub fn message(&self) -> (message: &str)
        ensures
            message@ == self@,
    {
        self.0.as_str()
    }
}

/// The five color channels of the light.
#[derive(Debug, Clone, Copy, PartialEq, Eq, Structural)]
pub enum Color {
    Red,
    Yellow,
    Green,
    Blue,
    White,
}

impl Color {
    /// The channel's wire code, which is also the offset of its byte in a report.
    pub open spec fn spec_code(self) -> u8 {
        match self {
            Color::Red => 2,
            Color::Yellow => 3,
            Color::Green => 4,
            Color::Blue => 5,
            Color::White => 6,
        }
    }

    /// The channel's canonical name.
    pub open spec fn spec_name(self) -> Seq<char> {
        match self {
            Color::Red => "red"@,
            Color::Yellow => "yellow"@,
            Color::Green => "green"@,
            Color::Blue => "blue"@,
            Color::White => "white"@,
        }
    }

    /// The channel that `token` is the canonical name of, if it is one.
    pub open spec fn from_name(token: Seq<char>) -> Option<Color> {
        if token == "red"@ {
            Some(Color::Red)
        } else if token == "yellow"@ {
            Some(Color::Yellow)
        } else if token == "green"@ {
            Some(Color::Green)
        } else if token == "blue"@ {
            Some(Color::Blue)
        } else if token == "white"@ {
            Some(Color::White)
        } else {
            None
        }
    }

    /// What parsing `value` gives: the channel whose canonical name is the lowercase of
    /// `value`, or else the message that names the five valid options and the rejected
    /// token in lowercase.
    pub open spec fn parse(value: Seq<char>) -> Result<Color, Seq<char>> {
        match Color::from_name(lowercase(value)) {
            Some(color) => Ok(color),
            None => Err(
                "Expected one of [red, yellow, green, blue, white], got "@ + lowercase(value),
            ),
        }
    }

    /// The channel's canonical name.
    pub fn name(self) -> (name: &'static str)
        ensures
            name@ == self.spec_name(),
    {
        match self {
            Color::Red => "red",
            Color::Yellow => "yellow",
            Color::Green => "green",
            Color::Blue => "blue",
            Color::White => "white",
        }
    }

    /// The channel that `token`, already in lowercase, names.
    pub fn from_lowercase(token: &String) -> (color: Option<Color>)
        ensures
            color == Color::from_name(token@),
    {
        if *token == String::from_str("red") {
            Some(Color::Red)
        } else if *token == String::from_str("yellow") {
            Some(Color::Yellow)
        } else if *token == String::from_str("green") {
            Some(Color::Green)
        } else if *token == String::from_str("blue") {
            Some(Color::Blue)
        } else if *token == String::from_str("white") {
            Some(Color::White)
        } else {
            None
        }
    }

    /// The channel's wire code, which is also the offset of its byte in a report.
    pub fn code(self) -> (code: u8)
        ensures
            code == self.spec_code(),
            2 <= code <= 6,
    {
        match self {
            Color::Red => 2,
            Color::Yellow => 3,
            Color::Green => 4,
            Color::Blue => 5,
            Color::White => 6,
        }
    }
}

impl TryFrom<&str> for Color {
    type Error = ParseError;

    /// Parses a color token, whatever its case.
    fn try_from(value: &str) -> (parsed: Result<Self, Self::Error>)
        ensures
            match parsed {
                Ok(color) => Color::parse(value@) == Ok::<Color, Seq<char>>(color),
                Err(error) => Color::parse(value@) == Err::<Color, Seq<char>>(error@),
            },
    {
        let lowered = to_lowercase(value);
        match Color::from_lowercase(&lowered) {
            Some(color) => Ok(color),
            None => {
                let message = String::from_str(
                    "Expected one of [red, yellow, green, blue, white], got ",
                ).concat(lowered.as_str());
                Err(ParseError::new(message))
            },
        }
    }
}

impl vstd::std_specs::convert::TryFromSpecImpl<&str> for Color {
    open spec fn obeys_try_from_spec() -> bool {
        false
    }

    open spec fn try_from_spec(value: &str) -> Result<Self, Self::Error> {
        arbitrary()
    }
}

/// What one color channel is told to do.
#[derive(Debug, Clone, Copy, PartialEq, Eq, Structural)]
pub enum LightMode {
    Off,
    On,
    Blink,
    /// Leave the channel as it is.
    Ignore,
}

impl LightMode {
    /// The mode's wire code.
    pub open spec fn spec_code(self) -> u8 {
        match self {
            LightMode::Off => 0,
            LightMode::On => 1,
            LightMode::Blink => 2,
            LightMode::Ignore => 3,
        }
    }

    /// The mode that `token` names on input, if it names one; `Ignore` has no name.
    pub open spec fn from_name(token: Seq<char>) -> Option<LightMode> {
        if token == "on"@ {
            Some(LightMode::On)
        } else if token == "off"@ {
            Some(LightMode::Off)
        } else if token == "blink"@ {
            Some(LightMode::Blink)
        } else {
            None
        }
    }

    /// What parsing `value` gives: the mode that the lowercase of `value` names, or else
    /// the message that names the three valid options and the rejected token in
    /// lowercase.
    pub open spec fn parse(value: Seq<char>) -> Result<LightMode, Seq<char>> {
        match LightMode::from_name(lowercase(value)) {
            Some(light_mode) => Ok(light_mode),
            None => Err("Expected one of [on, off, blink] in command, got "@ + lowercase(value)),
        }
    }

    /// The mode that `token`, already in lowercase, names.
    pub fn from_lowercase(token: &String) -> (light_mode: Option<LightMode>)
        ensures
            light_mode == LightMode::from_name(token@),
    {
        if *token == String::from_str("on") {
            Some(LightMode::On)
        } else if *token == String::from_str("off") {
            Some(LightMode::Off)
        } else if *token == String::from_str("blink") {
            Some(LightMode::Blink)
        } else {
            None
        }
    }

    /// The mode's wire code.
    pub fn code(self) -> (code: u8)
        ensures
            code == self.spec_code(),
            code <= 3,
    {
        match self {
            LightMode::Off => 0,
            LightMode::On => 1,
            LightMode::Blink => 2,
            LightMode::Ignore => 3,
        }
    }
}

impl TryFrom<&str> for LightMode {
    type Error = ParseError;

    /// Parses a mode token, whatever its case.
    fn try_from(value: &str) -> (parsed: Result<Self, Self::Error>)
        ensures
            match parsed {
                Ok(light_mode) => LightMode::parse(value@) == Ok::<LightMode, Seq<char>>(
                    light_mode,
                ),
                Err(error) => LightMode::parse(value@) == Err::<LightMode, Seq<char>>(error@),
            },
    {
        let lowered = to_lowercase(value);
        match LightMode::from_lowercase(&lowered) {
            Some(light_mode) => Ok(light_mode),
            None => {
                let message = String::from_str(
                    "Expected one of [on, off, blink] in command, got ",
                ).concat(lowered.as_str());
                Err(ParseError::new(message))
            },
        }
    }
}

impl vstd::std_specs::convert::TryFromSpecImpl<&str> for LightMode {
    open spec fn obeys_try_from_spec() -> bool {
        false
    }

    open spec fn try_from_spec(value: &str) -> Result<Self, Self::Error> {
        arbitrary()
    }
}

impl Default for LightMode {
    fn default() -> (mode: Self)
        ensures
            mode == LightMode::Ignore,
    {
        LightMode::Ignore
    }
}

/// What the sound channel is told to do.
#[derive(Debug, Clone, Copy, PartialEq, Eq, Structural)]
pub enum SoundMode {
    Off,
    Noise1,
    Noise2,
    Noise3,
    Noise4,
    Noise5,
    /// Leave the channel as it is.
    Ignore,
}

impl SoundMode {
    /// The mode's wire code.
    pub open spec fn spec_code(self) -> u8 {
        match self {
            SoundMode::Off => 0,
            SoundMode::Noise1 => 1,
            SoundMode::Noise2 => 2,
            SoundMode::Noise3 => 3,
            SoundMode::Noise4 => 4,
            SoundMode::Noise5 => 5,
            SoundMode::Ignore => 6,
        }
    }

    /// The mode's wire code.
    pub fn code(self) -> (code: u8)
        ensures
            code == self.spec_code(),
            code <= 6,
    {
        match self {
            SoundMode::Off => 0,
            SoundMode::Noise1 => 1,
            SoundMode::Noise2 => 2,
            SoundMode::Noise3 => 3,
            SoundMode::Noise4 => 4,
            SoundMode::Noise5 => 5,
            SoundMode::Ignore => 6,
        }
    }
}

impl Default for SoundMode {
    fn default() -> (mode: Self)
        ensures
            mode == SoundMode::Ignore,
    {
        SoundMode::Ignore
    }
}

/// One mode per color channel, and one for the sound channel.
#[derive(Debug, Clone, Copy, PartialEq, Eq, Structural)]
pub struct LightCommandSet {
    pub red: LightMode,
    pub yellow: LightMode,
    pub green: LightMode,
    pub blue: LightMode,
    pub white: LightMode,
    pub sound: SoundMode,
}

impl LightCommandSet {
    /// The set that changes nothing: every channel at `Ignore`.
    pub open spec fn spec_default() -> Self {
        LightCommandSet {
            red: LightMode::Ignore,
            yellow: LightMode::Ignore,
            green: LightMode::Ignore,
            blue: LightMode::Ignore,
            white: LightMode::Ignore,
            sound: SoundMode::Ignore,
        }
    }

    /// The set that switches everything off, the sound included.
    pub open spec fn spec_all_off() -> Self {
        LightCommandSet {
            red: LightMode::Off,
            yellow: LightMode::Off,
            green: LightMode::Off,
            blue: LightMode::Off,
            white: LightMode::Off,
            sound: SoundMode::Off,
        }
    }

    /// The mode held for `color`.
    pub open spec fn spec_get(self, color: Color) -> LightMode {
        match color {
            Color::Red => self.red,
            Color::Yellow => self.yellow,
            Color::Green => self.green,
            Color::Blue => self.blue,
            Color::White => self.white,
        }
    }

    /// This set with the mode of `color` replaced by `light_mode`.
    pub open spec fn with(self, color: Color, light_mode: LightMode) -> Self {
        match color {
            Color::Red => LightCommandSet { red: light_mode, ..self },
            Color::Yellow => LightCommandSet { yellow: light_mode, ..self },
            Color::Green => LightCommandSet { green: light_mode, ..self },
            Color::Blue => LightCommandSet { blue: light_mode, ..self },
            Color::White => LightCommandSet { white: light_mode, ..self },
        }
    }

    /// The byte at offset `i` of the report for this set.
    ///
    /// Offset 0 holds the report id, the offset of each color's wire code holds that
    /// color's mode, offset 7 holds the sound mode, and every other byte is zero.
    pub open spec fn report_byte(self, i: int) -> u8 {
        if i == 0 {
            REPORT_ID
        } else if i == Color::Red.spec_code() {
            self.red.spec_code()
        } else if i == Color::Yellow.spec_code() {
            self.yellow.spec_code()
        } else if i == Color::Green.spec_code() {
            self.green.spec_code()
        } else if i == Color::Blue.spec_code() {
            self.blue.spec_code()
        } else if i == Color::White.spec_code() {
            self.white.spec_code()
        } else if i == SOUND_OFFSET {
            self.sound.spec_code()
        } else {
            0
        }
    }

    /// The report for this set: 65 bytes, each given by [`Self::report_byte`].
    pub open spec fn spec_report(self) -> Seq<u8> {
        Seq::new(REPORT_LEN as nat, |i: int| self.report_byte(i))
    }

    /// The set that switches everything off, the sound included.
    pub fn all_off() -> (set: Self)
        ensures
            set == Self::spec_all_off(),
    {
        Self {
            red: LightMode::Off,
            yellow: LightMode::Off,
            green: LightMode::Off,
            blue: LightMode::Off,
            white: LightMode::Off,
            sound: SoundMode::Off,
        }
    }

    /// The mode held for `color`.
    pub fn get(&self, color: Color) -> (light_mode: LightMode)
        ensures
            light_mode == self.spec_get(color),
    {
        match color {
            Color::Red => self.red,
            Color::Yellow => self.yellow,
            Color::Green => self.green,
            Color::Blue => self.blue,
            Color::White => self.white,
        }
    }

    /// Overwrites the mode of `color`; every other channel keeps its mode.
    pub fn set(&mut self, color: Color, light_mode: LightMode)
        ensures
            *final(self) == old(self).with(color, light_mode),
    {
        match color {
            Color::Red => self.red = light_mode,
            Color::Yellow => self.yellow = light_mode,
            Color::Green => self.green = light_mode,
            Color::Blue => self.blue = light_mode,
            Color::White => self.white = light_mode,
        }
    }

    /// Serialises the set into the report that is written to the device.
    pub fn to_report(&self) -> (data: [u8; 65])
        ensures
            data@ == self.spec_report(),
    {
        let mut data: [u8; 65] = [0x0; 65];
        data[0] = REPORT_ID;
        data[2] = self.red.code();
        data[3] = self.yellow.code();
        data[4] = self.green.code();
        data[5] = self.blue.code();
        data[6] = self.white.code();
        data[7] = self.sound.code();
        assert(data@ =~= self.spec_report());
        data
    }
}

impl Default for LightCommandSet {
    fn default() -> (set: Self)
        ensures
            set == LightCommandSet::spec_default(),
    {
        LightCommandSet {
            red: LightMode::Ignore,
            yellow: LightMode::Ignore,
            green: LightMode::Ignore,
            blue: LightMode::Ignore,
            white: LightMode::Ignore,
            sound: SoundMode::Ignore,
        }
    }
}

/// A color token is accepted exactly when its lowercase is the canonical name of a
/// color, and it then parses to that color.
pub proof fn lemma_color_parse_round_trip(value: Seq<char>, color: Color)
    ensures
        Color::from_name(color.spec_name()) == Some(color),
        Color::parse(value) == Ok::<Color, Seq<char>>(color) <==> lowercase(value)
            == color.spec_name(),
{
    reveal_strlit("red");
    reveal_strlit("yellow");
    reveal_strlit("green");
    reveal_strlit("blue");
    reveal_strlit("white");
    assert("red"@.len() == 3 && "yellow"@.len() == 6 && "green"@.len() == 5);
    assert("blue"@.len() == 4 && "white"@.len() == 5);
    assert("green"@[0] == 'g' && "white"@[0] == 'w');
}

/// A color token whose lowercase is none of the five canonical names is refused, with
/// the message that lists the five and ends in the token's lowercase.
pub proof fn lemma_color_parse_rejects(value: Seq<char>)
    requires
        forall|color: Color| lowercase(value) != #[trigger] color.spec_name(),
    ensures
        Color::parse(value) == Err::<Color, Seq<char>>(
            "Expected one of [red, yellow, green, blue, white], got "@ + lowercase(value),
        ),
{
    assert(lowercase(value) != Color::Red.spec_name());
    assert(lowercase(value) != Color::Yellow.spec_name());
    assert(lowercase(value) != Color::Green.spec_name());
    assert(lowercase(value) != Color::Blue.spec_name());
    assert(lowercase(value) != Color::White.spec_name());
}

/// A mode token is accepted exactly when its lowercase is `on`, `off` or `blink`, it
/// then parses to the mode of that name, and no token parses to `Ignore`.
pub proof fn lemma_mode_parse(value: Seq<char>)
    ensures
        LightMode::parse(value) == Ok::<LightMode, Seq<char>>(LightMode::On) <==> lowercase(value)
            == "on"@,
        LightMode::parse(value) == Ok::<LightMode, Seq<char>>(LightMode::Off) <==> lowercase(value)
            == "off"@,
        LightMode::parse(value) == Ok::<LightMode, Seq<char>>(LightMode::Blink) <==> lowercase(
            value,
        ) == "blink"@,
        LightMode::parse(value) != Ok::<LightMode, Seq<char>>(LightMode::Ignore),
        LightMode::parse(value) is Err ==> LightMode::parse(value) == Err::<LightMode, Seq<char>>(
            "Expected one of [on, off, blink] in command, got "@ + lowercase(value),
        ),
{
    reveal_strlit("on");
    reveal_strlit("off");
    reveal_strlit("blink");
    assert("on"@.len() == 2 && "off"@.len() == 3 && "blink"@.len() == 5);
}

/// The report of the set that changes nothing holds 3 for every color and 6 for the
/// sound; the report of the all-off set holds 0 for all six. Both start with the report
/// id, followed by a zero byte, and are zero from offset 8 on.
pub proof fn lemma_default_and_all_off_reports()
    ensures
        LightCommandSet::spec_default().spec_report().len() == 65,
        LightCommandSet::spec_all_off().spec_report().len() == 65,
        LightCommandSet::spec_default().spec_report().subrange(0, 8) == seq![
            0x57u8,
            0,
            3,
            3,
            3,
            3,
            3,
            6,
        ],
        LightCommandSet::spec_all_off().spec_report().subrange(0, 8) == seq![
            0x57u8,
            0,
            0,
            0,
            0,
            0,
            0,
            0,
        ],
        forall|i: int|
            8 <= i < 65 ==> LightCommandSet::spec_default().spec_report()[i] == 0
                && LightCommandSet::spec_all_off().spec_report()[i] == 0,
{
    let ignore = LightCommandSet::spec_default().spec_report();
    let off = LightCommandSet::spec_all_off().spec_report();
    assert(ignore.subrange(0, 8) =~= seq![0x57u8, 0, 3, 3, 3, 3, 3, 6]);
    assert(off.subrange(0, 8) =~= seq![0x57u8, 0, 0, 0, 0, 0, 0, 0]);
}

/// In every report the byte at the offset of a color's wire code is the wire code of
/// the mode held for that color.
pub proof fn lemma_report_holds_each_channel(set: LightCommandSet, color: Color)
    ensures
        set.spec_report().len() == 65,
        set.spec_report()[0] == REPORT_ID,
        set.spec_report()[1] == 0,
        set.spec_report()[color.spec_code() as int] == set.spec_get(color).spec_code(),
        set.spec_report()[SOUND_OFFSET as int] == set.sound.spec_code(),
        forall|i: int| 8 <= i < 65 ==> set.spec_report()[i] == 0,
{
}

/// Setting a color changes that color's mode and nothing else.
pub proof fn lemma_set_changes_one_channel(
    set: LightCommandSet,
    color: Color,
    light_mode: LightMode,
    other: Color,
)
    ensures
        set.with(color, light_mode).spec_get(color) == light_mode,
        other != color ==> set.with(color, light_mode).spec_get(other) == set.spec_get(other),
        set.with(color, light_mode).sound == set.sound,
        set.with(color, set.spec_get(color)) == set,
        set.with(color, light_mode).with(color, light_mode) == set.with(color, light_mode),
{
}

/// Of two modes set for one color, only the second shows in the set and in its report.
pub proof fn lemma_last_write_wins(
    set: LightCommandSet,
    color: Color,
    first: LightMode,
    second: LightMode,
)
    ensures
        set.with(color, first).with(color, second) == set.with(color, second),
        set.with(color, first).with(color, second).spec_report() == set.with(
            color,
            second,
        ).spec_report(),
        set.with(color, first).with(color, second).spec_report()[color.spec_code() as int]
            == second.spec_code(),
{
}

} // verus!
