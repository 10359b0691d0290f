//! Command-line tokens of the form `color:mode`, and the command set they add up to.

use crate::qlight::{Color, LightCommand, LightCommandSet, LightMode, ParseError};
use crate::text::{after_first, before_first, lemma_split_is_first, split_once};
use vstd::prelude::*;

verus! {

/// What parsing the token `s` gives.
///
/// A token without a colon is refused with the message that names the expected format.
/// Otherwise the text before the first colon is parsed as a color and the text after it
/// as a mode, and the first of the two that fails gives the message.
pub open spec fn spec_parse_command(s: Seq<char>) -> Result<LightCommand, Seq<char>> {
    if !s.contains(':') {
        Err("Expected format of [red,yellow,green,blue,white]:[on,off,blink] got "@ + s)
    } else {
        match Color::parse(before_first(s, ':')) {
            Err(message) => Err(message),
            Ok(color) => match LightMode::parse(after_first(s, ':')) {
                Err(message) => Err(message),
                Ok(light_mode) => Ok((color, light_mode)),
            },
        }
    }
}

/// Parses one `color:mode` token.
pub fn parse_command(s: &str) -> (parsed: Result<LightCommand, ParseError>)
    ensures
        match parsed {
            Ok(command) => spec_parse_command(s@) == Ok::<LightCommand, Seq<char>>(command),
            Err(error) => spec_parse_command(s@) == Err::<LightCommand, Seq<char>>(error@),
        },
{
    let Some((color, mode_name)) = split_once(s, ':') else {
        let message = String::from_str(
            "Expected format of [red,yellow,green,blue,white]:[on,off,blink] got ",
        ).concat(s);
        return Err(ParseError::new(message));
    };
    proof {
        lemma_split_is_first(s@, ':', color@, mode_name@);
    }
    let color = match Color::try_from(color) {
        Ok(color) => color,
        Err(error) => {
            return Err(error);
        },
    };
    let light_mode = match LightMode::try_from(mode_name) {
        Ok(light_mode) => light_mode,
        Err(error) => {
            return Err(error);
        },
    };
    Ok((color, light_mode))
}

/// What parsing the first `n` of `tokens` gives: the commands in order, or the message of
/// the first token that is refused.
pub open spec fn spec_parse_commands(tokens: Seq<Seq<char>>, n: nat) -> Result<
    Seq<LightCommand>,
    Seq<char>,
>
    decreases n,
{
    if n == 0 || n > tokens.len() {
        Ok(Seq::empty())
    } else {
        match spec_parse_commands(tokens, (n - 1) as nat) {
            Err(message) => Err(message),
            Ok(commands) => match spec_parse_command(tokens[n - 1]) {
                Err(message) => Err(message),
                Ok(command) => Ok(commands.push(command)),
            },
        }
    }
}

/// Parses every token, in order, and stops at the first that is refused.
pub fn parse_commands(tokens: &Vec<String>) -> (parsed: Result<Vec<LightCommand>, ParseError>)
    ensures
        match parsed {
            Ok(commands) => spec_parse_commands(tokens.deep_view(), tokens@.len()) == Ok::<
                Seq<LightCommand>,
                Seq<char>,
            >(commands@),
            Err(error) => spec_parse_commands(tokens.deep_view(), tokens@.len()) == Err::<
                Seq<LightCommand>,
                Seq<char>,
            >(error@),
        },
{
    let mut commands: Vec<LightCommand> = Vec::new();
    let mut i: usize = 0;
    while i < tokens.len()
        invariant
            i <= tokens.len(),
            spec_parse_commands(tokens.deep_view(), i as nat) == Ok::<
                Seq<LightCommand>,
                Seq<char>,
            >(commands@),
        decreases tokens.len() - i,
    {
        assert(tokens.deep_view()[i as int] == tokens@[i as int]@);
        match parse_command(tokens[i].as_str()) {
            Ok(command) => {
                commands.push(command);
            },
            Err(error) => {
                proof {
                    lemma_parse_commands_stays_refused(
                        tokens.deep_view(),
                        (i + 1) as nat,
                        tokens@.len(),
                    );
                }
                return Err(error);
            },
        }
        i += 1;
    }
    Ok(commands)
}

/// Once a token is refused, parsing more tokens gives the same message.
pub proof fn lemma_parse_commands_stays_refused(tokens: Seq<Seq<char>>, n: nat, m: nat)
    requires
        spec_parse_commands(tokens, n) is Err,
        n <= m <= tokens.len(),
    ensures
        spec_parse_commands(tokens, m) == spec_parse_commands(tokens, n),
    decreases m,
{
    if n < m {
        lemma_parse_commands_stays_refused(tokens, n, (m - 1) as nat);
    }
}

/// The command set after the first `n` of `commands` were applied, in order, to `start`.
pub open spec fn apply_commands(start: LightCommandSet, commands: Seq<LightCommand>, n: nat)
    -> LightCommandSet
    decreases n,
{
    if n == 0 || n > commands.len() {
        start
    } else {
        let before = apply_commands(start, commands, (n - 1) as nat);
        before.with(commands[n - 1].0, commands[n - 1].1)
    }
}

/// The set that a command-line invocation starts from: everything off where `reset` is
/// set, nothing changed where it is not.
pub open spec fn start_set(reset: bool) -> LightCommandSet {
    if reset {
        LightCommandSet::spec_all_off()
    } else {
        LightCommandSet::spec_default()
    }
}

/// Folds `commands` from left to right into one command set, starting from
/// [`start_set`]: a later command for a color overwrites an earlier one.
pub fn command_set(reset: bool, commands: &Vec<LightCommand>) -> (set: LightCommandSet)
    ensures
        set == apply_commands(start_set(reset), commands@, commands@.len()),
{
    let mut lightset = if reset {
        LightCommandSet::all_off()
    } else {
        LightCommandSet::default()
    };
    let mut i: usize = 0;
    while i < commands.len()
        invariant
            i <= commands.len(),
            lightset == apply_commands(start_set(reset), commands@, i as nat),
        decreases commands.len() - i,
    {
        let (color, lightmode) = commands[i];
        lightset.set(color, lightmode);
        i += 1;
    }
    lightset
}

/// The mode of the last among the first `n` of `commands` that is for `color`, if any
/// of them is.
pub open spec fn last_mode_for(commands: Seq<LightCommand>, n: nat, color: Color) -> Option<
    LightMode,
>
    decreases n,
{
    if n == 0 || n > commands.len() {
        None
    } else if commands[n - 1].0 == color {
        Some(commands[n - 1].1)
    } else {
        last_mode_for(commands, (n - 1) as nat, color)
    }
}

/// After a fold each color holds the mode of the last command for it, a color without a
/// command holds what it held at the start, and the sound is as it was at the start.
pub proof fn lemma_fold_last_command_wins(
    start: LightCommandSet,
    commands: Seq<LightCommand>,
    n: nat,
    color: Color,
)
    requires
        n <= commands.len(),
    ensures
        apply_commands(start, commands, n).spec_get(color) == match last_mode_for(
            commands,
            n,
            color,
        ) {
            Some(light_mode) => light_mode,
            None => start.spec_get(color),
        },
        apply_commands(start, commands, n).sound == start.sound,
    decreases n,
{
    if n > 0 {
        lemma_fold_last_command_wins(start, commands, (n - 1) as nat, color);
    }
}

} // verus!
