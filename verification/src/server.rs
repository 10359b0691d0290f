//! What the light server decides: which command set an OSC packet asks for, and whether
//! the light has to be opened before it is written to.

use crate::osc::{OscArg, OscMessage, OscPacket, PacketContent};
use crate::qlight::{Color, LightCommandSet, LightMode};
use crate::router::{refused_route, spec_route, BoundRoute, RouteMatch, RouteTable, RouteTableError};
use crate::text::{lowercase, to_lowercase};
use vstd::prelude::*;

verus! {

/// Why a packet leads to no write. None of these ends the server.
#[derive(Debug, Clone, Copy, PartialEq, Eq, Structural)]
pub enum Declined {
    /// The packet is a bundle; bundles are not supported.
    Bundle,
    /// No route matches the address of the message.
    UnknownPath,
    /// The color in the address is none of the five.
    UnknownColor,
    /// The arguments are not one integer that is 0, 1 or 2.
    UnknownArguments,
}

/// A device of the configuration: the path it is opened by.
#[derive(Debug, Clone, PartialEq, Eq)]
pub struct DeviceBinding {
    pub path: String,
}

/// Why the configuration gives no device to serve.
#[derive(Debug, Clone, Copy, PartialEq, Eq, Structural)]
pub enum ConfigError {
    /// The configuration has no table of bindings.
    NoBindingsConfigured,
    /// The table of bindings is empty.
    NoBindingsFound,
}

impl ConfigError {
    /// The message for the user.
    pub fn message(self) -> (message: &'static str)
        ensures
            message@ == match self {
                ConfigError::NoBindingsConfigured => "No device bindings configured"@,
                ConfigError::NoBindingsFound => "No device bindings found in config"@,
            },
    {
        match self {
            ConfigError::NoBindingsConfigured => "No device bindings configured",
            ConfigError::NoBindingsFound => "No device bindings found in config",
        }
    }
}

/// Picks the binding to serve: the first of the configured ones.
pub fn first_binding<'a>(bindings: Option<&'a Vec<DeviceBinding>>) -> (chosen: Result<
    &'a DeviceBinding,
    ConfigError,
>)
    ensures
        match bindings {
            None => chosen == Err::<&DeviceBinding, ConfigError>(
                ConfigError::NoBindingsConfigured,
            ),
            Some(bindings) => if bindings@.len() == 0 {
                chosen == Err::<&DeviceBinding, ConfigError>(ConfigError::NoBindingsFound)
            } else {
                chosen == Ok::<&DeviceBinding, ConfigError>(&bindings@[0])
            },
        },
{
    match bindings {
        None => Err(ConfigError::NoBindingsConfigured),
        Some(bindings) => if bindings.len() == 0 {
            Err(ConfigError::NoBindingsFound)
        } else {
            Ok(&bindings[0])
        },
    }
}

/// The light of one binding, as far as the server has to remember it: the binding, and
/// whether the device has been opened. The open device itself is held by the caller.
#[derive(Debug)]
pub struct LightThing {
    binding: DeviceBinding,
    opened: bool,
}

impl LightThing {
    /// Whether the device has been opened.
    pub closed spec fn is_open(&self) -> bool {
        self.opened
    }

    /// The path that the device is opened by.
    pub closed spec fn path(&self) -> Seq<char> {
        self.binding.path@
    }

    /// A light that has not been opened yet.
    pub fn new(binding: DeviceBinding) -> (light: Self)
        ensures
            !light.is_open(),
            light.path() == binding.path@,
    {
        Self { binding, opened: false }
    }

    /// The binding of the light.
    pub fn binding(&self) -> (binding: &DeviceBinding)
        ensures
            binding.path@ == self.path(),
    {
        &self.binding
    }

    /// What has to happen before the light is written to: `Some` path to open the device
    /// by while it has not been opened, `None` from then on.
    pub fn get_or_init_light(&self) -> (to_open: Option<&str>)
        ensures
            match to_open {
                Some(path) => !self.is_open() && path@ == self.path(),
                None => self.is_open(),
            },
    {
        if self.opened {
            None
        } else {
            Some(self.binding.path.as_str())
        }
    }

    /// Records that the device has been opened. The binding stays.
    pub fn opened(&mut self)
        ensures
            final(self).is_open(),
            final(self).path() == old(self).path(),
    {
        self.opened = true;
    }
}

/// The mode that the arguments of a color message ask for: exactly one integer, 0 for
/// off, 1 for on, 2 for blink. Any other arguments ask for none.
pub open spec fn spec_mode_of_args(args: Seq<OscArg>) -> Option<LightMode> {
    if args.len() != 1 {
        None
    } else {
        match args[0] {
            OscArg::Int(value) => if value == 0 {
                Some(LightMode::Off)
            } else if value == 1 {
                Some(LightMode::On)
            } else if value == 2 {
                Some(LightMode::Blink)
            } else {
                None
            },
            OscArg::Other => None,
        }
    }
}

/// The mode that the arguments of a color message ask for.
pub fn mode_of_args(args: &Vec<OscArg>) -> (light_mode: Option<LightMode>)
    ensures
        light_mode == spec_mode_of_args(args@),
{
    if args.len() != 1 {
        return None;
    }
    match args[0] {
        OscArg::Int(0) => Some(LightMode::Off),
        OscArg::Int(1) => Some(LightMode::On),
        OscArg::Int(2) => Some(LightMode::Blink),
        _ => None,
    }
}

/// What a color message leads to. The color is looked at first: where its lowercase is
/// no color name the message is declined for its color, whatever the arguments. Then
/// the arguments have to ask for a mode. The result sets that one color and leaves the
/// rest at `Ignore`.
pub open spec fn spec_color_command(color: Seq<char>, args: Seq<OscArg>) -> Result<
    LightCommandSet,
    Declined,
> {
    match Color::from_name(lowercase(color)) {
        None => Err(Declined::UnknownColor),
        Some(color) => match spec_mode_of_args(args) {
            None => Err(Declined::UnknownArguments),
            Some(light_mode) => Ok(LightCommandSet::spec_default().with(color, light_mode)),
        },
    }
}

/// What a matched message leads to: a reset switches everything off, whatever the
/// arguments.
pub open spec fn spec_resolve(route: BoundRoute, args: Seq<OscArg>) -> Result<
    LightCommandSet,
    Declined,
> {
    match route {
        BoundRoute::Color { id, color } => spec_color_command(color, args),
        BoundRoute::Reset { id } => Ok(LightCommandSet::spec_all_off()),
    }
}

/// What a packet leads to.
pub open spec fn spec_handle_packet(packet: PacketContent) -> Result<LightCommandSet, Declined> {
    match packet {
        PacketContent::Bundle => Err(Declined::Bundle),
        PacketContent::Message { addr, args } => match spec_route(addr) {
            None => Err(Declined::UnknownPath),
            Some(route) => spec_resolve(route, args),
        },
    }
}

/// A color message with a known color and a mode in its arguments gives a report that
/// holds the mode at the offset of that color, 3 at every other color and 6 at the
/// sound.
pub proof fn lemma_color_command_report(
    color_text: Seq<char>,
    args: Seq<OscArg>,
    color: Color,
    light_mode: LightMode,
    other: Color,
)
    requires
        Color::from_name(lowercase(color_text)) == Some(color),
        spec_mode_of_args(args) == Some(light_mode),
    ensures
        spec_color_command(color_text, args) == Ok::<LightCommandSet, Declined>(
            LightCommandSet::spec_default().with(color, light_mode),
        ),
        ({
            let report = LightCommandSet::spec_default().with(color, light_mode).spec_report();
            &&& report[color.spec_code() as int] == light_mode.spec_code()
            &&& other != color ==> report[other.spec_code() as int] == 3
            &&& report[7] == 6
        }),
        light_mode != LightMode::Ignore,
{
}

/// A message is declined exactly when no route matches its address, or the color route
/// matches and the color is unknown or the arguments ask for no mode. A message that
/// the reset route matches switches everything off, whatever its arguments.
pub proof fn lemma_message_outcomes(addr: Seq<char>, args: Seq<OscArg>)
    ensures
        spec_route(addr) is None ==> spec_handle_packet(PacketContent::Message { addr, args })
            == Err::<LightCommandSet, Declined>(Declined::UnknownPath),
        spec_route(addr) matches Some(BoundRoute::Reset { id }) ==> spec_handle_packet(
            PacketContent::Message { addr, args },
        ) == Ok::<LightCommandSet, Declined>(LightCommandSet::spec_all_off()),
        spec_route(addr) matches Some(BoundRoute::Color { id, color }) ==> spec_handle_packet(
            PacketContent::Message { addr, args },
        ) == spec_color_command(color, args),
        spec_route(addr) matches Some(BoundRoute::Color { id, color }) && Color::from_name(
            lowercase(color),
        ) is None ==> spec_handle_packet(PacketContent::Message { addr, args }) == Err::<
            LightCommandSet,
            Declined,
        >(Declined::UnknownColor),
        spec_handle_packet(PacketContent::Message { addr, args }) != Err::<
            LightCommandSet,
            Declined,
        >(Declined::Bundle),
{
}

/// The light server's state: the light it serves and its route table.
pub struct QlightOsc {
    light: LightThing,
    router: RouteTable,
}

impl QlightOsc {
    /// The light that the server serves.
    pub closed spec fn spec_light(&self) -> LightThing {
        self.light
    }

    /// A server for the light of `binding`, not opened yet. It is made exactly when the
    /// router accepts the two route templates; otherwise the error names the first that
    /// it refused.
    pub fn new(binding: DeviceBinding) -> (server: Result<Self, RouteTableError>)
        ensures
            match server {
                Ok(server) => {
                    &&& refused_route() is None
                    &&& !server.spec_light().is_open()
                    &&& server.spec_light().path() == binding.path@
                },
                Err(error) => refused_route() == Some(error),
            },
    {
        match RouteTable::new() {
            Ok(router) => Ok(QlightOsc { light: LightThing::new(binding), router }),
            Err(error) => Err(error),
        }
    }

    /// The light that the server serves.
    pub fn light(&self) -> (light: &LightThing)
        ensures
            *light == self.spec_light(),
    {
        &self.light
    }

    /// Records that the device of the light has been opened.
    pub fn light_opened(&mut self)
        ensures
            final(self).spec_light().is_open(),
            final(self).spec_light().path() == old(self).spec_light().path(),
    {
        self.light.opened();
    }

    /// Matches an address against the route table.
    pub fn route(&self, addr: &str) -> (found: Option<RouteMatch>)
        ensures
            match found {
                Some(route) => spec_route(addr@) == Some(route@),
                None => spec_route(addr@) is None,
            },
    {
        self.router.route(addr)
    }

    /// Decides what a packet leads to: the command set to write to the light, or the
    /// reason why nothing is written.
    pub fn handle_packet(&self, packet: &OscPacket) -> (outcome: Result<LightCommandSet, Declined>)
        ensures
            outcome == spec_handle_packet(packet@),
    {
        match packet {
            OscPacket::Message(msg) => match self.router.route(msg.addr.as_str()) {
                Some(route) => self.resolve(&route, msg),
                None => Err(Declined::UnknownPath),
            },
            OscPacket::Bundle => Err(Declined::Bundle),
        }
    }

    /// Decides what a message leads to whose address matched as `route`.
    pub fn resolve(&self, route: &RouteMatch, msg: &OscMessage) -> (outcome: Result<
        LightCommandSet,
        Declined,
    >)
        ensures
            outcome == spec_resolve(route@, msg.args@),
    {
        match route {
            RouteMatch::Color { id, color } => self.handle_color_command(
                msg,
                id.as_str(),
                color.as_str(),
            ),
            RouteMatch::Reset { id } => self.handle_reset_command(msg, id.as_str()),
        }
    }

    /// Decides what a color message leads to.
    pub fn handle_color_command(&self, msg: &OscMessage, _id: &str, color_str: &str) -> (outcome:
        Result<LightCommandSet, Declined>)
        ensures
            outcome == spec_color_command(color_str@, msg.args@),
    {
        let color = match Color::from_lowercase(&to_lowercase(color_str)) {
            Some(color) => color,
            None => {
                return Err(Declined::UnknownColor);
            },
        };
        let lightmode = match mode_of_args(&msg.args) {
            Some(lightmode) => lightmode,
            None => {
                return Err(Declined::UnknownArguments);
            },
        };
        let mut lcs: LightCommandSet = LightCommandSet::default();
        lcs.set(color, lightmode);
        Ok(lcs)
    }

    /// Decides what a reset message leads to: everything off, whatever the arguments.
    pub fn handle_reset_command(&self, _msg: &OscMessage, _id: &str) -> (outcome: Result<
        LightCommandSet,
        Declined,
    >)
        ensures
            outcome == Ok::<LightCommandSet, Declined>(LightCommandSet::spec_all_off()),
    {
        Ok(LightCommandSet::all_off())
    }
}

} // verus!
