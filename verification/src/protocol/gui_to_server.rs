//! Messages from the GUI to the server.
//!
//! A packet is one header byte, the label, followed by the payload. Names are
//! fixed fields of `STR_LEN` bytes; a speed is one byte.

use vstd::prelude::*;
use vstd::utf8::{decode_utf8, valid_utf8};

use crate::game::common::GameSpeed;
use crate::protocol::cmd;
use crate::protocol::common;
use crate::text::{string_from_utf8_lossy, utf8_lossy};

verus! {

/// Length of strings passed through the network.
pub const STR_LEN: usize = 32;

/// Size of a packet header in bytes.
pub const HEADER_SIZE: usize = 1;

/// Size of the largest packet in bytes: the header and one name field.
pub const PACKET_SIZE: usize = 33;

/// Labels for messages from the GUI to the server.
///
/// On the wire `NewGame` is 1, `SaveGame` 2, `LoadGame` 3 and `SetSpeed` 4.
#[derive(Clone, Copy, Debug, PartialEq, Eq, Structural)]
pub enum GuiToServerLabel {
    /// Start a new game.
    NewGame,
    /// Save the current game.
    SaveGame,
    /// Load an existing game.
    LoadGame,
    /// Set the game speed.
    SetSpeed,
}

impl GuiToServerLabel {
    /// The byte that stands for this label on the wire.
    pub open spec fn wire_byte(self) -> u8 {
        match self {
            GuiToServerLabel::NewGame => 1,
            GuiToServerLabel::SaveGame => 2,
            GuiToServerLabel::LoadGame => 3,
            GuiToServerLabel::SetSpeed => 4,
        }
    }

    /// Decode a label from its wire byte; other bytes stand for no label.
    pub fn from_byte(byte: u8) -> (res: Option<GuiToServerLabel>)
        ensures
            res is Some <==> 1 <= byte <= 4,
            res matches Some(l) ==> l.wire_byte() == byte,
    {
        match byte {
            1 => Some(GuiToServerLabel::NewGame),
            2 => Some(GuiToServerLabel::SaveGame),
            3 => Some(GuiToServerLabel::LoadGame),
            4 => Some(GuiToServerLabel::SetSpeed),
            _ => None,
        }
    }
}

/// Actual enumeration containing all available messages.
#[derive(Debug)]
pub enum GuiToServerMsg {
    /// Start a new game.
    NewGame(NewGamePld),
    /// Save the current game.
    SaveGame(SaveGamePld),
    /// Load an existing game.
    LoadGame(LoadGamePld),
    /// Set the game speed.
    SetSpeed(SetSpeedPld),
}

/// True if `text` is the text of the name field `bytes`.
pub open spec fn name_text(bytes: Seq<u8>, text: Seq<char>) -> bool {
    &&& text == utf8_lossy(bytes)
    &&& valid_utf8(bytes) ==> text == decode_utf8(bytes)
}

/// True if `c` is the command that `msg` asks for: names are decoded as
/// UTF-8 with invalid sequences replaced (a valid UTF-8 name gives exactly the
/// text it encodes), speeds keep their meaning.
pub open spec fn cmd_of(msg: GuiToServerMsg, c: cmd::Cmd) -> bool {
    match msg {
        GuiToServerMsg::NewGame(p) => c matches cmd::Cmd::NewGame(q) && name_text(
            p.civ_name@,
            q.civ_name@,
        ),
        GuiToServerMsg::SaveGame(p) => c matches cmd::Cmd::SaveGame(q) && name_text(
            p.name@,
            q.name@,
        ),
        GuiToServerMsg::LoadGame(p) => c matches cmd::Cmd::LoadGame(q) && name_text(
            p.name@,
            q.name@,
        ),
        GuiToServerMsg::SetSpeed(p) => c matches cmd::Cmd::SetSpeed(q) && q.speed
            == p.speed.spec_game_speed(),
    }
}

impl GuiToServerMsg {
    /// The server command that this message asks for.
    pub fn into_cmd(self) -> (res: cmd::Cmd)
        ensures
            cmd_of(self, res),
    {
        match self {
            GuiToServerMsg::NewGame(p) => cmd::Cmd::NewGame(
                cmd::NewGamePld { civ_name: string_from_utf8_lossy(p.civ_name.as_slice()) },
            ),
            GuiToServerMsg::SaveGame(p) => cmd::Cmd::SaveGame(
                cmd::SaveGamePld { name: string_from_utf8_lossy(p.name.as_slice()) },
            ),
            GuiToServerMsg::LoadGame(p) => cmd::Cmd::LoadGame(
                cmd::LoadGamePld { name: string_from_utf8_lossy(p.name.as_slice()) },
            ),
            GuiToServerMsg::SetSpeed(p) => cmd::Cmd::SetSpeed(
                cmd::SetSpeedPld { speed: p.speed.to_game_speed() },
            ),
        }
    }
}

/// A speed change received from the GUI becomes the server command that sets
/// the speed of the same name: pause stays pause, 2x stays 2x, and so on.
pub proof fn law_set_speed_command_keeps_speed(p: SetSpeedPld, c: cmd::Cmd)
    requires
        cmd_of(GuiToServerMsg::SetSpeed(p), c),
    ensures
        c matches cmd::Cmd::SetSpeed(q) && {
            &&& p.speed == common::GameSpeed::Paused <==> q.speed == GameSpeed::Paused
            &&& p.speed == common::GameSpeed::Speed1X <==> q.speed == GameSpeed::Speed1X
            &&& p.speed == common::GameSpeed::Speed2X <==> q.speed == GameSpeed::Speed2X
            &&& p.speed == common::GameSpeed::Speed4X <==> q.speed == GameSpeed::Speed4X
            &&& p.speed == common::GameSpeed::Speed10X <==> q.speed == GameSpeed::Speed10X
            &&& p.speed == common::GameSpeed::Speed40X <==> q.speed == GameSpeed::Speed40X
        },
{
    common::law_wire_speed_keeps_meaning(p.speed);
}

/// Header for all messages.
#[derive(Clone, Copy, Debug)]
pub struct Header {
    /// Message label.
    pub label: GuiToServerLabel,
}

/// Actual packet structure.
#[derive(Debug)]
pub struct Packet<T> {
    /// Packet header.
    pub header: Header,
    /// Packet payload.
    pub payload: T,
}

/// Command for starting a new game.
#[derive(Clone, Copy, Debug)]
pub struct NewGamePld {
    /// Name of the player's civilisation.
    pub civ_name: [u8; STR_LEN],
}

/// Command for saving the current game.
#[derive(Clone, Copy, Debug)]
pub struct SaveGamePld {
    /// Name of the save file (with no extension).
    /// If a save with the same name already exists, it will get overwritten.
    pub name: [u8; STR_LEN],
}

/// Command for loading a saved game.
#[derive(Clone, Copy, Debug)]
pub struct LoadGamePld {
    /// Name of the game to load.
    /// If a game is currently running, it will be terminated without saving.
    pub name: [u8; STR_LEN],
}

/// Command for changing the game speed.
#[derive(Clone, Copy, Debug)]
pub struct SetSpeedPld {
    /// New speed to set.
    pub speed: common::GameSpeed,
}

} // verus!
