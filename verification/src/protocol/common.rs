//! Common type definitions of the network protocol.

use vstd::prelude::*;

use crate::game::common as game_common;

verus! {

/// Available game speed levels, as carried by network packets.
///
/// On the wire each level is one byte: `Paused` is 0, `Speed1X` 1, `Speed2X` 2,
/// `Speed4X` 3, `Speed10X` 4 and `Speed40X` 5.
#[derive(Clone, Copy, Debug, PartialEq, Eq, Structural)]
pub enum GameSpeed {
    /// The game is paused.
    Paused,
    /// The game is proceeding at its normal speed.
    Speed1X,
    /// The game is proceeding at 2x the normal speed.
    Speed2X,
    /// The game is proceeding at 4x the normal speed.
    Speed4X,
    /// The game is proceeding at 10x the normal speed.
    Speed10X,
    /// The game is proceeding at 40x the normal speed.
    Speed40X,
}

impl GameSpeed {
    /// The byte that stands for this speed on the wire.
    pub open spec fn wire_byte(self) -> u8 {
        match self {
            GameSpeed::Paused => 0,
            GameSpeed::Speed1X => 1,
            GameSpeed::Speed2X => 2,
            GameSpeed::Speed4X => 3,
            GameSpeed::Speed10X => 4,
            GameSpeed::Speed40X => 5,
        }
    }

    /// The speed level of the game model with the same meaning.
    pub open spec fn spec_game_speed(self) -> game_common::GameSpeed {
        match self {
            GameSpeed::Paused => game_common::GameSpeed::Paused,
            GameSpeed::Speed1X => game_common::GameSpeed::Speed1X,
            GameSpeed::Speed2X => game_common::GameSpeed::Speed2X,
            GameSpeed::Speed4X => game_common::GameSpeed::Speed4X,
            GameSpeed::Speed10X => game_common::GameSpeed::Speed10X,
            GameSpeed::Speed40X => game_common::GameSpeed::Speed40X,
        }
    }

    /// Decode a speed from its wire byte; bytes above 5 stand for no speed.
    pub fn from_byte(byte: u8) -> (res: Option<GameSpeed>)
        ensures
            res is Some <==> byte <= 5,
            res matches Some(s) ==> s.wire_byte() == byte,
    {
        match byte {
            0 => Some(GameSpeed::Paused),
            1 => Some(GameSpeed::Speed1X),
            2 => Some(GameSpeed::Speed2X),
            3 => Some(GameSpeed::Speed4X),
            4 => Some(GameSpeed::Speed10X),
            5 => Some(GameSpeed::Speed40X),
            _ => None,
        }
    }

    /// The speed level of the game model with the same meaning.
    pub fn to_game_speed(self) -> (res: game_common::GameSpeed)
        ensures
            res == self.spec_game_speed(),
            self == GameSpeed::Paused <==> res == game_common::GameSpeed::Paused,
            self == GameSpeed::Speed1X <==> res == game_common::GameSpeed::Speed1X,
            self == GameSpeed::Speed2X <==> res == game_common::GameSpeed::Speed2X,
            self == GameSpeed::Speed4X <==> res == game_common::GameSpeed::Speed4X,
            self == GameSpeed::Speed10X <==> res == game_common::GameSpeed::Speed10X,
            self == GameSpeed::Speed40X <==> res == game_common::GameSpeed::Speed40X,
    {
        match self {
            GameSpeed::Paused => game_common::GameSpeed::Paused,
            GameSpeed::Speed1X => game_common::GameSpeed::Speed1X,
            GameSpeed::Speed2X => game_common::GameSpeed::Speed2X,
            GameSpeed::Speed4X => game_common::GameSpeed::Speed4X,
            GameSpeed::Speed10X => game_common::GameSpeed::Speed10X,
            GameSpeed::Speed40X => game_common::GameSpeed::Speed40X,
        }
    }
}

/// Converting a speed carried by the network to the game model's speed keeps
/// its meaning: each level becomes the level of the same name, and so runs the
/// game at the same factor.
pub proof fn law_wire_speed_keeps_meaning(s: GameSpeed)
    ensures
        s == GameSpeed::Paused <==> s.spec_game_speed() == game_common::GameSpeed::Paused,
        s == GameSpeed::Speed1X <==> s.spec_game_speed() == game_common::GameSpeed::Speed1X,
        s == GameSpeed::Speed2X <==> s.spec_game_speed() == game_common::GameSpeed::Speed2X,
        s == GameSpeed::Speed4X <==> s.spec_game_speed() == game_common::GameSpeed::Speed4X,
        s == GameSpeed::Speed10X <==> s.spec_game_speed() == game_common::GameSpeed::Speed10X,
        s == GameSpeed::Speed40X <==> s.spec_game_speed() == game_common::GameSpeed::Speed40X,
{
}

} // verus!
