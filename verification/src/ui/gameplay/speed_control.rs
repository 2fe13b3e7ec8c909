//! Speed control buttons of the gameplay screen.

use vstd::prelude::*;

use crate::game::common::GameSpeed;
use crate::protocol::cmd::{Cmd, SetSpeedPld};

verus! {

/// Number of speed buttons.
pub const SPEED_BUTTONS: usize = 6;

/// The speed that the button at index `i` selects; buttons are shown in the
/// order pause, 1X, 2X, 4X, 10X, 40X.
pub open spec fn speed_at(i: int) -> GameSpeed {
    if i == 0 {
        GameSpeed::Paused
    } else if i == 1 {
        GameSpeed::Speed1X
    } else if i == 2 {
        GameSpeed::Speed2X
    } else if i == 3 {
        GameSpeed::Speed4X
    } else if i == 4 {
        GameSpeed::Speed10X
    } else {
        GameSpeed::Speed40X
    }
}

/// True if `i` is the first clicked button.
pub open spec fn is_first_clicked(clicked: Seq<bool>, i: int) -> bool {
    &&& 0 <= i < clicked.len()
    &&& clicked[i]
    &&& forall|j: int| 0 <= j < i ==> !clicked[j]
}

/// The speed that the button at index `i` selects.
pub fn speed_button(i: usize) -> (res: GameSpeed)
    requires
        i < SPEED_BUTTONS,
    ensures
        res == speed_at(i as int),
{
    match i {
        0 => GameSpeed::Paused,
        1 => GameSpeed::Speed1X,
        2 => GameSpeed::Speed2X,
        3 => GameSpeed::Speed4X,
        4 => GameSpeed::Speed10X,
        _ => GameSpeed::Speed40X,
    }
}

/// The command sent for the buttons clicked in one frame: the speed of the
/// first clicked button, in the order shown; nothing if none was clicked.
pub fn speed_command(clicked: &[bool; SPEED_BUTTONS]) -> (res: Option<Cmd>)
    ensures
        res is Some <==> exists|i: int| 0 <= i < SPEED_BUTTONS && clicked@[i],
        forall|i: int|
            is_first_clicked(clicked@, i) ==> (res matches Some(Cmd::SetSpeed(p)) && p.speed
                == speed_at(i)),
{
    let mut i: usize = 0;
    while i < SPEED_BUTTONS
        invariant
            i <= SPEED_BUTTONS,
            clicked@.len() == SPEED_BUTTONS,
            forall|j: int| 0 <= j < i ==> !clicked@[j],
        decreases SPEED_BUTTONS - i,
    {
        if clicked[i] {
            assert(is_first_clicked(clicked@, i as int));
            assert forall|k: int| is_first_clicked(clicked@, k) implies k == i by {
                if k < i {
                    assert(!clicked@[k]);
                } else if k > i {
                    assert(!clicked@[i as int]);
                }
            }
            return Some(Cmd::SetSpeed(SetSpeedPld { speed: speed_button(i) }));
        }
        i = i + 1;
    }
    None
}

/// The index of the button that is highlighted for the current speed: the
/// button that selects it.
pub fn highlighted_button(speed: GameSpeed) -> (res: usize)
    ensures
        res < SPEED_BUTTONS,
        speed_at(res as int) == speed,
{
    match speed {
        GameSpeed::Paused => 0,
        GameSpeed::Speed1X => 1,
        GameSpeed::Speed2X => 2,
        GameSpeed::Speed4X => 3,
        GameSpeed::Speed10X => 4,
        GameSpeed::Speed40X => 5,
    }
}

} // verus!
