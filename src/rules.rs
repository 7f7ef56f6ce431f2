//! The rules of the game, as mathematical functions of a state and a throw.
use vstd::prelude::*;

use crate::delta::{CauseOfDeath, PositionDelta, StateDelta};
use crate::state::State;

verus! {

/// A throw of a six-sided die.
pub open spec fn valid_roll(dice: u8) -> bool {
    1 <= dice <= 6
}

/// The state in which every game starts.
pub open spec fn initial() -> State {
    State {
        position: 0,
        history: 0,
        shield: true,
        jumping: false,
        stuck: false,
        dead: false,
        cause_of_death: None,
    }
}

/// What holds of every state that a game goes through: the position and the
/// previous throw stay in [0, 6], and a cause of death is recorded exactly when
/// the player is dead.
pub open spec fn well_formed(s: State) -> bool {
    &&& s.position <= 6
    &&& s.history <= 6
    &&& (s.cause_of_death is Some <==> s.dead)
}

/// Where the throw takes the player, before any asteroid strikes.
pub open spec fn movement(s: State, dice: u8) -> PositionDelta {
    if s.jumping {
        PositionDelta::Jump(dice)
    } else if s.position + 1 == dice {
        if s.stuck {
            PositionDelta::Stuck(dice)
        } else {
            PositionDelta::Forward(dice)
        }
    } else {
        PositionDelta::Nothing
    }
}

/// The throw repeats the previous one: an asteroid strikes.
pub open spec fn is_hit(s: State, dice: u8) -> bool {
    s.history != 0 && s.history == dice
}

/// A 5 frees a stuck player.
pub open spec fn frees(s: State, dice: u8) -> bool {
    dice == 5 && s.stuck
}

/// The cause of death of an unshielded player struck by an asteroid.
pub open spec fn unshielded_death(dice: u8) -> CauseOfDeath {
    if dice == 6 {
        CauseOfDeath::Both
    } else {
        CauseOfDeath::Shields
    }
}

/// What an asteroid does to a shielded player, by the repeated throw.
pub open spec fn hazard(dice: u8) -> StateDelta {
    match dice {
        1 => StateDelta::Shield,
        4 => StateDelta::Jumping,
        5 => StateDelta::Stuck,
        6 => StateDelta::Death(CauseOfDeath::Ceres),
        _ => StateDelta::Nothing,
    }
}

/// The changes that a throw makes to the position and to the player. Once the
/// player is dead, a throw changes nothing.
pub open spec fn changes(s: State, dice: u8) -> (PositionDelta, StateDelta) {
    if s.dead {
        (PositionDelta::Nothing, StateDelta::Nothing)
    } else if is_hit(s, dice) {
        if !s.shield {
            (movement(s, dice), StateDelta::Death(unshielded_death(dice)))
        } else if dice == 3 {
            (PositionDelta::ToZero, StateDelta::Nothing)
        } else {
            (movement(s, dice), hazard(dice))
        }
    } else if frees(s, dice) {
        (movement(s, dice), StateDelta::Unstuck)
    } else {
        (movement(s, dice), StateDelta::Nothing)
    }
}

/// The position after a change of position.
pub open spec fn moved_to(position: u8, pos: PositionDelta) -> u8 {
    match pos {
        PositionDelta::Forward(x) => x,
        PositionDelta::Jump(x) => x,
        PositionDelta::ToZero => 0,
        _ => position,
    }
}

/// The state after a throw: the changes of [`changes`] applied. A strike on a
/// shielded player consumes the repeat and clears the previous throw; otherwise
/// the throw is remembered. A 5 frees a stuck player before any strike, and a
/// strike of 5 on a shielded player makes the player stuck again. Once the
/// player is dead, the state no longer changes.
pub open spec fn next(s: State, dice: u8) -> State {
    let (pos, effect) = changes(s, dice);
    if s.dead {
        s
    } else {
        State {
            position: moved_to(s.position, pos),
            history: if is_hit(s, dice) && s.shield { 0 } else { dice },
            shield: s.shield && effect != StateDelta::Shield,
            jumping: effect == StateDelta::Jumping,
            stuck: if effect == StateDelta::Stuck {
                true
            } else if frees(s, dice) {
                false
            } else {
                s.stuck
            },
            dead: effect is Death,
            cause_of_death: match effect {
                StateDelta::Death(c) => Some(c),
                _ => s.cause_of_death,
            },
        }
    }
}

/// The state after a sequence of throws.
pub open spec fn run(s: State, rolls: Seq<u8>) -> State
    decreases rolls.len(),
{
    if rolls.len() == 0 {
        s
    } else {
        run(next(s, rolls[0]), rolls.drop_first())
    }
}

/// `Some(true)` once the player has won, `Some(false)` once the player is dead,
/// `None` while the game goes on.
pub open spec fn outcome(s: State) -> Option<bool> {
    if s.dead {
        Some(false)
    } else if s.position == 6 {
        Some(true)
    } else {
        None
    }
}

} // verus!
