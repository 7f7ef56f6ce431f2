//! The game state and its update on each throw.
use vstd::prelude::*;

use crate::delta::{CauseOfDeath, PositionDelta, StateDelta};
use crate::laws::lemma_update_keeps_well_formed;
use crate::rules::{changes, initial, is_hit, next, outcome, valid_roll, well_formed};

verus! {

/// Current state of the game.
#[derive(Debug, Clone, Copy, PartialEq, Eq)]
pub struct State {
    /// Current position of the player, in [0, 6].
    pub position: u8,
    /// Previous throw of the die, or 0 if none is pending. In [0, 6].
    pub history: u8,
    /// If true, the player has shields up.
    pub shield: bool,
    /// If true, the next throw is a teleport instead of a normal progression.
    pub jumping: bool,
    /// If true, the player can only progress by teleporting.
    pub stuck: bool,
    /// If true, the player is dead.
    pub dead: bool,
    /// If the player is dead, this holds the cause of death.
    pub cause_of_death: Option<CauseOfDeath>,
}

/// The error of a throw outside [1, 6].
#[derive(Debug, Clone, Copy, PartialEq, Eq, Structural)]
pub enum GameError {
    /// The die does not show that number.
    InvalidInput,
}

/// The changes that one throw makes, computed before any of them is applied.
struct Delta {
    pos: PositionDelta,
    effect: StateDelta,
    /// The throw repeated the previous one.
    hit: bool,
}

impl State {
    /// Start a new game.
    pub fn new() -> (r: State)
        ensures
            r == initial(),
            well_formed(r),
    {
        State {
            position: 0,
            history: 0,
            shield: true,
            jumping: false,
            stuck: false,
            dead: false,
            cause_of_death: None,
        }
    }

    /// The changes that the throw `dice` makes to this state.
    fn get_changes(&self, dice: u8) -> (r: Delta)
        requires
            valid_roll(dice),
            !self.dead,
        ensures
            (r.pos, r.effect) == changes(*self, dice),
            r.hit == is_hit(*self, dice),
    {
        let mut pos = PositionDelta::Nothing;
        let mut effect = StateDelta::Nothing;

        if self.jumping {
            pos = PositionDelta::Jump(dice);
        } else if self.position as u16 + 1 == dice as u16 {
            if self.stuck {
                pos = PositionDelta::Stuck(dice);
            } else {
                pos = PositionDelta::Forward(dice);
            }
        }

        if dice == 5 && self.stuck {
            effect = StateDelta::Unstuck;
        }

        let hit = self.history == dice;
        if hit {
            if !self.shield {
                if dice == 6 {
                    effect = StateDelta::Death(CauseOfDeath::Both);
                } else {
                    effect = StateDelta::Death(CauseOfDeath::Shields);
                }
                return Delta { pos, effect, hit };
            }
            match dice {
                1 => effect = StateDelta::Shield,
                2 => {},
                3 => pos = PositionDelta::ToZero,
                4 => effect = StateDelta::Jumping,
                5 => effect = StateDelta::Stuck,
                _ => effect = StateDelta::Death(CauseOfDeath::Ceres),
            }
        }

        Delta { pos, effect, hit }
    }

    /// Update the state with the throw `dice`, by the game rules:
    /// 1. If the player is teleporting, move the player to the position shown by
    ///    the die.
    /// 2. Else, if the die shows one more than the position, move the player
    ///    forward, unless the player is stuck.
    /// 3. If the player is stuck and the die shows 5, the player is freed.
    /// 4. If the throw repeats the previous one, an asteroid strikes. Without
    ///    shields the player dies. Otherwise, by the die:
    ///    1. the player loses the shields;
    ///    2. nothing happens;
    ///    3. the player is moved to position 0;
    ///    4. the next throw teleports the player;
    ///    5. the player gets stuck;
    ///    6. the player dies at once.
    ///
    /// A strike on a shielded player clears the previous throw, so that the next
    /// throw cannot repeat it. Once the player is dead, a throw changes nothing
    /// and reports no change.
    ///
    /// Returns the changes to the position and to the player, or, for a number
    /// that a die does not show, [`GameError::InvalidInput`] with the state left
    /// as it is.
    pub fn update(&mut self, dice: u8) -> (r: Result<(PositionDelta, StateDelta), GameError>)
        ensures
            valid_roll(dice) ==> r == Ok::<_, GameError>(changes(*old(self), dice)),
            valid_roll(dice) ==> *final(self) == next(*old(self), dice),
            !valid_roll(dice) ==> r == Err::<(PositionDelta, StateDelta), _>(
                GameError::InvalidInput,
            ),
            !valid_roll(dice) ==> *final(self) == *old(self),
            well_formed(*old(self)) ==> well_formed(*final(self)),
    {
        if dice < 1 || dice > 6 {
            return Err(GameError::InvalidInput);
        }
        proof {
            if well_formed(*old(self)) {
                lemma_update_keeps_well_formed(*old(self), dice);
            }
        }
        if self.dead {
            return Ok((PositionDelta::Nothing, StateDelta::Nothing));
        }
        let changes = self.get_changes(dice);

        self.history = if changes.hit && self.shield { 0 } else { dice };
        self.jumping = false;
        if dice == 5 {
            self.stuck = false;
        }

        match changes.pos {
            PositionDelta::Forward(x) => self.position = x,
            PositionDelta::Jump(x) => self.position = x,
            PositionDelta::ToZero => self.position = 0,
            PositionDelta::Stuck(_) => {},
            PositionDelta::Nothing => {},
        }

        match changes.effect {
            StateDelta::Nothing => {},
            StateDelta::Shield => self.shield = false,
            StateDelta::ToZero => {},
            StateDelta::Jumping => self.jumping = true,
            StateDelta::Stuck => self.stuck = true,
            StateDelta::Unstuck => {},
            StateDelta::Death(cause) => {
                self.dead = true;
                self.cause_of_death = Some(cause);
            },
        }

        Ok((changes.pos, changes.effect))
    }

    /// Returns `Some(true)` if the player won, and `Some(false)` if the player
    /// died. Returns `None` while the game is still running.
    pub fn victory(&self) -> (r: Option<bool>)
        ensures
            r == outcome(*self),
            r is None <==> !self.dead && self.position != 6,
            r == Some(true) <==> !self.dead && self.position == 6,
            r == Some(false) <==> self.dead,
    {
        if self.dead {
            Some(false)
        } else if self.position == 6 {
            Some(true)
        } else {
            None
        }
    }
}

} // verus!
