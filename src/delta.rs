use vstd::prelude::*;

verus! {

/// Various causes of death.
#[derive(Debug, Clone, Copy, PartialEq, Eq, Structural)]
pub enum CauseOfDeath {
    /// The player got hit by an asteroid without having shields.
    Shields,
    /// The player got hit by Ceres (that is, threw 6 twice).
    Ceres,
    /// The player got hit by Ceres without having shields.
    Both,
}

/// Changes to the position of the player.
#[derive(Debug, Clone, Copy, PartialEq, Eq, Structural)]
pub enum PositionDelta {
    /// Nothing happened.
    Nothing,
    /// The player moved forward to the given position, in [1, 6].
    Forward(u8),
    /// An asteroid moved the player back to position 0.
    ToZero,
    /// The player teleported to the given position, in [1, 6].
    Jump(u8),
    /// The player would have moved to the given position, in [1, 6], but is stuck.
    Stuck(u8),
}

/// Changes to the state of the player.
#[derive(Debug, Clone, Copy, PartialEq, Eq, Structural)]
pub enum StateDelta {
    /// Nothing happened.
    Nothing,
    /// The player lost the shields.
    Shield,
    /// Kept for callers that match on every kind of change: [`State::update`]
    /// reports a move back to position 0 as [`PositionDelta::ToZero`] and never
    /// returns this variant.
    ///
    /// [`State::update`]: crate::State::update
    ToZero,
    /// The next throw will be a teleport.
    Jumping,
    /// The player is stuck.
    Stuck,
    /// The player is no longer stuck.
    Unstuck,
    /// The player was killed.
    Death(CauseOfDeath),
}

} // verus!
