//! Who plays: two people, or a person against the external engine.
use vstd::prelude::*;

verus! {

#[derive(Clone, Copy, PartialEq, Eq, Debug, Structural)]
pub enum GameMode {
    PlayerVsPlayer,
    PlayerVsAI,
}

impl Default for GameMode {
    fn default() -> (r: GameMode)
        ensures
            r == GameMode::PlayerVsPlayer,
    {
        GameMode::PlayerVsPlayer
    }
}

impl GameMode {
    /// The caption of the mode's button.
    pub fn label(&self) -> (r: &'static str)
        ensures
            *self == GameMode::PlayerVsPlayer ==> r@ == seq!['玩', '家'],
            *self == GameMode::PlayerVsAI ==> r@ == seq!['A', 'I'],
    {
        match self {
            GameMode::PlayerVsPlayer => {
                proof {
                    reveal_strlit("玩家");
                }
                "玩家"
            },
            GameMode::PlayerVsAI => {
                proof {
                    reveal_strlit("AI");
                }
                "AI"
            },
        }
    }

    /// The other mode.
    pub fn toggle(&self) -> (r: GameMode)
        ensures
            r != *self,
    {
        match self {
            GameMode::PlayerVsPlayer => GameMode::PlayerVsAI,
            GameMode::PlayerVsAI => GameMode::PlayerVsPlayer,
        }
    }
}

} // verus!
