//! Top-level game lifecycle state: Frontend -> Loading -> InGame -> (Outro or Frontend),
//! with Multiplayer entered from the frontend.
use vstd::prelude::*;

verus! {

#[derive(Debug, Clone, Copy, PartialEq, Eq, Structural)]
pub enum GameState {
    /// Main menu / frontend.
    Frontend,
    /// Level loading sequence.
    Loading,
    /// Active gameplay.
    InGame,
    /// Victory/defeat outro sequence.
    Outro,
    /// Multiplayer lobby and session management.
    Multiplayer,
}

/// The raw byte stored for each state.
pub open spec fn state_code(s: GameState) -> u8 {
    match s {
        GameState::Frontend => 0,
        GameState::Loading => 1,
        GameState::InGame => 2,
        GameState::Outro => 3,
        GameState::Multiplayer => 4,
    }
}

/// The state a raw byte denotes, if any.
pub open spec fn state_of_code(v: u8) -> Option<GameState> {
    if v == 0 {
        Some(GameState::Frontend)
    } else if v == 1 {
        Some(GameState::Loading)
    } else if v == 2 {
        Some(GameState::InGame)
    } else if v == 3 {
        Some(GameState::Outro)
    } else if v == 4 {
        Some(GameState::Multiplayer)
    } else {
        None
    }
}

impl GameState {
    /// Decode a raw state byte; bytes above 4 denote no state.
    pub fn from_raw(v: u8) -> (r: Option<Self>)
        ensures
            r == state_of_code(v),
            r is Some <==> v <= 4,
    {
        match v {
            0 => Some(GameState::Frontend),
            1 => Some(GameState::Loading),
            2 => Some(GameState::InGame),
            3 => Some(GameState::Outro),
            4 => Some(GameState::Multiplayer),
            _ => None,
        }
    }

    /// Encode the state as its raw byte.
    pub fn to_raw(self) -> (r: u8)
        ensures
            r == state_code(self),
    {
        match self {
            GameState::Frontend => 0,
            GameState::Loading => 1,
            GameState::InGame => 2,
            GameState::Outro => 3,
            GameState::Multiplayer => 4,
        }
    }
}

/// Encoding then decoding a state gives it back, and decoding then encoding a
/// valid byte gives the byte back.
pub proof fn lemma_state_code_roundtrip(s: GameState, v: u8)
    ensures
        state_of_code(state_code(s)) == Some(s),
        state_of_code(v) is Some ==> state_code(state_of_code(v)->0) == v,
{
}

/// The state bytes number the states in order from 0: Frontend 0, Loading 1,
/// InGame 2, Outro 3 and Multiplayer 4; bytes above 4 denote no state.
pub proof fn lemma_state_codes(v: u8)
    ensures
        state_code(GameState::Frontend) == 0 && state_code(GameState::Loading) == 1,
        state_code(GameState::InGame) == 2 && state_code(GameState::Outro) == 3,
        state_code(GameState::Multiplayer) == 4,
        state_of_code(v) is None <==> v > 4,
{
}

} // verus!
