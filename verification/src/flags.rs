//! Typed view of the global game-flags word.
use vstd::prelude::*;

verus! {

/// The game is paused.
pub const FLAG_PAUSED: u32 = 0x0000_0010;
/// A network (multiplayer) game is running.
pub const FLAG_MULTIPLAYER: u32 = 0x0000_0002;
/// Waiting for network peers.
pub const FLAG_NET_WAITING: u32 = 0x0000_0004;
/// Paused by a network peer.
pub const FLAG_NET_PAUSED: u32 = 0x0000_0008;
/// The player has won the level.
pub const FLAG_PLAYER_WON: u32 = 0x0200_0000;
/// The player has lost the level.
pub const FLAG_PLAYER_LOST: u32 = 0x0400_0000;
/// Either outcome bit: a victory or defeat state is active.
pub const FLAG_VICTORY_DEFEAT: u32 = 0x0600_0000;
/// Mask that clears both outcome bits.
pub const FLAG_CLEAR_VICTORY_DEFEAT: u32 = 0xF9FF_FFFF;

/// Typed wrapper for the game flags bitfield; each query reads one documented bit.
#[derive(Debug, Clone, Copy, PartialEq, Eq, Structural)]
pub struct GameFlags(u32);

/// Whether any bit of `mask` is set in `raw`.
pub open spec fn has_bits(raw: u32, mask: u32) -> bool {
    raw & mask != 0
}

impl View for GameFlags {
    type V = u32;

    closed spec fn view(&self) -> u32 {
        self.0
    }
}

impl GameFlags {
    /// All flags cleared.
    pub fn new() -> (f: Self)
        ensures
            f@ == 0,
    {
        GameFlags(0)
    }

    /// Wrap a raw flags word.
    pub fn from_raw(v: u32) -> (f: Self)
        ensures
            f@ == v,
    {
        GameFlags(v)
    }

    /// The raw flags word.
    pub fn raw(&self) -> (r: u32)
        ensures
            r == self@,
    {
        self.0
    }

    pub fn is_paused(&self) -> (r: bool)
        ensures
            r == has_bits(self@, FLAG_PAUSED),
    {
        self.0 & FLAG_PAUSED != 0
    }

    pub fn is_multiplayer(&self) -> (r: bool)
        ensures
            r == has_bits(self@, FLAG_MULTIPLAYER),
    {
        self.0 & FLAG_MULTIPLAYER != 0
    }

    pub fn is_net_waiting(&self) -> (r: bool)
        ensures
            r == has_bits(self@, FLAG_NET_WAITING),
    {
        self.0 & FLAG_NET_WAITING != 0
    }

    pub fn is_net_paused(&self) -> (r: bool)
        ensures
            r == has_bits(self@, FLAG_NET_PAUSED),
    {
        self.0 & FLAG_NET_PAUSED != 0
    }

    /// Victory or defeat state is active (AI updates are skipped then).
    pub fn is_victory_defeat(&self) -> (r: bool)
        ensures
            r == has_bits(self@, FLAG_VICTORY_DEFEAT),
    {
        self.0 & FLAG_VICTORY_DEFEAT != 0
    }

    pub fn has_won(&self) -> (r: bool)
        ensures
            r == has_bits(self@, FLAG_PLAYER_WON),
    {
        self.0 & FLAG_PLAYER_WON != 0
    }

    pub fn has_lost(&self) -> (r: bool)
        ensures
            r == has_bits(self@, FLAG_PLAYER_LOST),
    {
        self.0 & FLAG_PLAYER_LOST != 0
    }

    /// Set or clear the paused bit; every other bit is kept.
    pub fn set_paused(&mut self, v: bool)
        ensures
            final(self)@ == (if v { old(self)@ | FLAG_PAUSED } else { old(self)@ & !FLAG_PAUSED }),
            has_bits(final(self)@, FLAG_PAUSED) == v,
            final(self)@ & !FLAG_PAUSED == old(self)@ & !FLAG_PAUSED,
    {
        let old_raw = self.0;
        if v {
            self.0 = self.0 | FLAG_PAUSED;
        } else {
            self.0 = self.0 & !FLAG_PAUSED;
        }
        proof {
            let n = self.0;
            assert(v ==> n == old_raw | 0x10u32);
            assert(!v ==> n == old_raw & !0x10u32);
            assert((old_raw | 0x10u32) & 0x10u32 != 0) by (bit_vector);
            assert((old_raw & !0x10u32) & 0x10u32 == 0) by (bit_vector);
            assert((old_raw | 0x10u32) & !0x10u32 == old_raw & !0x10u32) by (bit_vector);
            assert((old_raw & !0x10u32) & !0x10u32 == old_raw & !0x10u32) by (bit_vector);
        }
    }

    /// Set or clear the multiplayer bit; every other bit is kept.
    pub fn set_multiplayer(&mut self, v: bool)
        ensures
            final(self)@ == (if v { old(self)@ | FLAG_MULTIPLAYER } else { old(self)@ & !FLAG_MULTIPLAYER }),
            has_bits(final(self)@, FLAG_MULTIPLAYER) == v,
            final(self)@ & !FLAG_MULTIPLAYER == old(self)@ & !FLAG_MULTIPLAYER,
    {
        let old_raw = self.0;
        if v {
            self.0 = self.0 | FLAG_MULTIPLAYER;
        } else {
            self.0 = self.0 & !FLAG_MULTIPLAYER;
        }
        proof {
            assert((old_raw | 2u32) & 2u32 != 0) by (bit_vector);
            assert((old_raw & !2u32) & 2u32 == 0) by (bit_vector);
            assert((old_raw | 2u32) & !2u32 == old_raw & !2u32) by (bit_vector);
            assert((old_raw & !2u32) & !2u32 == old_raw & !2u32) by (bit_vector);
        }
    }

    /// Record a win: both outcome bits are cleared, then the won bit is set.
    pub fn set_won(&mut self)
        ensures
            final(self)@ == (old(self)@ & FLAG_CLEAR_VICTORY_DEFEAT) | FLAG_PLAYER_WON,
            has_bits(final(self)@, FLAG_PLAYER_WON),
            !has_bits(final(self)@, FLAG_PLAYER_LOST),
            has_bits(final(self)@, FLAG_VICTORY_DEFEAT),
            final(self)@ & FLAG_CLEAR_VICTORY_DEFEAT == old(self)@ & FLAG_CLEAR_VICTORY_DEFEAT,
    {
        let old_raw = self.0;
        self.0 = self.0 & FLAG_CLEAR_VICTORY_DEFEAT;
        self.0 = self.0 | FLAG_PLAYER_WON;
        proof {
            let n = (old_raw & 0xF9FF_FFFFu32) | 0x0200_0000u32;
            assert(n & 0x0200_0000u32 != 0) by (bit_vector)
                requires n == (old_raw & 0xF9FF_FFFFu32) | 0x0200_0000u32;
            assert(n & 0x0400_0000u32 == 0) by (bit_vector)
                requires n == (old_raw & 0xF9FF_FFFFu32) | 0x0200_0000u32;
            assert(n & 0x0600_0000u32 != 0) by (bit_vector)
                requires n == (old_raw & 0xF9FF_FFFFu32) | 0x0200_0000u32;
            assert(n & 0xF9FF_FFFFu32 == old_raw & 0xF9FF_FFFFu32) by (bit_vector)
                requires n == (old_raw & 0xF9FF_FFFFu32) | 0x0200_0000u32;
        }
    }

    /// Record a loss: both outcome bits are cleared, then the lost bit is set.
    pub fn set_lost(&mut self)
        ensures
            final(self)@ == (old(self)@ & FLAG_CLEAR_VICTORY_DEFEAT) | FLAG_PLAYER_LOST,
            has_bits(final(self)@, FLAG_PLAYER_LOST),
            !has_bits(final(self)@, FLAG_PLAYER_WON),
            has_bits(final(self)@, FLAG_VICTORY_DEFEAT),
            final(self)@ & FLAG_CLEAR_VICTORY_DEFEAT == old(self)@ & FLAG_CLEAR_VICTORY_DEFEAT,
    {
        let old_raw = self.0;
        self.0 = self.0 & FLAG_CLEAR_VICTORY_DEFEAT;
        self.0 = self.0 | FLAG_PLAYER_LOST;
        proof {
            let n = (old_raw & 0xF9FF_FFFFu32) | 0x0400_0000u32;
            assert(n & 0x0400_0000u32 != 0) by (bit_vector)
                requires n == (old_raw & 0xF9FF_FFFFu32) | 0x0400_0000u32;
            assert(n & 0x0200_0000u32 == 0) by (bit_vector)
                requires n == (old_raw & 0xF9FF_FFFFu32) | 0x0400_0000u32;
            assert(n & 0x0600_0000u32 != 0) by (bit_vector)
                requires n == (old_raw & 0xF9FF_FFFFu32) | 0x0400_0000u32;
            assert(n & 0xF9FF_FFFFu32 == old_raw & 0xF9FF_FFFFu32) by (bit_vector)
                requires n == (old_raw & 0xF9FF_FFFFu32) | 0x0400_0000u32;
        }
    }

    /// Clear both the won and the lost bit; every other bit is kept.
    pub fn clear_victory_defeat(&mut self)
        ensures
            final(self)@ == old(self)@ & FLAG_CLEAR_VICTORY_DEFEAT,
            !has_bits(final(self)@, FLAG_VICTORY_DEFEAT),
            !has_bits(final(self)@, FLAG_PLAYER_WON),
            !has_bits(final(self)@, FLAG_PLAYER_LOST),
    {
        let old_raw = self.0;
        self.0 = self.0 & FLAG_CLEAR_VICTORY_DEFEAT;
        proof {
            let n = old_raw & 0xF9FF_FFFFu32;
            assert(n & 0x0600_0000u32 == 0) by (bit_vector)
                requires n == old_raw & 0xF9FF_FFFFu32;
            assert(n & 0x0200_0000u32 == 0) by (bit_vector)
                requires n == old_raw & 0xF9FF_FFFFu32;
            assert(n & 0x0400_0000u32 == 0) by (bit_vector)
                requires n == old_raw & 0xF9FF_FFFFu32;
        }
    }
}

/// The outcome bits are disjoint from the other flags: a win or loss never
/// disturbs the pause, multiplayer or network bits.
pub proof fn lemma_outcome_keeps_other_flags(raw: u32)
    ensures
        has_bits((raw & FLAG_CLEAR_VICTORY_DEFEAT) | FLAG_PLAYER_WON, FLAG_PAUSED) == has_bits(raw, FLAG_PAUSED),
        has_bits((raw & FLAG_CLEAR_VICTORY_DEFEAT) | FLAG_PLAYER_LOST, FLAG_PAUSED) == has_bits(raw, FLAG_PAUSED),
        has_bits((raw & FLAG_CLEAR_VICTORY_DEFEAT) | FLAG_PLAYER_WON, FLAG_MULTIPLAYER) == has_bits(raw, FLAG_MULTIPLAYER),
        has_bits((raw & FLAG_CLEAR_VICTORY_DEFEAT) | FLAG_PLAYER_LOST, FLAG_MULTIPLAYER) == has_bits(raw, FLAG_MULTIPLAYER),
{
    assert(((raw & 0xF9FF_FFFFu32) | 0x0200_0000u32) & 0x10u32 != 0 <==> raw & 0x10u32 != 0) by (bit_vector);
    assert(((raw & 0xF9FF_FFFFu32) | 0x0400_0000u32) & 0x10u32 != 0 <==> raw & 0x10u32 != 0) by (bit_vector);
    assert(((raw & 0xF9FF_FFFFu32) | 0x0200_0000u32) & 2u32 != 0 <==> raw & 2u32 != 0) by (bit_vector);
    assert(((raw & 0xF9FF_FFFFu32) | 0x0400_0000u32) & 2u32 != 0 <==> raw & 2u32 != 0) by (bit_vector);
}

} // verus!
