//! Single-player campaign progression over the 25 levels.
use vstd::prelude::*;
use crate::text::{push_decimal_pad2, decimal_pad2};

verus! {

pub const TOTAL_LEVELS: u32 = 25;

#[derive(Debug, Clone, Copy, PartialEq, Eq, Structural)]
pub enum CampaignEvent {
    /// Nothing to report.
    NoEvent,
    Victory(u32),
    Defeat(u32),
}

#[derive(Debug, Clone, Copy)]
pub struct CampaignState {
    pub current_level: u32,
    pub completed_levels: [bool; 25],
    pub campaign_complete: bool,
    /// Whether the current victory/defeat has been reported (no repeated events).
    pub outcome_acknowledged: bool,
}

/// One outcome check: given whether the outcome was already reported, the
/// level, and the won/lost flags, the event reported and whether the outcome
/// counts as reported afterwards.
pub open spec fn progress_step(acknowledged: bool, level: u32, has_won: bool, has_lost: bool) -> (
    CampaignEvent,
    bool,
) {
    if acknowledged {
        (CampaignEvent::NoEvent, true)
    } else if has_won {
        (CampaignEvent::Victory(level), true)
    } else if has_lost {
        (CampaignEvent::Defeat(level), true)
    } else {
        (CampaignEvent::NoEvent, false)
    }
}

/// Abstract campaign state: the current level, which levels are completed,
/// whether the campaign is complete, and whether the current outcome has been reported.
pub struct CampaignView {
    pub current_level: u32,
    pub completed_levels: Seq<bool>,
    pub campaign_complete: bool,
    pub acknowledged: bool,
}

impl View for CampaignState {
    type V = CampaignView;

    open spec fn view(&self) -> CampaignView {
        CampaignView {
            current_level: self.current_level,
            completed_levels: self.completed_levels@,
            campaign_complete: self.campaign_complete,
            acknowledged: self.outcome_acknowledged,
        }
    }
}

impl CampaignState {

    /// Level 1, nothing completed, no outcome reported.
    pub fn new() -> (s: Self)
        ensures
            s@.current_level == 1,
            s@.completed_levels == Seq::new(25, |i: int| false),
            !s@.campaign_complete,
            !s@.acknowledged,
    {
        CampaignState {
            current_level: 1,
            completed_levels: [false; 25],
            campaign_complete: false,
            outcome_acknowledged: false,
        }
    }

    /// Report the level outcome once: a victory (checked first) or defeat of the
    /// current level, then nothing until the level is advanced, retried or set.
    pub fn check_progress(&mut self, has_won: bool, has_lost: bool) -> (e: CampaignEvent)
        ensures
            (e, final(self)@.acknowledged) == progress_step(
                old(self)@.acknowledged,
                old(self)@.current_level,
                has_won,
                has_lost,
            ),
            final(self)@.current_level == old(self)@.current_level,
            final(self)@.completed_levels == old(self)@.completed_levels,
            final(self)@.campaign_complete == old(self)@.campaign_complete,
    {
        if self.outcome_acknowledged {
            return CampaignEvent::NoEvent;
        }
        if has_won {
            self.outcome_acknowledged = true;
            CampaignEvent::Victory(self.current_level)
        } else if has_lost {
            self.outcome_acknowledged = true;
            CampaignEvent::Defeat(self.current_level)
        } else {
            CampaignEvent::NoEvent
        }
    }

    /// Mark the current level completed and move to the next one; after the
    /// last level the level stays and the campaign is complete.
    pub fn advance_level(&mut self)
        requires
            old(self)@.current_level >= 1,
        ensures
            old(self)@.current_level <= TOTAL_LEVELS ==> final(self)@.completed_levels
                == old(self)@.completed_levels.update(old(self)@.current_level - 1, true),
            old(self)@.current_level > TOTAL_LEVELS ==> final(self)@.completed_levels
                == old(self)@.completed_levels,
            old(self)@.current_level < TOTAL_LEVELS ==> final(self)@.current_level == old(self)@.current_level + 1
                && final(self)@.campaign_complete == old(self)@.campaign_complete,
            old(self)@.current_level >= TOTAL_LEVELS ==> final(self)@.current_level == old(self)@.current_level
                && final(self)@.campaign_complete,
            !final(self)@.acknowledged,
    {
        let idx = (self.current_level - 1) as usize;
        if idx < 25 {
            self.completed_levels[idx] = true;
        }
        if self.current_level < TOTAL_LEVELS {
            self.current_level = self.current_level + 1;
        } else {
            self.campaign_complete = true;
        }
        self.outcome_acknowledged = false;
    }

    /// Retry the current level: the outcome may be reported again.
    pub fn retry_level(&mut self)
        ensures
            final(self)@.current_level == old(self)@.current_level,
            final(self)@.completed_levels == old(self)@.completed_levels,
            final(self)@.campaign_complete == old(self)@.campaign_complete,
            !final(self)@.acknowledged,
    {
        self.outcome_acknowledged = false;
    }

    /// Whether level `level` (1-based) is completed; levels beyond 25 never are.
    pub fn is_level_completed(&self, level: u32) -> (r: bool)
        requires
            level >= 1,
        ensures
            r == (level <= TOTAL_LEVELS && self@.completed_levels[level - 1]),
    {
        let idx = (level - 1) as usize;
        if idx < 25 {
            self.completed_levels[idx]
        } else {
            false
        }
    }

    pub fn total_levels(&self) -> (r: u32)
        ensures
            r == TOTAL_LEVELS,
    {
        TOTAL_LEVELS
    }

    /// Select a level (level select or loaded game), clamped to 1..=25.
    pub fn set_level(&mut self, level: u32)
        ensures
            final(self)@.current_level == (if level < 1 { 1 } else if level > TOTAL_LEVELS {
                TOTAL_LEVELS
            } else {
                level
            }),
            final(self)@.completed_levels == old(self)@.completed_levels,
            final(self)@.campaign_complete == old(self)@.campaign_complete,
            !final(self)@.acknowledged,
    {
        self.current_level = if level < 1 {
            1
        } else if level > TOTAL_LEVELS {
            TOTAL_LEVELS
        } else {
            level
        };
        self.outcome_acknowledged = false;
    }

    /// Level data file of the current level: `levl20XX.dat`, with the level
    /// number zero-padded to two digits.
    pub fn level_filename(&self) -> (name: String)
        ensures
            name@ == "levl20"@ + decimal_pad2(self@.current_level as nat) + ".dat"@,
    {
        let mut name = String::from_str("levl20");
        push_decimal_pad2(&mut name, self.current_level as u64);
        name.append(".dat");
        name
    }
}

/// An outcome is reported at most once: once a check has reported a victory
/// or a defeat, every later check (before the level is advanced, retried or
/// set) reports nothing, whatever the flags say.
pub proof fn lemma_outcome_reported_once(
    acknowledged: bool,
    level: u32,
    won1: bool,
    lost1: bool,
    won2: bool,
    lost2: bool,
)
    requires
        progress_step(acknowledged, level, won1, lost1).0 != CampaignEvent::NoEvent,
    ensures
        progress_step(progress_step(acknowledged, level, won1, lost1).1, level, won2, lost2).0
            == CampaignEvent::NoEvent,
{
}

/// An outcome not yet reported is reported on the level it happened on, a
/// victory before a defeat when both flags are set; with neither flag set
/// nothing is reported and the outcome stays open.
pub proof fn lemma_outcome_precedence(level: u32, won: bool, lost: bool)
    ensures
        won ==> progress_step(false, level, won, lost) == (CampaignEvent::Victory(level), true),
        !won && lost ==> progress_step(false, level, won, lost) == (CampaignEvent::Defeat(level), true),
        !won && !lost ==> progress_step(false, level, won, lost) == (CampaignEvent::NoEvent, false),
{
}

} // verus!
