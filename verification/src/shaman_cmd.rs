//! Fixed-size queue of AI shaman commands.
use vstd::prelude::*;

verus! {

pub const MAX_SHAMAN_COMMANDS: usize = 10;
pub const SHAMAN_COMMAND_SIZE: usize = 0x52;

#[derive(Debug, Clone, Copy, PartialEq, Eq, Structural)]
pub enum ShamanCommandType {
    PrimaryAttack,
    SecondaryAttack,
    DefendPosition,
    SpellCasting,
    ArmyMovement,
    BuildingPlacement,
    ResourceGathering,
    Conversion,
}

/// The command type a raw byte denotes, if any.
pub open spec fn command_type_of(v: u8) -> Option<ShamanCommandType> {
    if v == 0 {
        Some(ShamanCommandType::PrimaryAttack)
    } else if v == 1 {
        Some(ShamanCommandType::SecondaryAttack)
    } else if v == 2 {
        Some(ShamanCommandType::DefendPosition)
    } else if v == 3 {
        Some(ShamanCommandType::SpellCasting)
    } else if v == 4 {
        Some(ShamanCommandType::ArmyMovement)
    } else if v == 5 {
        Some(ShamanCommandType::BuildingPlacement)
    } else if v == 6 {
        Some(ShamanCommandType::ResourceGathering)
    } else if v == 7 {
        Some(ShamanCommandType::Conversion)
    } else {
        None
    }
}

impl ShamanCommandType {
    /// Decode a raw command-type byte; bytes above 7 denote no type.
    pub fn from_raw(v: u8) -> (r: Option<Self>)
        ensures
            r == command_type_of(v),
            r is Some <==> v <= 7,
    {
        match v {
            0 => Some(ShamanCommandType::PrimaryAttack),
            1 => Some(ShamanCommandType::SecondaryAttack),
            2 => Some(ShamanCommandType::DefendPosition),
            3 => Some(ShamanCommandType::SpellCasting),
            4 => Some(ShamanCommandType::ArmyMovement),
            5 => Some(ShamanCommandType::BuildingPlacement),
            6 => Some(ShamanCommandType::ResourceGathering),
            7 => Some(ShamanCommandType::Conversion),
            _ => None,
        }
    }
}

/// The command-type bytes number the types in order from 0: primary attack 0,
/// secondary attack 1, defend position 2, spell casting 3, army movement 4,
/// building placement 5, resource gathering 6 and conversion 7; bytes above 7
/// denote no type.
pub proof fn lemma_command_type_codes(v: u8)
    ensures
        command_type_of(0) == Some(ShamanCommandType::PrimaryAttack),
        command_type_of(1) == Some(ShamanCommandType::SecondaryAttack),
        command_type_of(2) == Some(ShamanCommandType::DefendPosition),
        command_type_of(3) == Some(ShamanCommandType::SpellCasting),
        command_type_of(4) == Some(ShamanCommandType::ArmyMovement),
        command_type_of(5) == Some(ShamanCommandType::BuildingPlacement),
        command_type_of(6) == Some(ShamanCommandType::ResourceGathering),
        command_type_of(7) == Some(ShamanCommandType::Conversion),
        command_type_of(v) is None <==> v > 7,
{
}

#[derive(Debug, Clone, Copy)]
pub struct ShamanCommand {
    pub active: bool,
    pub cmd_type: ShamanCommandType,
    pub target_x: u16,
    pub target_y: u16,
    pub target_id: u16,
    pub state: u16,
}

/// The inactive, zeroed command.
pub open spec fn empty_command() -> ShamanCommand {
    ShamanCommand {
        active: false,
        cmd_type: ShamanCommandType::PrimaryAttack,
        target_x: 0,
        target_y: 0,
        target_id: 0,
        state: 0,
    }
}

impl ShamanCommand {
    /// An inactive, zeroed command.
    pub fn empty() -> (c: Self)
        ensures
            c == empty_command(),
    {
        ShamanCommand {
            active: false,
            cmd_type: ShamanCommandType::PrimaryAttack,
            target_x: 0,
            target_y: 0,
            target_id: 0,
            state: 0,
        }
    }
}

/// Number of active commands in a run of slots.
pub open spec fn count_active(s: Seq<ShamanCommand>) -> nat
    decreases s.len(),
{
    if s.len() == 0 {
        0
    } else {
        count_active(s.drop_last()) + if s.last().active { 1nat } else { 0nat }
    }
}

/// Whether slot `i` is the first inactive slot.
pub open spec fn is_first_free(s: Seq<ShamanCommand>, i: int) -> bool {
    &&& 0 <= i < s.len()
    &&& !s[i].active
    &&& forall|j: int| 0 <= j < i ==> #[trigger] s[j].active
}

/// Whether some slot is inactive.
pub open spec fn has_free_slot(s: Seq<ShamanCommand>) -> bool {
    exists|i: int| 0 <= i < s.len() && !#[trigger] s[i].active
}

/// `cmd`, marked active.
pub open spec fn activated(cmd: ShamanCommand) -> ShamanCommand {
    ShamanCommand { active: true, ..cmd }
}

/// Changing one slot changes the active count by the change of that slot's flag.
pub proof fn lemma_count_active_update(s: Seq<ShamanCommand>, i: int, c: ShamanCommand)
    requires
        0 <= i < s.len(),
    ensures
        count_active(s.update(i, c)) + (if s[i].active { 1int } else { 0int })
            == count_active(s) + (if c.active { 1int } else { 0int }),
    decreases s.len(),
{
    if i == s.len() - 1 {
        assert(s.update(i, c).drop_last() =~= s.drop_last());
    } else {
        lemma_count_active_update(s.drop_last(), i, c);
        assert(s.update(i, c).drop_last() =~= s.drop_last().update(i, c));
    }
}

/// The active count never exceeds the number of slots.
pub proof fn lemma_count_active_bound(s: Seq<ShamanCommand>)
    ensures
        count_active(s) <= s.len(),
    decreases s.len(),
{
    if s.len() > 0 {
        lemma_count_active_bound(s.drop_last());
    }
}

/// A run with an active count below its length has an inactive slot.
pub proof fn lemma_count_below_len_has_free(s: Seq<ShamanCommand>)
    requires
        count_active(s) < s.len(),
    ensures
        has_free_slot(s),
    decreases s.len(),
{
    if !s.last().active {
        assert(!s[s.len() - 1].active);
    } else {
        lemma_count_below_len_has_free(s.drop_last());
        let i = choose|i: int| 0 <= i < s.drop_last().len() && !#[trigger] s.drop_last()[i].active;
        assert(!s[i].active);
    }
}

/// With no inactive slot, every slot counts.
pub proof fn lemma_full_count(s: Seq<ShamanCommand>)
    requires
        !has_free_slot(s),
    ensures
        count_active(s) == s.len(),
{
    lemma_count_active_bound(s);
    if count_active(s) < s.len() {
        lemma_count_below_len_has_free(s);
    }
}

pub struct ShamanCommandQueue {
    pub slots: [ShamanCommand; 10],
}

impl ShamanCommandQueue {
    /// A queue of ten inactive, zeroed slots.
    pub fn new() -> (q: Self)
        ensures
            q.slots@.len() == MAX_SHAMAN_COMMANDS,
            forall|i: int| 0 <= i < 10 ==> #[trigger] q.slots@[i] == empty_command(),
            count_active(q.slots@) == 0,
    {
        let e = ShamanCommand::empty();
        let q = ShamanCommandQueue { slots: [e, e, e, e, e, e, e, e, e, e] };
        proof {
            let s = q.slots@;
            assert(s.take(0) =~= Seq::<ShamanCommand>::empty());
            assert forall|k: int| 0 <= k <= 10 implies count_active(#[trigger] s.take(k)) == 0 by {
                lemma_count_prefix_zero(s, k);
            }
            assert(s.take(10) =~= s);
        }
        q
    }

    /// Place `cmd`, marked active, in the first inactive slot; `false` (and no
    /// change) when all ten slots are active.
    pub fn push_command(&mut self, cmd: ShamanCommand) -> (r: bool)
        ensures
            r == has_free_slot(old(self).slots@),
            r ==> exists|i: int| is_first_free(old(self).slots@, i)
                && final(self).slots@ == old(self).slots@.update(i, activated(cmd)),
            !r ==> final(self).slots@ == old(self).slots@,
            count_active(final(self).slots@) == count_active(old(self).slots@) + (if r { 1int } else { 0int }),
    {
        let mut i: usize = 0;
        while i < MAX_SHAMAN_COMMANDS
            invariant
                0 <= i <= 10,
                self.slots@ == old(self).slots@,
                forall|j: int| 0 <= j < i ==> #[trigger] self.slots@[j].active,
            decreases 10 - i,
        {
            if !self.slots[i].active {
                let mut c = cmd;
                c.active = true;
                proof {
                    lemma_count_active_update(self.slots@, i as int, c);
                }
                self.slots[i] = c;
                assert(is_first_free(old(self).slots@, i as int));
                return true;
            }
            i = i + 1;
        }
        proof {
            lemma_full_count(self.slots@);
        }
        false
    }

    /// Mark slot `index` inactive; out-of-range indices change nothing.
    pub fn clear_command(&mut self, index: usize)
        ensures
            index < MAX_SHAMAN_COMMANDS ==> final(self).slots@ == old(self).slots@.update(
                index as int,
                ShamanCommand { active: false, ..old(self).slots@[index as int] },
            ),
            index >= MAX_SHAMAN_COMMANDS ==> final(self).slots@ == old(self).slots@,
            count_active(final(self).slots@) == count_active(old(self).slots@) - (if index
                < MAX_SHAMAN_COMMANDS && old(self).slots@[index as int].active { 1int } else { 0int }),
    {
        if index < MAX_SHAMAN_COMMANDS {
            let mut c = self.slots[index];
            c.active = false;
            proof {
                lemma_count_active_update(self.slots@, index as int, c);
            }
            self.slots[index] = c;
        }
    }

    /// Number of active slots.
    pub fn active_count(&self) -> (r: usize)
        ensures
            r == count_active(self.slots@),
            r <= MAX_SHAMAN_COMMANDS,
    {
        let mut n: usize = 0;
        let mut i: usize = 0;
        assert(self.slots@.take(0) =~= Seq::<ShamanCommand>::empty());
        while i < MAX_SHAMAN_COMMANDS
            invariant
                0 <= i <= 10,
                n == count_active(self.slots@.take(i as int)),
                n <= i,
            decreases 10 - i,
        {
            assert(self.slots@.take(i + 1).drop_last() =~= self.slots@.take(i as int));
            if self.slots[i].active {
                n = n + 1;
            }
            i = i + 1;
        }
        assert(self.slots@.take(10) =~= self.slots@);
        n
    }
}

/// Every prefix of a run of inactive slots counts zero.
proof fn lemma_count_prefix_zero(s: Seq<ShamanCommand>, k: int)
    requires
        0 <= k <= s.len(),
        forall|i: int| 0 <= i < s.len() ==> !(#[trigger] s[i]).active,
    ensures
        count_active(s.take(k)) == 0,
    decreases k,
{
    if k > 0 {
        lemma_count_prefix_zero(s, k - 1);
        assert(s.take(k).drop_last() =~= s.take(k - 1));
    }
}

} // verus!
