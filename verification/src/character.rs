//! The atomic combatant record: identity, name, hit points, initiative and
//! tie-break modifier, together with its mutation and validation rules.
//!
//! Every mutator is total and is specified exactly, for every starting state:
//! the contracts pin the new field values down as functions of the old ones.

use vstd::prelude::*;
use vstd::string::StringExecFns;

use crate::ids::{Uid, uuid_text};
use crate::messages::{FrontendMessage, FrontendMessageType};

verus! {

/// Hit-point bookkeeping for one character.
///
/// Well-formed records (see [`HitPoints::wf`]) keep `total >= 1`,
/// `0 <= current <= total` and `temporary >= 0`.
#[derive(Clone, Copy, Debug, PartialEq, Eq, Structural)]
pub struct HitPoints {
    pub current: i32,
    pub total: i32,
    pub temporary: i32,
}

impl HitPoints {
    /// The numeric invariants of a well-formed hit-point record.
    pub open spec fn wf(&self) -> bool {
        &&& self.total >= 1
        &&& 0 <= self.current <= self.total
        &&& self.temporary >= 0
    }
}

/// The `current` value after setting it to `value` against the given `total`:
/// raised to at least 0, then capped at `total`, in that order.
pub open spec fn clamped_current(total: int, value: int) -> int {
    vstd::math::min(vstd::math::max(value, 0), total)
}

/// The hit points after setting `current` to `value`.
pub open spec fn with_current(hp: HitPoints, value: int) -> HitPoints {
    HitPoints { current: clamped_current(hp.total as int, value) as i32, ..hp }
}

/// The hit points after setting `total` to `value`: the total is floored at
/// 1, and `current` is capped at the new total (lowering the total can lower
/// `current`; raising it never heals).
pub open spec fn with_total(hp: HitPoints, value: int) -> HitPoints {
    HitPoints {
        total: vstd::math::max(value, 1) as i32,
        current: vstd::math::min(hp.current as int, vstd::math::max(value, 1)) as i32,
        ..hp
    }
}

/// The hit points after setting `temporary` to `value`: floored at 0.
pub open spec fn with_temporary(hp: HitPoints, value: int) -> HitPoints {
    HitPoints { temporary: vstd::math::max(value, 0) as i32, ..hp }
}

/// The hit points after taking `value` damage: temporary hit points absorb
/// the damage first; whatever they cannot absorb spills onto `current`.
/// Negative damage behaves as healing once temporary hit points are gone.
/// A remainder beyond what an `i32` can hold saturates at `i32::MAX`.
pub open spec fn damaged(hp: HitPoints, value: int) -> HitPoints {
    if hp.temporary > 0 {
        let remaining = hp.temporary - value;
        if remaining > 0 {
            HitPoints { temporary: vstd::math::min(remaining, i32::MAX as int) as i32, ..hp }
        } else {
            with_current(
                HitPoints { temporary: 0, ..hp },
                hp.current - (value - hp.temporary),
            )
        }
    } else {
        with_current(hp, hp.current - value)
    }
}

/// One combatant: identity, display name, hit points, initiative and the
/// modifier that breaks initiative ties.
#[derive(Debug, PartialEq, Eq)]
pub struct Character {
    pub id: Uid,
    pub name: String,
    pub hp: HitPoints,
    pub initiative: i32,
    pub initiative_modifier: i32,
}

impl Clone for Character {
    fn clone(&self) -> (r: Self)
        ensures
            r == *self,
    {
        Character {
            id: self.id,
            name: self.name.clone(),
            hp: self.hp,
            initiative: self.initiative,
            initiative_modifier: self.initiative_modifier,
        }
    }
}

impl Character {
    /// The character is well-formed: hit points in range, initiative and
    /// modifier floored at -20.
    pub open spec fn wf(&self) -> bool {
        &&& self.hp.wf()
        &&& self.initiative >= -20
        &&& self.initiative_modifier >= -20
    }

    /// A new combatant with a fresh identity: current hit points start at
    /// the given total, with no temporary hit points and a zero modifier.
    pub fn new(name: String, total_hp: i32, initiative: i32) -> (r: Character)
        ensures
            r.name == name,
            r.hp == (HitPoints { current: total_hp, total: total_hp, temporary: 0 }),
            r.initiative == initiative,
            r.initiative_modifier == 0,
            total_hp >= 1 && initiative >= -20 ==> r.wf(),
    {
        let hp = HitPoints { current: total_hp, total: total_hp, temporary: 0 };
        Character { id: Uid::fresh(), name, hp, initiative, initiative_modifier: 0 }
    }

    /// The identity in its hyphenated text form.
    pub fn id(&self) -> (r: String)
        ensures
            r@ == uuid_text(self.id.value),
            r@.len() == 36,
    {
        self.id.text()
    }

    /// The identity itself.
    pub fn uuid(&self) -> (r: Uid)
        ensures
            r == self.id,
    {
        self.id
    }

    /// Two characters are the same combatant exactly when their ids are equal;
    /// names never make two characters the same.
    pub fn is_same_as(&self, other: &Character) -> (r: bool)
        ensures
            r == (self.id == other.id),
    {
        self.id == other.id
    }

    /// Two characters are similar when they share a name, whether or not
    /// they are the same combatant.
    pub fn is_similar_to(&self, other: &Character) -> (r: bool)
        ensures
            r == (self.name@ == other.name@),
    {
        self.name == other.name
    }

    /// Replace the name; an empty name is rejected and leaves the character
    /// unchanged.
    pub fn set_name(&mut self, name: String) -> (r: Result<(), String>)
        ensures
            name@.len() == 0 ==> r is Err && *final(self) == *old(self)
                && r->Err_0@ == "Name cannot be empty"@,
            name@.len() > 0 ==> r is Ok && *final(self) == (Character { name, ..*old(self) }),
    {
        if name.as_str().is_empty() {
            return Err(String::from_str("Name cannot be empty"));
        }
        self.name = name;
        Ok(())
    }

    /// Raise `current` by `value` (negative values behave as damage), clamped
    /// into `[0, total]`.
    pub fn heal(&mut self, value: i32)
        ensures
            *final(self) == (Character {
                hp: with_current(old(self).hp, old(self).hp.current + value),
                ..*old(self)
            }),
    {
        let sum: i64 = self.hp.current as i64 + value as i64;
        self.clamp_current_into_range(sum);
    }

    /// Apply `value` damage: temporary hit points absorb it first, and the
    /// unabsorbed remainder spills onto `current`, clamped into `[0, total]`.
    pub fn damage(&mut self, value: i32)
        ensures
            *final(self) == (Character { hp: damaged(old(self).hp, value as int), ..*old(self) }),
    {
        if self.hp.temporary > 0 {
            let remaining: i64 = self.hp.temporary as i64 - value as i64;
            if remaining > 0 {
                self.hp.temporary = if remaining > i32::MAX as i64 {
                    i32::MAX
                } else {
                    remaining as i32
                };
            } else {
                let spill: i64 = value as i64 - self.hp.temporary as i64;
                self.hp.temporary = 0;
                self.clamp_current_into_range(self.hp.current as i64 - spill);
            }
        } else {
            self.clamp_current_into_range(self.hp.current as i64 - value as i64);
        }
    }

    /// Set the total, floored at 1; `current` is capped at the new total.
    /// The total never goes below 1 and `current` never increases.
    pub fn set_total_hp(&mut self, value: i32)
        ensures
            *final(self) == (Character { hp: with_total(old(self).hp, value as int), ..*old(self) }),
            final(self).hp.total >= 1,
            final(self).hp.current <= old(self).hp.current,
    {
        self.hp.total = if value < 1 { 1 } else { value };
        if self.hp.current > self.hp.total {
            self.hp.current = self.hp.total;
        }
    }

    /// Set `current`, clamped into `[0, total]`.
    pub fn set_current_hp(&mut self, value: i32)
        ensures
            *final(self) == (Character { hp: with_current(old(self).hp, value as int), ..*old(self) }),
    {
        self.clamp_current_into_range(value as i64);
    }

    /// Set the temporary hit points, floored at 0.
    pub fn set_temporary_hp(&mut self, value: i32)
        ensures
            *final(self) == (Character {
                hp: with_temporary(old(self).hp, value as int),
                ..*old(self)
            }),
    {
        self.hp.temporary = if value < 0 { 0 } else { value };
    }

    /// Set the initiative, floored at -20; there is no ceiling.
    pub fn set_initiative(&mut self, value: i32)
        ensures
            *final(self) == (Character {
                initiative: vstd::math::max(value as int, -20) as i32,
                ..*old(self)
            }),
    {
        self.initiative = if value < -20 { -20 } else { value };
    }

    /// Set the tie-break modifier, floored at -20; there is no ceiling.
    pub fn set_initiative_modifier(&mut self, value: i32)
        ensures
            *final(self) == (Character {
                initiative_modifier: vstd::math::max(value as int, -20) as i32,
                ..*old(self)
            }),
    {
        self.initiative_modifier = if value < -20 { -20 } else { value };
    }

    /// The character's validation messages: currently only a non-empty name
    /// is required, reported as an error keyed to the name field.
    pub fn validation_messages(&self) -> (r: CharacterChangeMessages)
        ensures
            self.name@.len() == 0 ==> r.is_name_error(("Name cannot be empty")@),
            self.name@.len() > 0 ==> r.spec_is_empty(),
    {
        let mut messages = CharacterChangeMessages::none();
        if self.name.as_str().is_empty() {
            messages.add_name_error_message("Name cannot be empty");
        }
        messages
    }

    /// Write `clamped_current(total, value)` into `self.hp.current`.
    fn clamp_current_into_range(&mut self, value: i64)
        requires
            i64::MIN / 2 <= value <= i64::MAX / 2,
        ensures
            *final(self) == (Character { hp: with_current(old(self).hp, value as int), ..*old(self) }),
    {
        let raised: i64 = if value < 0 { 0 } else { value };
        let total: i64 = self.hp.total as i64;
        let capped: i64 = if raised > total { total } else { raised };
        self.hp.current = capped as i32;
    }
}

/// Validation messages grouped by the character field they concern.
#[derive(Debug, PartialEq, Eq)]
pub struct CharacterChangeMessages {
    pub name: Vec<FrontendMessage>,
    pub initiative: Vec<FrontendMessage>,
    pub hp: Vec<FrontendMessage>,
}

impl Clone for CharacterChangeMessages {
    fn clone(&self) -> (r: Self)
        ensures
            r.name@ == self.name@,
            r.initiative@ == self.initiative@,
            r.hp@ == self.hp@,
    {
        CharacterChangeMessages {
            name: self.name.clone(),
            initiative: self.initiative.clone(),
            hp: self.hp.clone(),
        }
    }
}

impl CharacterChangeMessages {
    /// No messages at all.
    pub open spec fn spec_is_empty(&self) -> bool {
        self.name@.len() == 0 && self.initiative@.len() == 0 && self.hp@.len() == 0
    }

    /// Exactly one message: an error with the given text, keyed to the name
    /// field.
    pub open spec fn is_name_error(&self, text: Seq<char>) -> bool {
        &&& self.name@.len() == 1
        &&& self.name@[0].is_error_with(text)
        &&& self.initiative@.len() == 0
        &&& self.hp@.len() == 0
    }

    /// An empty message set.
    pub fn none() -> (r: Self)
        ensures
            r.spec_is_empty(),
    {
        CharacterChangeMessages { name: Vec::new(), initiative: Vec::new(), hp: Vec::new() }
    }

    /// Add an error message for the name field and hand the set back.
    pub fn with_name_error_message(self, message: &str) -> (r: Self)
        ensures
            self.spec_is_empty() ==> r.is_name_error(message@),
            r.initiative@ == self.initiative@,
            r.hp@ == self.hp@,
            (exists|i: int| 0 <= i < self.name@.len() && self.name@[i].is_error_with(message@))
                ==> r.name@ == self.name@,
            !(exists|i: int| 0 <= i < self.name@.len() && self.name@[i].is_error_with(message@))
                ==> {
                &&& r.name@.len() == self.name@.len() + 1
                &&& forall|i: int| 0 <= i < self.name@.len() ==> r.name@[i] == self.name@[i]
                &&& r.name@.last().is_error_with(message@)
            },
    {
        let mut messages = self;
        messages.add_name_error_message(message);
        messages
    }

    /// Add an error message for the name field, unless one with the same
    /// content is already recorded.
    pub fn add_name_error_message(&mut self, message: &str)
        ensures
            final(self).initiative@ == old(self).initiative@,
            final(self).hp@ == old(self).hp@,
            (exists|i: int|
                0 <= i < old(self).name@.len() && old(self).name@[i].is_error_with(message@))
                ==> final(self).name@ == old(self).name@,
            !(exists|i: int|
                0 <= i < old(self).name@.len() && old(self).name@[i].is_error_with(message@)) ==> {
                &&& final(self).name@.len() == old(self).name@.len() + 1
                &&& forall|i: int|
                    0 <= i < old(self).name@.len() ==> final(self).name@[i] == old(self).name@[i]
                &&& final(self).name@.last().is_error_with(message@)
            },
    {
        let msg = FrontendMessage::error(String::from_str(message));
        let mut i: usize = 0;
        while i < self.name.len()
            invariant
                0 <= i <= self.name.len(),
                msg.is_error_with(message@),
                self == old(self),
                forall|j: int| 0 <= j < i ==> !self.name@[j].same_content(&msg),
            decreases self.name.len() - i,
        {
            if self.name[i].matches_content(&msg) {
                proof {
                    assert(old(self).name@[i as int].is_error_with(message@));
                }
                return ;
            }
            i += 1;
        }
        self.name.push(msg);
    }

    /// Whether no messages were recorded for any field.
    pub fn is_empty(&self) -> (r: bool)
        ensures
            r == self.spec_is_empty(),
    {
        self.name.is_empty() && self.initiative.is_empty() && self.hp.is_empty()
    }
}

/// Taking damage and then healing the same amount, with no temporary hit
/// points in play, restores `current` to its pre-damage value, which already
/// lies in `[0, total]`. This holds whenever neither step clamps: the amount
/// is at most `current` and at least `current - total`.
pub proof fn lemma_damage_then_heal(hp: HitPoints, amount: int)
    requires
        hp.wf(),
        hp.temporary == 0,
        hp.current - hp.total <= amount <= hp.current,
    ensures
        with_current(damaged(hp, amount), damaged(hp, amount).current + amount) == hp,
{
}

/// Temporary hit points absorb damage smaller than their pool: with
/// `temporary == t`, taking `t - k` damage for `0 < k < t` leaves exactly
/// `k` temporary hit points and `current` untouched.
pub proof fn lemma_temporary_absorbs(hp: HitPoints, k: int)
    requires
        hp.wf(),
        0 < k < hp.temporary,
    ensures
        damaged(hp, hp.temporary - k) == (HitPoints { temporary: k as i32, ..hp }),
{
}

/// Damage beyond the temporary pool spills over exactly: with
/// `temporary == t > 0`, taking `t + k` damage for `0 < k <= current`
/// clears the pool and reduces `current` by exactly `k`.
pub proof fn lemma_temporary_spillover(hp: HitPoints, k: int)
    requires
        hp.wf(),
        hp.temporary > 0,
        0 < k <= hp.current,
    ensures
        damaged(hp, hp.temporary + k) == (HitPoints {
            temporary: 0,
            current: (hp.current - k) as i32,
            ..hp
        }),
{
}

} // verus!
