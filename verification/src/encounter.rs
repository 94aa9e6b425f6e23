//! One combat encounter: an ordered roster of characters plus the turn
//! cursor, and the repository that holds all encounters of the process.
//!
//! The turn cursor is the pair `(active_character, last_active_character)`:
//! idle when both are `None`, active when the first is `Some`, paused when
//! only the second is `Some`. The five lifecycle operations move between
//! those states exactly as their contracts state.

use vstd::prelude::*;
use vstd::string::StringExecFns;

use crate::character::{Character, CharacterChangeMessages};
use crate::character_commands::{
    CharacterCommandResponse, UpdateCharacterCommand, applied, command_target, name_rejected,
};
use crate::ids::{Uid, uuid_text};
use crate::order::{
    has_character_with_id, index_of_id, lemma_index_of_id, sort_by_initiative, sort_characters,
};

verus! {

/// One combat session: an identity, a display name, the roster kept in turn
/// order by insertions, and the turn cursor.
#[derive(Debug, PartialEq, Eq)]
pub struct Encounter {
    pub id: Uid,
    pub name: String,
    pub characters: Vec<Character>,
    pub active_character: Option<Uid>,
    pub last_active_character: Option<Uid>,
}

/// `a` carries exactly the same data as `b`: equal identity, name, roster
/// and cursor. This is equality up to the vectors holding the rosters.
pub open spec fn snapshot_of(a: Encounter, b: Encounter) -> bool {
    &&& a.id == b.id
    &&& a.name == b.name
    &&& a.characters@ == b.characters@
    &&& a.active_character == b.active_character
    &&& a.last_active_character == b.last_active_character
}

/// The id of the roster's first character, if any.
pub open spec fn first_active(chars: Seq<Character>) -> Option<Uid> {
    if chars.len() == 0 {
        None
    } else {
        Some(chars[0].id)
    }
}

/// The id of the character after the one with the given id, wrapping from
/// the last back to the first.
pub open spec fn next_active(chars: Seq<Character>, id: Uid) -> Uid
    recommends
        has_character_with_id(chars, id),
{
    chars[(index_of_id(chars, id) + 1) % (chars.len() as int)].id
}

/// The encounter after `start`: the first character becomes active and the
/// pause memory is cleared.
pub open spec fn started(e: Encounter) -> Encounter {
    Encounter { active_character: first_active(e.characters@), last_active_character: None, ..e }
}

/// The encounter after `stop`: the cursor is fully cleared.
pub open spec fn stopped(e: Encounter) -> Encounter {
    Encounter { active_character: None, last_active_character: None, ..e }
}

/// The encounter after `pause`: the active character is remembered and
/// deactivated.
pub open spec fn paused(e: Encounter) -> Encounter {
    Encounter { active_character: None, last_active_character: e.active_character, ..e }
}

/// The encounter after `restart`: the remembered character becomes active
/// again, or the first character when nothing is remembered.
pub open spec fn restarted(e: Encounter) -> Encounter {
    Encounter {
        active_character: if e.last_active_character is Some {
            e.last_active_character
        } else {
            first_active(e.characters@)
        },
        last_active_character: None,
        ..e
    }
}

/// The encounter after `next`: the turn moves to the character after the
/// active one (wrapping), remembering the previous active id; with no active
/// character it behaves as an implicit `start`.
pub open spec fn advanced(e: Encounter) -> Encounter {
    match e.active_character {
        Some(id) => Encounter {
            active_character: Some(next_active(e.characters@, id)),
            last_active_character: Some(id),
            ..e
        },
        None => Encounter {
            active_character: first_active(e.characters@),
            last_active_character: None,
            ..e
        },
    }
}

/// `next` succeeds: either nothing is active, or the active id still stands
/// in the roster.
pub open spec fn next_allowed(e: Encounter) -> bool {
    match e.active_character {
        Some(id) => has_character_with_id(e.characters@, id),
        None => true,
    }
}

/// The first index of `v` whose character carries the given id; `v.len()`
/// when there is none.
fn index_of_character(v: &Vec<Character>, id: Uid) -> (r: usize)
    ensures
        r as int == index_of_id(v@, id),
{
    proof {
        lemma_index_of_id(v@, id);
    }
    let mut i: usize = 0;
    while i < v.len()
        invariant
            0 <= i <= v@.len(),
            forall|k: int| 0 <= k < i ==> v@[k].id != id,
        decreases v@.len() - i,
    {
        if v[i].id == id {
            proof {
                lemma_index_of_id(v@, id);
            }
            return i;
        }
        i += 1;
    }
    i
}

impl Clone for Encounter {
    fn clone(&self) -> (r: Self)
        ensures
            snapshot_of(r, *self),
    {
        let characters = crate::order::clone_characters(&self.characters);
        Encounter {
            id: self.id,
            name: self.name.clone(),
            characters,
            active_character: self.active_character,
            last_active_character: self.last_active_character,
        }
    }
}

impl Encounter {
    /// A new, empty encounter with a fresh identity and an idle cursor.
    pub fn new(name: String) -> (r: Encounter)
        ensures
            r.name == name,
            r.characters@.len() == 0,
            r.active_character is None,
            r.last_active_character is None,
    {
        Encounter {
            id: Uid::fresh(),
            name,
            characters: Vec::new(),
            active_character: None,
            last_active_character: None,
        }
    }

    /// The identity in its hyphenated text form.
    pub fn id(&self) -> (r: String)
        ensures
            r@ == uuid_text(self.id.value),
            r@.len() == 36,
    {
        self.id.text()
    }

    /// The identity itself.
    pub fn uuid(&self) -> (r: Uid)
        ensures
            r == self.id,
    {
        self.id
    }

    /// The id of the character whose turn it is, if any.
    pub fn get_active_character_id(&self) -> (r: Option<Uid>)
        ensures
            r == self.active_character,
    {
        self.active_character
    }

    /// Add a character to the roster: a no-op when its id is already present,
    /// otherwise the roster is appended to and re-sorted whole by the stable
    /// turn-order sort.
    pub fn add_character(&mut self, new_character: Character)
        ensures
            final(self).id == old(self).id,
            final(self).name == old(self).name,
            final(self).active_character == old(self).active_character,
            final(self).last_active_character == old(self).last_active_character,
            has_character_with_id(old(self).characters@, new_character.id) ==> *final(self)
                == *old(self),
            !has_character_with_id(old(self).characters@, new_character.id)
                ==> final(self).characters@ == sort_by_initiative(
                old(self).characters@.push(new_character),
            ),
    {
        proof {
            lemma_index_of_id(self.characters@, new_character.id);
        }
        let idx = index_of_character(&self.characters, new_character.id);
        if idx < self.characters.len() {
            return ;
        }
        self.characters.push(new_character);
        let sorted = sort_characters(&self.characters);
        self.characters = sorted;
    }

    /// The first character with the given id, if any.
    pub fn find_character(&self, id: Uid) -> (r: Option<&Character>)
        ensures
            match r {
                Some(c) => has_character_with_id(self.characters@, id) && *c
                    == self.characters@[index_of_id(self.characters@, id)],
                None => !has_character_with_id(self.characters@, id),
            },
    {
        proof {
            lemma_index_of_id(self.characters@, id);
        }
        let idx = index_of_character(&self.characters, id);
        if idx < self.characters.len() {
            Some(&self.characters[idx])
        } else {
            None
        }
    }

    /// A mutable handle on the first character with the given id, if any.
    pub fn find_character_mut(&mut self, id: Uid) -> (r: Option<&mut Character>)
        ensures
            match r {
                Some(c) => {
                    &&& has_character_with_id(old(self).characters@, id)
                    &&& *c == old(self).characters@[index_of_id(old(self).characters@, id)]
                    &&& final(self).characters@ == old(self).characters@.update(
                        index_of_id(old(self).characters@, id),
                        *final(c),
                    )
                    &&& final(self).id == old(self).id
                    &&& final(self).name == old(self).name
                    &&& final(self).active_character == old(self).active_character
                    &&& final(self).last_active_character == old(self).last_active_character
                },
                None => {
                    &&& !has_character_with_id(old(self).characters@, id)
                    &&& *final(self) == *old(self)
                },
            },
    {
        proof {
            lemma_index_of_id(self.characters@, id);
        }
        let idx = index_of_character(&self.characters, id);
        if idx < self.characters.len() {
            Some(&mut self.characters[idx])
        } else {
            None
        }
    }

    /// A cloned snapshot of the roster, in its current order.
    pub fn get_characters(&self) -> (r: Vec<Character>)
        ensures
            r@ == self.characters@,
    {
        crate::order::clone_characters(&self.characters)
    }

    /// Remove every character that is the same combatant (same id) as the
    /// given one; the rest keep their order.
    pub fn remove_character(&mut self, character: Character)
        ensures
            final(self).id == old(self).id,
            final(self).name == old(self).name,
            final(self).active_character == old(self).active_character,
            final(self).last_active_character == old(self).last_active_character,
            final(self).characters@ == old(self).characters@.filter(
                |c: Character| c.id != character.id,
            ),
    {
        let mut kept: Vec<Character> = Vec::new();
        let mut i: usize = 0;
        proof {
            reveal(Seq::filter);
        }
        while i < self.characters.len()
            invariant
                0 <= i <= self.characters@.len(),
                self == old(self),
                kept@ == self.characters@.take(i as int).filter(
                    |c: Character| c.id != character.id,
                ),
            decreases self.characters@.len() - i,
        {
            proof {
                reveal(Seq::filter);
                assert(self.characters@.take(i + 1).drop_last() =~= self.characters@.take(i as int));
                assert(self.characters@.take(i + 1).last() == self.characters@[i as int]);
            }
            if self.characters[i].id != character.id {
                kept.push(self.characters[i].clone());
            }
            i += 1;
        }
        proof {
            assert(self.characters@.take(self.characters@.len() as int) =~= self.characters@);
        }
        self.characters = kept;
    }

    /// Route a mutation command to the character it targets. The response
    /// carries the post-mutation character; a rejected rename still succeeds
    /// as a whole, reporting the unchanged character together with the name
    /// error message. Only an unknown id fails.
    pub fn update_character(&mut self, cmd: UpdateCharacterCommand) -> (r: Result<
        CharacterCommandResponse,
        String,
    >)
        ensures
            match r {
                Ok(resp) => {
                    let id = command_target(cmd);
                    let i = index_of_id(old(self).characters@, id);
                    let after = applied(old(self).characters@[i], cmd);
                    &&& has_character_with_id(old(self).characters@, id)
                    &&& final(self).characters@ == old(self).characters@.update(i, after)
                    &&& final(self).id == old(self).id
                    &&& final(self).name == old(self).name
                    &&& final(self).active_character == old(self).active_character
                    &&& final(self).last_active_character == old(self).last_active_character
                    &&& resp matches CharacterCommandResponse::UpdatedCharacter {
                        character: rc,
                        messages: rm,
                    } && rc == after && (name_rejected(cmd) ==> rm.is_name_error(
                        "Name cannot be empty"@,
                    )) && (!name_rejected(cmd) ==> rm.spec_is_empty())
                },
                Err(msg) => {
                    &&& !has_character_with_id(old(self).characters@, command_target(cmd))
                    &&& *final(self) == *old(self)
                    &&& msg@ == "Character with id "@ + uuid_text(command_target(cmd).value)
                        + " not found"@
                },
            },
    {
        let id = cmd.id();
        proof {
            lemma_index_of_id(self.characters@, id);
        }
        let idx = index_of_character(&self.characters, id);
        if idx >= self.characters.len() {
            let id_text = id.text();
            let mut msg = String::from_str("Character with id ");
            msg.append(id_text.as_str());
            msg.append(" not found");
            return Err(msg);
        }
        match cmd {
            UpdateCharacterCommand::UpdateName { name, .. } => {
                let target = &mut self.characters[idx];
                let outcome = target.set_name(name);
                match outcome {
                    Ok(()) => Ok(CharacterCommandResponse::updated(&self.characters[idx])),
                    Err(e) => Ok(
                        CharacterCommandResponse::updated_with_messages(
                            &self.characters[idx],
                            CharacterChangeMessages::none().with_name_error_message(e.as_str()),
                        ),
                    ),
                }
            },
            UpdateCharacterCommand::UpdateInitiative { initiative, .. } => {
                let target = &mut self.characters[idx];
                target.set_initiative(initiative);
                Ok(CharacterCommandResponse::updated(&self.characters[idx]))
            },
            UpdateCharacterCommand::UpdateInitiativeModifier { modifier, .. } => {
                let target = &mut self.characters[idx];
                target.set_initiative_modifier(modifier);
                Ok(CharacterCommandResponse::updated(&self.characters[idx]))
            },
            UpdateCharacterCommand::UpdateCurrentHp { hp, .. } => {
                let target = &mut self.characters[idx];
                target.set_current_hp(hp);
                Ok(CharacterCommandResponse::updated(&self.characters[idx]))
            },
            UpdateCharacterCommand::UpdateTotalHp { hp, .. } => {
                let target = &mut self.characters[idx];
                target.set_total_hp(hp);
                Ok(CharacterCommandResponse::updated(&self.characters[idx]))
            },
            UpdateCharacterCommand::UpdateTemporaryHp { hp, .. } => {
                let target = &mut self.characters[idx];
                target.set_temporary_hp(hp);
                Ok(CharacterCommandResponse::updated(&self.characters[idx]))
            },
            UpdateCharacterCommand::Heal { hp, .. } => {
                let target = &mut self.characters[idx];
                target.heal(hp);
                Ok(CharacterCommandResponse::updated(&self.characters[idx]))
            },
            UpdateCharacterCommand::Damage { hp, .. } => {
                let target = &mut self.characters[idx];
                target.damage(hp);
                Ok(CharacterCommandResponse::updated(&self.characters[idx]))
            },
        }
    }

    /// Begin the encounter: the first character of the roster becomes active.
    /// Fails when a character is already active, leaving everything unchanged.
    pub fn start(&mut self) -> (r: Result<(), String>)
        ensures
            old(self).active_character is None ==> r is Ok && *final(self) == started(*old(self)),
            old(self).active_character is Some ==> r is Err && *final(self) == *old(self) && (r
                ->Err_0)@ == "Encounter already started"@,
    {
        match self.active_character {
            Some(_) => {
                return Err(String::from_str("Encounter already started"));
            },
            None => {
                self.active_character = if self.characters.len() > 0 {
                    Some(self.characters[0].uuid())
                } else {
                    None
                };
            },
        }
        self.last_active_character = None;
        Ok(())
    }

    /// Clear the turn cursor entirely. Never fails.
    pub fn stop(&mut self) -> (r: Result<(), String>)
        ensures
            r is Ok,
            *final(self) == stopped(*old(self)),
    {
        self.last_active_character = None;
        self.active_character = None;
        Ok(())
    }

    /// Advance the turn to the next character in the current roster order,
    /// wrapping around; with no active character it behaves as an implicit
    /// start. Fails only when the active id has left the roster.
    pub fn next(&mut self) -> (r: Result<(), String>)
        ensures
            next_allowed(*old(self)) ==> r is Ok && *final(self) == advanced(*old(self)),
            !next_allowed(*old(self)) ==> r is Err && *final(self) == *old(self) && (r->Err_0)@
                == "Active character not found"@,
    {
        let active = self.active_character;
        match active {
            Some(id) => {
                proof {
                    lemma_index_of_id(self.characters@, id);
                }
                let idx = index_of_character(&self.characters, id);
                if idx >= self.characters.len() {
                    return Err(String::from_str("Active character not found"));
                }
                let next_index = (idx + 1) % self.characters.len();
                self.active_character = Some(self.characters[next_index].uuid());
                self.last_active_character = Some(id);
            },
            None => {
                self.active_character = if self.characters.len() > 0 {
                    Some(self.characters[0].uuid())
                } else {
                    None
                };
                self.last_active_character = None;
            },
        }
        Ok(())
    }

    /// Remember the active character and deactivate it. Never fails.
    pub fn pause(&mut self) -> (r: Result<(), String>)
        ensures
            r is Ok,
            *final(self) == paused(*old(self)),
    {
        self.last_active_character = self.active_character;
        self.active_character = None;
        Ok(())
    }

    /// Reactivate the remembered character, or the first of the roster when
    /// nothing is remembered; the memory is cleared. Never fails.
    pub fn restart(&mut self) -> (r: Result<(), String>)
        ensures
            r is Ok,
            *final(self) == restarted(*old(self)),
    {
        match self.last_active_character {
            Some(id) => {
                self.active_character = Some(id);
            },
            None => {
                self.active_character = if self.characters.len() > 0 {
                    Some(self.characters[0].uuid())
                } else {
                    None
                };
            },
        }
        self.last_active_character = None;
        Ok(())
    }
}

/// Some encounter of `s` carries the given id.
pub open spec fn has_encounter_with_id(s: Seq<Encounter>, id: Uid) -> bool {
    exists|i: int| 0 <= i < s.len() && s[i].id == id
}

/// The first index of `s` whose encounter carries the given id; `s.len()`
/// when there is none.
pub open spec fn index_of_encounter(s: Seq<Encounter>, id: Uid) -> int
    decreases s.len(),
{
    if s.len() == 0 {
        0
    } else if s[0].id == id {
        0
    } else {
        1 + index_of_encounter(s.drop_first(), id)
    }
}

/// `index_of_encounter` is the first index carrying the id, and it is in
/// range exactly when some encounter carries the id.
pub proof fn lemma_index_of_encounter(s: Seq<Encounter>, id: Uid)
    ensures
        0 <= index_of_encounter(s, id) <= s.len(),
        index_of_encounter(s, id) < s.len() ==> s[index_of_encounter(s, id)].id == id,
        forall|k: int| 0 <= k < index_of_encounter(s, id) ==> s[k].id != id,
        has_encounter_with_id(s, id) <==> index_of_encounter(s, id) < s.len(),
    decreases s.len(),
{
    if s.len() > 0 && s[0].id != id {
        lemma_index_of_encounter(s.drop_first(), id);
        assert forall|k: int| 0 <= k < index_of_encounter(s, id) implies s[k].id != id by {
            if k > 0 {
                assert(s.drop_first()[k - 1] == s[k]);
            }
        }
        if has_encounter_with_id(s, id) {
            let w = choose|i: int| 0 <= i < s.len() && s[i].id == id;
            assert(s.drop_first()[w - 1] == s[w]);
        }
        if index_of_encounter(s, id) < s.len() {
            let w = index_of_encounter(s.drop_first(), id);
            assert(s[w + 1] == s.drop_first()[w]);
        }
    }
}

/// The first index of `v` whose encounter carries the given id; `v.len()`
/// when there is none.
fn position_of_encounter(v: &Vec<Encounter>, id: Uid) -> (r: usize)
    ensures
        r as int == index_of_encounter(v@, id),
{
    proof {
        lemma_index_of_encounter(v@, id);
    }
    let mut i: usize = 0;
    while i < v.len()
        invariant
            0 <= i <= v@.len(),
            forall|k: int| 0 <= k < i ==> v@[k].id != id,
        decreases v@.len() - i,
    {
        if v[i].id == id {
            proof {
                lemma_index_of_encounter(v@, id);
            }
            return i;
        }
        i += 1;
    }
    i
}

/// The repository of every encounter the process holds, keyed by encounter
/// identity: insertion overwrites the encounter already carrying the same id.
#[derive(Debug)]
pub struct EncounterCollection {
    pub encounters: Vec<Encounter>,
}

impl Clone for EncounterCollection {
    fn clone(&self) -> (r: Self)
        ensures
            r.encounters@.len() == self.encounters@.len(),
            forall|i: int|
                0 <= i < self.encounters@.len() ==> snapshot_of(
                    r.encounters@[i],
                    self.encounters@[i],
                ),
    {
        EncounterCollection { encounters: clone_encounters(&self.encounters) }
    }
}

/// A copy of `v`: element-wise snapshots, in the same order.
fn clone_encounters(v: &Vec<Encounter>) -> (r: Vec<Encounter>)
    ensures
        r@.len() == v@.len(),
        forall|i: int| 0 <= i < v@.len() ==> snapshot_of(r@[i], v@[i]),
{
    let r = v.clone();
    proof {
        assert forall|i: int| 0 <= i < v@.len() implies snapshot_of(r@[i], v@[i]) by {
            assert(vstd::pervasive::cloned::<Encounter>(v@[i], r@[i]));
        }
    }
    r
}

impl EncounterCollection {
    /// An empty repository.
    pub fn new() -> (r: EncounterCollection)
        ensures
            r.encounters@.len() == 0,
    {
        EncounterCollection { encounters: Vec::new() }
    }

    /// Insert the encounter, replacing the one already carrying its id, if
    /// any; otherwise it is appended.
    pub fn add_encounter(&mut self, encounter: Encounter)
        ensures
            has_encounter_with_id(old(self).encounters@, encounter.id) ==> final(self).encounters@
                == old(self).encounters@.update(
                index_of_encounter(old(self).encounters@, encounter.id),
                encounter,
            ),
            !has_encounter_with_id(old(self).encounters@, encounter.id) ==> final(self).encounters@
                == old(self).encounters@.push(encounter),
    {
        proof {
            lemma_index_of_encounter(self.encounters@, encounter.id);
        }
        let idx = position_of_encounter(&self.encounters, encounter.id);
        if idx < self.encounters.len() {
            let slot = &mut self.encounters[idx];
            *slot = encounter;
        } else {
            self.encounters.push(encounter);
        }
    }

    /// A cloned snapshot of every encounter, suitable for handing across the
    /// boundary.
    pub fn list_encounters(&self) -> (r: Vec<Encounter>)
        ensures
            r@.len() == self.encounters@.len(),
            forall|i: int|
                0 <= i < self.encounters@.len() ==> snapshot_of(r@[i], self.encounters@[i]),
    {
        clone_encounters(&self.encounters)
    }

    /// A mutable handle on the encounter carrying the given id, if any.
    pub fn find_encounter_mut(&mut self, id: Uid) -> (r: Option<&mut Encounter>)
        ensures
            match r {
                Some(e) => {
                    &&& has_encounter_with_id(old(self).encounters@, id)
                    &&& *e == old(self).encounters@[index_of_encounter(old(self).encounters@, id)]
                    &&& final(self).encounters@ == old(self).encounters@.update(
                        index_of_encounter(old(self).encounters@, id),
                        *final(e),
                    )
                },
                None => {
                    &&& !has_encounter_with_id(old(self).encounters@, id)
                    &&& *final(self) == *old(self)
                },
            },
    {
        proof {
            lemma_index_of_encounter(self.encounters@, id);
        }
        let idx = position_of_encounter(&self.encounters, id);
        if idx < self.encounters.len() {
            Some(&mut self.encounters[idx])
        } else {
            None
        }
    }
}

/// Pausing and then restarting reactivates exactly the character that was
/// active at the pause, whatever the roster holds.
pub proof fn lemma_pause_then_restart(e: Encounter)
    requires
        e.active_character is Some,
    ensures
        restarted(paused(e)).active_character == e.active_character,
{
}

/// The turn cycle over a three-character roster with distinct ids: starting
/// activates the first character, and three advances visit the second and
/// third and wrap back to the first.
pub proof fn lemma_three_character_turn_cycle(e: Encounter)
    requires
        e.characters@.len() == 3,
        e.characters@[0].id != e.characters@[1].id,
        e.characters@[0].id != e.characters@[2].id,
        e.characters@[1].id != e.characters@[2].id,
        e.active_character is None,
    ensures
        started(e).active_character == Some(e.characters@[0].id),
        advanced(started(e)).active_character == Some(e.characters@[1].id),
        advanced(advanced(started(e))).active_character == Some(e.characters@[2].id),
        advanced(advanced(advanced(started(e)))).active_character == Some(e.characters@[0].id),
{
    let s = e.characters@;
    reveal_with_fuel(index_of_id, 4);
    assert(s.drop_first()[0] == s[1]);
    assert(s.drop_first().drop_first()[0] == s[2]);
    assert(index_of_id(s, s[0].id) == 0);
    assert(index_of_id(s, s[1].id) == 1);
    assert(index_of_id(s, s[2].id) == 2);
}

} // verus!
