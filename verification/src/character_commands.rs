//! Tagged mutation commands aimed at a single character, and the tagged
//! response that carries back the mutated character plus any validation
//! messages.

use vstd::prelude::*;

use crate::character::{
    Character, CharacterChangeMessages, damaged, with_current, with_temporary, with_total,
};
use crate::ids::Uid;

verus! {

/// One mutation request against the character with the embedded id.
#[derive(Debug, PartialEq, Eq)]
pub enum UpdateCharacterCommand {
    UpdateName { id: Uid, name: String },
    UpdateInitiative { id: Uid, initiative: i32 },
    UpdateInitiativeModifier { id: Uid, modifier: i32 },
    UpdateCurrentHp { id: Uid, hp: i32 },
    UpdateTotalHp { id: Uid, hp: i32 },
    UpdateTemporaryHp { id: Uid, hp: i32 },
    Heal { id: Uid, hp: i32 },
    Damage { id: Uid, hp: i32 },
}

/// The id of the character the command targets.
pub open spec fn command_target(cmd: UpdateCharacterCommand) -> Uid {
    match cmd {
        UpdateCharacterCommand::UpdateName { id, .. } => id,
        UpdateCharacterCommand::UpdateInitiative { id, .. } => id,
        UpdateCharacterCommand::UpdateInitiativeModifier { id, .. } => id,
        UpdateCharacterCommand::UpdateCurrentHp { id, .. } => id,
        UpdateCharacterCommand::UpdateTotalHp { id, .. } => id,
        UpdateCharacterCommand::UpdateTemporaryHp { id, .. } => id,
        UpdateCharacterCommand::Heal { id, .. } => id,
        UpdateCharacterCommand::Damage { id, .. } => id,
    }
}

/// The character after the command's setter has run, exactly as the setters
/// of [`Character`] define it. A rejected rename (empty name) leaves the
/// character unchanged.
pub open spec fn applied(c: Character, cmd: UpdateCharacterCommand) -> Character {
    match cmd {
        UpdateCharacterCommand::UpdateName { name, .. } => if name@.len() == 0 {
            c
        } else {
            Character { name, ..c }
        },
        UpdateCharacterCommand::UpdateInitiative { initiative, .. } => Character {
            initiative: vstd::math::max(initiative as int, -20) as i32,
            ..c
        },
        UpdateCharacterCommand::UpdateInitiativeModifier { modifier, .. } => Character {
            initiative_modifier: vstd::math::max(modifier as int, -20) as i32,
            ..c
        },
        UpdateCharacterCommand::UpdateCurrentHp { hp, .. } => Character {
            hp: with_current(c.hp, hp as int),
            ..c
        },
        UpdateCharacterCommand::UpdateTotalHp { hp, .. } => Character {
            hp: with_total(c.hp, hp as int),
            ..c
        },
        UpdateCharacterCommand::UpdateTemporaryHp { hp, .. } => Character {
            hp: with_temporary(c.hp, hp as int),
            ..c
        },
        UpdateCharacterCommand::Heal { hp, .. } => Character {
            hp: with_current(c.hp, c.hp.current + hp),
            ..c
        },
        UpdateCharacterCommand::Damage { hp, .. } => Character {
            hp: damaged(c.hp, hp as int),
            ..c
        },
    }
}

/// The command is a rename to an empty name, which validation rejects.
pub open spec fn name_rejected(cmd: UpdateCharacterCommand) -> bool {
    cmd matches UpdateCharacterCommand::UpdateName { name, .. } && name@.len() == 0
}

impl UpdateCharacterCommand {
    /// The id of the character the command targets.
    pub fn id(&self) -> (r: Uid)
        ensures
            r == command_target(*self),
    {
        match self {
            UpdateCharacterCommand::UpdateName { id, .. } => *id,
            UpdateCharacterCommand::UpdateInitiative { id, .. } => *id,
            UpdateCharacterCommand::UpdateInitiativeModifier { id, .. } => *id,
            UpdateCharacterCommand::UpdateCurrentHp { id, .. } => *id,
            UpdateCharacterCommand::UpdateTotalHp { id, .. } => *id,
            UpdateCharacterCommand::UpdateTemporaryHp { id, .. } => *id,
            UpdateCharacterCommand::Heal { id, .. } => *id,
            UpdateCharacterCommand::Damage { id, .. } => *id,
        }
    }
}

impl Clone for UpdateCharacterCommand {
    fn clone(&self) -> (r: Self)
        ensures
            r == *self,
    {
        match self {
            UpdateCharacterCommand::UpdateName { id, name } => {
                UpdateCharacterCommand::UpdateName { id: *id, name: name.clone() }
            },
            UpdateCharacterCommand::UpdateInitiative { id, initiative } => {
                UpdateCharacterCommand::UpdateInitiative { id: *id, initiative: *initiative }
            },
            UpdateCharacterCommand::UpdateInitiativeModifier { id, modifier } => {
                UpdateCharacterCommand::UpdateInitiativeModifier { id: *id, modifier: *modifier }
            },
            UpdateCharacterCommand::UpdateCurrentHp { id, hp } => {
                UpdateCharacterCommand::UpdateCurrentHp { id: *id, hp: *hp }
            },
            UpdateCharacterCommand::UpdateTotalHp { id, hp } => {
                UpdateCharacterCommand::UpdateTotalHp { id: *id, hp: *hp }
            },
            UpdateCharacterCommand::UpdateTemporaryHp { id, hp } => {
                UpdateCharacterCommand::UpdateTemporaryHp { id: *id, hp: *hp }
            },
            UpdateCharacterCommand::Heal { id, hp } => {
                UpdateCharacterCommand::Heal { id: *id, hp: *hp }
            },
            UpdateCharacterCommand::Damage { id, hp } => {
                UpdateCharacterCommand::Damage { id: *id, hp: *hp }
            },
        }
    }
}

/// The response to a character mutation command.
#[derive(Debug, PartialEq, Eq)]
pub enum CharacterCommandResponse {
    UpdatedCharacter { character: Character, messages: CharacterChangeMessages },
}

impl Clone for CharacterCommandResponse {
    fn clone(&self) -> (r: Self)
        ensures
            self matches CharacterCommandResponse::UpdatedCharacter {
                character: sc,
                messages: sm,
            } && r matches CharacterCommandResponse::UpdatedCharacter {
                character: rc,
                messages: rm,
            } && rc == sc && rm.name@ == sm.name@ && rm.initiative@ == sm.initiative@ && rm.hp@
                == sm.hp@,
    {
        match self {
            CharacterCommandResponse::UpdatedCharacter { character, messages } => {
                CharacterCommandResponse::UpdatedCharacter {
                    character: character.clone(),
                    messages: messages.clone(),
                }
            },
        }
    }
}

impl CharacterCommandResponse {
    /// A snapshot of the character with no messages.
    pub fn updated(character: &Character) -> (r: Self)
        ensures
            r matches CharacterCommandResponse::UpdatedCharacter { character: rc, messages: rm }
                && rc == *character && rm.spec_is_empty(),
    {
        Self::UpdatedCharacter {
            character: character.clone(),
            messages: CharacterChangeMessages::none(),
        }
    }

    /// A snapshot of the character together with the given messages.
    pub fn updated_with_messages(character: &Character, messages: CharacterChangeMessages) -> (r:
        Self)
        ensures
            r matches CharacterCommandResponse::UpdatedCharacter { character: rc, messages: rm }
                && rc == *character && rm.name@ == messages.name@ && rm.initiative@
                == messages.initiative@ && rm.hp@ == messages.hp@,
    {
        Self::UpdatedCharacter { character: character.clone(), messages }
    }
}

} // verus!
