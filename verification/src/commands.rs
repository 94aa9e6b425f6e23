//! Encounter-level commands and the dispatch layer: pure translators from
//! tagged command values to repository and aggregate calls, producing tagged
//! response values with cloned snapshots.

use vstd::prelude::*;
use vstd::string::StringExecFns;

use crate::character::{Character, CharacterChangeMessages};
use crate::character_commands::{
    CharacterCommandResponse, UpdateCharacterCommand, applied, command_target, name_rejected,
};
use crate::encounter::{
    Encounter, EncounterCollection, advanced, has_encounter_with_id, index_of_encounter,
    lemma_index_of_encounter, next_allowed, paused, restarted, snapshot_of, started, stopped,
};
use crate::ids::{Uid, uuid_text};
use crate::order::{has_character_with_id, index_of_id, sort_by_initiative};

verus! {

/// One of the five turn-cursor lifecycle operations.
#[derive(Clone, Copy, Debug, PartialEq, Eq, Structural)]
pub enum EncounterStageCmd {
    Start,
    Restart,
    Pause,
    Stop,
    Next,
}

/// Apply a lifecycle operation to the turn cursor of the encounter with the
/// given id.
#[derive(Clone, Copy, Debug, PartialEq, Eq, Structural)]
pub struct UpdateStageCommand {
    pub id: Uid,
    pub stage: EncounterStageCmd,
}

/// Add a character to the encounter with the given id.
#[derive(Debug, PartialEq, Eq)]
pub struct AddCharacterCommand {
    pub id: Uid,
    pub character: Character,
}

impl Clone for AddCharacterCommand {
    fn clone(&self) -> (r: Self)
        ensures
            r == *self,
    {
        AddCharacterCommand { id: self.id, character: self.character.clone() }
    }
}

/// The outcome of adding a character: the (possibly unchanged) encounter and
/// the validation messages of the character that was offered.
#[derive(Debug, PartialEq, Eq)]
pub struct AddCharacterResult {
    pub encounter: Encounter,
    pub character_change: CharacterChangeMessages,
}

/// One encounter-level command.
#[derive(Debug, PartialEq, Eq)]
pub enum EncounterCommands {
    ListEncounter,
    UpdateStage(UpdateStageCommand),
    AddCharacter(AddCharacterCommand),
}

impl Clone for EncounterCommands {
    fn clone(&self) -> (r: Self)
        ensures
            r == *self,
    {
        match self {
            EncounterCommands::ListEncounter => EncounterCommands::ListEncounter,
            EncounterCommands::UpdateStage(c) => EncounterCommands::UpdateStage(*c),
            EncounterCommands::AddCharacter(c) => EncounterCommands::AddCharacter(c.clone()),
        }
    }
}

/// The response to an encounter-level command.
#[derive(Debug, PartialEq, Eq)]
pub enum EncounterCommandResponse {
    EncounterList(Vec<Encounter>),
    EncounterChanged(Encounter),
    CharacterAdded(AddCharacterResult),
}

/// The encounter after the given lifecycle operation.
pub open spec fn stage_applied(e: Encounter, stage: EncounterStageCmd) -> Encounter {
    match stage {
        EncounterStageCmd::Start => started(e),
        EncounterStageCmd::Restart => restarted(e),
        EncounterStageCmd::Pause => paused(e),
        EncounterStageCmd::Stop => stopped(e),
        EncounterStageCmd::Next => advanced(e),
    }
}

/// The lifecycle operation succeeds on the encounter: `start` needs an idle
/// cursor, `next` needs the active id (if any) to stand in the roster, and
/// the other three never fail.
pub open spec fn stage_allowed(e: Encounter, stage: EncounterStageCmd) -> bool {
    match stage {
        EncounterStageCmd::Start => e.active_character is None,
        EncounterStageCmd::Next => next_allowed(e),
        _ => true,
    }
}

/// The error text a refused lifecycle operation reports.
pub open spec fn stage_error_text(stage: EncounterStageCmd) -> Seq<char> {
    match stage {
        EncounterStageCmd::Start => "Encounter already started"@,
        EncounterStageCmd::Next => "Active character not found"@,
        _ => Seq::empty(),
    }
}

impl EncounterCommandResponse {
    /// A listing of every encounter in the repository, as cloned snapshots.
    pub fn list_from_collection(collection: &EncounterCollection) -> (r: Result<Self, String>)
        ensures
            r matches Ok(resp) && resp matches EncounterCommandResponse::EncounterList(v) && v@.len()
                == collection.encounters@.len() && (forall|i: int|
                0 <= i < collection.encounters@.len() ==> snapshot_of(
                    v@[i],
                    collection.encounters@[i],
                )),
    {
        Ok(Self::EncounterList(collection.list_encounters()))
    }

    /// Run a lifecycle operation on the encounter and report the changed
    /// encounter as a cloned snapshot; a refused operation leaves the
    /// encounter unchanged and surfaces its error.
    pub fn from_stage_command(encounter: &mut Encounter, cmd: EncounterStageCmd) -> (r: Result<
        Self,
        String,
    >)
        ensures
            stage_allowed(*old(encounter), cmd) ==> {
                &&& *final(encounter) == stage_applied(*old(encounter), cmd)
                &&& r matches Ok(resp) && resp matches EncounterCommandResponse::EncounterChanged(e)
                    && snapshot_of(e, *final(encounter))
            },
            !stage_allowed(*old(encounter), cmd) ==> {
                &&& *final(encounter) == *old(encounter)
                &&& r matches Err(msg) && msg@ == stage_error_text(cmd)
            },
    {
        match cmd {
            EncounterStageCmd::Start => encounter.start()?,
            EncounterStageCmd::Restart => encounter.restart()?,
            EncounterStageCmd::Pause => encounter.pause()?,
            EncounterStageCmd::Stop => encounter.stop()?,
            EncounterStageCmd::Next => encounter.next()?,
        }
        Ok(Self::EncounterChanged(encounter.clone()))
    }

    /// The add-character outcome: a cloned snapshot of the encounter together
    /// with the validation messages.
    pub fn character_added(encounter: &Encounter, message: &CharacterChangeMessages) -> (r: Self)
        ensures
            r matches EncounterCommandResponse::CharacterAdded(ar) && snapshot_of(
                ar.encounter,
                *encounter,
            ) && ar.character_change.name@ == message.name@ && ar.character_change.initiative@
                == message.initiative@ && ar.character_change.hp@ == message.hp@,
    {
        Self::CharacterAdded(
            AddCharacterResult {
                encounter: encounter.clone(),
                character_change: message.clone(),
            },
        )
    }
}

/// The encounter after a character was offered to it: unchanged when the id
/// is already present, otherwise appended and re-sorted whole.
pub open spec fn character_added_to(pre: Encounter, c: Character, post: Encounter) -> bool {
    &&& post.id == pre.id
    &&& post.name == pre.name
    &&& post.active_character == pre.active_character
    &&& post.last_active_character == pre.last_active_character
    &&& post.characters@ == if has_character_with_id(pre.characters@, c.id) {
        pre.characters@
    } else {
        sort_by_initiative(pre.characters@.push(c))
    }
}

/// The encounter after a character mutation command ran inside it: the
/// targeted character is replaced by its post-mutation value, everything
/// else stays.
pub open spec fn character_updated_in(
    pre: Encounter,
    cmd: UpdateCharacterCommand,
    post: Encounter,
) -> bool {
    let i = index_of_id(pre.characters@, command_target(cmd));
    &&& post.id == pre.id
    &&& post.name == pre.name
    &&& post.active_character == pre.active_character
    &&& post.last_active_character == pre.last_active_character
    &&& post.characters@ == pre.characters@.update(i, applied(pre.characters@[i], cmd))
}

/// Serve one encounter-level command against the repository: list every
/// encounter, run a lifecycle operation, or add a validated character. A
/// character that fails validation is not added; the response then reports
/// the unchanged encounter together with the messages.
pub fn encounter(collection: &mut EncounterCollection, command: EncounterCommands) -> (r: Result<
    EncounterCommandResponse,
    String,
>)
    ensures
        match command {
            EncounterCommands::ListEncounter => {
                &&& *final(collection) == *old(collection)
                &&& r matches Ok(resp) && resp matches EncounterCommandResponse::EncounterList(v)
                    && v@.len() == old(collection).encounters@.len() && (forall|i: int|
                    0 <= i < old(collection).encounters@.len() ==> snapshot_of(
                        v@[i],
                        old(collection).encounters@[i],
                    ))
            },
            EncounterCommands::UpdateStage(c) => {
                let i = index_of_encounter(old(collection).encounters@, c.id);
                if !has_encounter_with_id(old(collection).encounters@, c.id) {
                    &&& *final(collection) == *old(collection)
                    &&& r matches Err(msg) && msg@ == "Encounter not found"@
                } else if stage_allowed(old(collection).encounters@[i], c.stage) {
                    &&& final(collection).encounters@ == old(collection).encounters@.update(
                        i,
                        stage_applied(old(collection).encounters@[i], c.stage),
                    )
                    &&& r matches Ok(resp) && resp matches
                        EncounterCommandResponse::EncounterChanged(e) && snapshot_of(
                        e,
                        final(collection).encounters@[i],
                    )
                } else {
                    &&& final(collection).encounters@ == old(collection).encounters@
                    &&& r matches Err(msg) && msg@ == stage_error_text(c.stage)
                }
            },
            EncounterCommands::AddCharacter(c) => {
                let i = index_of_encounter(old(collection).encounters@, c.id);
                if !has_encounter_with_id(old(collection).encounters@, c.id) {
                    &&& *final(collection) == *old(collection)
                    &&& r matches Err(msg) && msg@ == "Encounter not found"@
                } else if c.character.name@.len() == 0 {
                    &&& final(collection).encounters@ == old(collection).encounters@
                    &&& r matches Ok(resp) && resp matches
                        EncounterCommandResponse::CharacterAdded(ar) && snapshot_of(
                        ar.encounter,
                        old(collection).encounters@[i],
                    ) && ar.character_change.is_name_error("Name cannot be empty"@)
                } else {
                    &&& final(collection).encounters@.len() == old(collection).encounters@.len()
                    &&& (forall|j: int|
                        0 <= j < old(collection).encounters@.len() && j != i
                            ==> final(collection).encounters@[j]
                            == old(collection).encounters@[j])
                    &&& character_added_to(
                        old(collection).encounters@[i],
                        c.character,
                        final(collection).encounters@[i],
                    )
                    &&& r matches Ok(resp) && resp matches
                        EncounterCommandResponse::CharacterAdded(ar) && snapshot_of(
                        ar.encounter,
                        final(collection).encounters@[i],
                    ) && ar.character_change.spec_is_empty()
                }
            },
        },
{
    match command {
        EncounterCommands::ListEncounter => {
            EncounterCommandResponse::list_from_collection(&collection)
        },
        EncounterCommands::UpdateStage(UpdateStageCommand { id, stage }) => {
            proof {
                lemma_index_of_encounter(collection.encounters@, id);
            }
            match collection.find_encounter_mut(id) {
                None => Err(String::from_str("Encounter not found")),
                Some(enc) => EncounterCommandResponse::from_stage_command(enc, stage),
            }
        },
        EncounterCommands::AddCharacter(AddCharacterCommand { id, character }) => {
            proof {
                lemma_index_of_encounter(collection.encounters@, id);
            }
            match collection.find_encounter_mut(id) {
                None => Err(String::from_str("Encounter not found")),
                Some(enc) => {
                    let messages = character.validation_messages();
                    if messages.is_empty() {
                        enc.add_character(character);
                    }
                    Ok(EncounterCommandResponse::character_added(enc, &messages))
                },
            }
        },
    }
}

/// Route a character mutation command to its character inside the encounter
/// with the given id.
pub fn update_encounter_character(
    collection: &mut EncounterCollection,
    encounter_id: Uid,
    command: UpdateCharacterCommand,
) -> (r: Result<CharacterCommandResponse, String>)
    ensures
        ({
            let i = index_of_encounter(old(collection).encounters@, encounter_id);
            let enc = old(collection).encounters@[i];
            let target = command_target(command);
            if !has_encounter_with_id(old(collection).encounters@, encounter_id) {
                &&& *final(collection) == *old(collection)
                &&& r matches Err(msg) && msg@ == "Encounter not found"@
            } else if has_character_with_id(enc.characters@, target) {
                &&& final(collection).encounters@.len() == old(collection).encounters@.len()
                &&& (forall|j: int|
                    0 <= j < old(collection).encounters@.len() && j != i
                        ==> final(collection).encounters@[j]
                        == old(collection).encounters@[j])
                &&& character_updated_in(enc, command, final(collection).encounters@[i])
                &&& r matches Ok(resp) && resp matches
                    CharacterCommandResponse::UpdatedCharacter { character: rc, messages: rm }
                    && rc == applied(
                    enc.characters@[index_of_id(enc.characters@, target)],
                    command,
                ) && (name_rejected(command) ==> rm.is_name_error("Name cannot be empty"@)) && (
                !name_rejected(command) ==> rm.spec_is_empty())
            } else {
                &&& final(collection).encounters@ == old(collection).encounters@
                &&& r matches Err(msg) && msg@ == "Character with id "@ + uuid_text(target.value)
                    + " not found"@
            }
        }),
{
    proof {
        lemma_index_of_encounter(collection.encounters@, encounter_id);
    }
    let ghost pre = collection.encounters@;
    match collection.find_encounter_mut(encounter_id) {
        None => Err(String::from_str("Encounter not found")),
        Some(enc) => {
            let outcome = enc.update_character(command);
            proof {
                if outcome is Err {
                    assert(pre.update(index_of_encounter(pre, encounter_id), pre[index_of_encounter(pre, encounter_id)]) =~= pre);
                }
            }
            outcome
        },
    }
}

/// A blank character: empty name (to be filled in by the caller), one hit
/// point, zero initiative.
pub fn new_character() -> (r: Result<Character, String>)
    ensures
        r matches Ok(c) && c.name@.len() == 0 && c.hp.current == 1 && c.hp.total == 1
            && c.hp.temporary == 0 && c.initiative == 0 && c.initiative_modifier == 0,
{
    Ok(Character::new(String::new(), 1, 0))
}

} // verus!
