use initiative_engine::{
    AddCharacterCommand, Character, CharacterCommandResponse, Encounter, EncounterCommandResponse,
    EncounterCommands, EncounterCollection, EncounterStageCmd, FrontendMessage,
    UpdateCharacterCommand, UpdateStageCommand, encounter, new_character,
    update_encounter_character,
};

fn collection_with(e: Encounter) -> EncounterCollection {
    let mut collection = EncounterCollection::new();
    collection.add_encounter(e);
    collection
}

#[test]
fn list_encounters_returns_snapshots() {
    let mut collection = EncounterCollection::new();
    collection.add_encounter(Encounter::new(String::from("First")));
    collection.add_encounter(Encounter::new(String::from("Second")));
    let response = encounter(&mut collection, EncounterCommands::ListEncounter).unwrap();
    match response {
        EncounterCommandResponse::EncounterList(list) => {
            assert_eq!(list.len(), 2);
            assert_eq!(list[0].name, "First");
            assert_eq!(list[1].name, "Second");
        }
        _ => panic!("expected an encounter listing"),
    }
}

#[test]
fn add_encounter_overwrites_same_id() {
    let mut collection = EncounterCollection::new();
    let mut e = Encounter::new(String::from("Before"));
    collection.add_encounter(e.clone());
    e.name = String::from("After");
    collection.add_encounter(e);
    let list = collection.list_encounters();
    assert_eq!(list.len(), 1);
    assert_eq!(list[0].name, "After");
}

#[test]
fn update_stage_unknown_encounter_fails() {
    let mut collection = EncounterCollection::new();
    let stray = Encounter::new(String::from("Elsewhere"));
    let cmd = EncounterCommands::UpdateStage(UpdateStageCommand {
        id: stray.uuid(),
        stage: EncounterStageCmd::Start,
    });
    let result = encounter(&mut collection, cmd);
    assert_eq!(result.unwrap_err(), String::from("Encounter not found"));
}

#[test]
fn update_stage_walks_the_turn_cycle() {
    // Character A: total 10, initiative 10; character B: total 10, initiative 9.
    let character_a = Character::new(String::from("A"), 10, 10);
    let character_b = Character::new(String::from("B"), 10, 9);
    let mut e = Encounter::new(String::from("Scenario"));
    e.add_character(character_a.clone());
    e.add_character(character_b.clone());
    let id = e.uuid();
    let mut collection = collection_with(e);

    let start = EncounterCommands::UpdateStage(UpdateStageCommand {
        id,
        stage: EncounterStageCmd::Start,
    });
    match encounter(&mut collection, start).unwrap() {
        EncounterCommandResponse::EncounterChanged(after) => {
            assert_eq!(after.get_active_character_id(), Some(character_a.uuid()));
        }
        _ => panic!("expected the changed encounter"),
    }

    let next = EncounterCommands::UpdateStage(UpdateStageCommand {
        id,
        stage: EncounterStageCmd::Next,
    });
    match encounter(&mut collection, next.clone()).unwrap() {
        EncounterCommandResponse::EncounterChanged(after) => {
            assert_eq!(after.get_active_character_id(), Some(character_b.uuid()));
            assert_eq!(after.last_active_character, Some(character_a.uuid()));
        }
        _ => panic!("expected the changed encounter"),
    }

    match encounter(&mut collection, next).unwrap() {
        EncounterCommandResponse::EncounterChanged(after) => {
            assert_eq!(after.get_active_character_id(), Some(character_a.uuid()));
            assert_eq!(after.last_active_character, Some(character_b.uuid()));
        }
        _ => panic!("expected the changed encounter"),
    }
}

#[test]
fn start_twice_reports_already_started() {
    let mut e = Encounter::new(String::from("Twice"));
    e.add_character(Character::new(String::from("Solo"), 10, 10));
    let id = e.uuid();
    let mut collection = collection_with(e);
    let start = EncounterCommands::UpdateStage(UpdateStageCommand {
        id,
        stage: EncounterStageCmd::Start,
    });
    encounter(&mut collection, start.clone()).unwrap();
    let result = encounter(&mut collection, start);
    assert_eq!(result.unwrap_err(), String::from("Encounter already started"));
}

#[test]
fn add_character_command_adds_valid_character() {
    let e = Encounter::new(String::from("Recruits"));
    let id = e.uuid();
    let mut collection = collection_with(e);
    let recruit = Character::new(String::from("Recruit"), 10, 10);
    let cmd = EncounterCommands::AddCharacter(AddCharacterCommand {
        id,
        character: recruit.clone(),
    });
    match encounter(&mut collection, cmd).unwrap() {
        EncounterCommandResponse::CharacterAdded(outcome) => {
            assert_eq!(outcome.encounter.get_characters(), vec![recruit]);
            assert!(outcome.character_change.is_empty());
        }
        _ => panic!("expected the add-character outcome"),
    }
}

#[test]
fn add_character_command_rejects_invalid_character() {
    let e = Encounter::new(String::from("Recruits"));
    let id = e.uuid();
    let mut collection = collection_with(e);
    let nameless = Character::new(String::from(""), 10, 10);
    let cmd = EncounterCommands::AddCharacter(AddCharacterCommand { id, character: nameless });
    match encounter(&mut collection, cmd).unwrap() {
        EncounterCommandResponse::CharacterAdded(outcome) => {
            assert_eq!(outcome.encounter.get_characters().len(), 0);
            assert_eq!(
                outcome.character_change.name,
                vec![FrontendMessage::error(String::from("Name cannot be empty"))]
            );
        }
        _ => panic!("expected the add-character outcome"),
    }
}

#[test]
fn update_name_to_empty_keeps_name_and_reports_error() {
    // UpdateName with an empty name: the character comes back unchanged and
    // the name message list carries exactly the validation error.
    let named = Character::new(String::from("Original Name"), 10, 10);
    let mut e = Encounter::new(String::from("Renames"));
    e.add_character(named.clone());
    let id = e.uuid();
    let mut collection = collection_with(e);
    let cmd = UpdateCharacterCommand::UpdateName { id: named.uuid(), name: String::from("") };
    let response = update_encounter_character(&mut collection, id, cmd).unwrap();
    match response {
        CharacterCommandResponse::UpdatedCharacter { character, messages } => {
            assert_eq!(character.name, "Original Name");
            assert_eq!(
                messages.name,
                vec![FrontendMessage::error(String::from("Name cannot be empty"))]
            );
            assert!(messages.initiative.is_empty());
            assert!(messages.hp.is_empty());
        }
    }
}

#[test]
fn update_character_unknown_ids_fail() {
    let stray = Character::new(String::from("Stray"), 10, 10);
    let e = Encounter::new(String::from("Empty"));
    let encounter_id = e.uuid();
    let mut collection = collection_with(e);

    let cmd = UpdateCharacterCommand::Damage { id: stray.uuid(), hp: 3 };
    let unknown_encounter = Encounter::new(String::from("Unknown"));
    let result = update_encounter_character(&mut collection, unknown_encounter.uuid(), cmd);
    assert_eq!(result.unwrap_err(), String::from("Encounter not found"));

    let cmd = UpdateCharacterCommand::Damage { id: stray.uuid(), hp: 3 };
    let result = update_encounter_character(&mut collection, encounter_id, cmd);
    assert_eq!(
        result.unwrap_err(),
        format!("Character with id {} not found", stray.id())
    );
}

#[test]
fn new_character_is_blank() {
    let character = new_character().unwrap();
    assert_eq!(character.name, "");
    assert_eq!(character.hp.current, 1);
    assert_eq!(character.hp.total, 1);
    assert_eq!(character.hp.temporary, 0);
    assert_eq!(character.initiative, 0);
    assert_eq!(character.initiative_modifier, 0);
}
