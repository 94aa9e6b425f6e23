use initiative_engine::{
    Character, CharacterChangeMessages, CharacterCommandResponse, Encounter,
    UpdateCharacterCommand,
};

#[test]
fn test_new_encounter() {
    let name = String::from("Test Encounter");
    let encounter = Encounter::new(name.clone());
    assert_eq!(encounter.name, name);
    assert_eq!(encounter.characters.len(), 0);
    assert_eq!(encounter.id().len(), 36);
}

#[test]
fn add_character() {
    let mut encounter = Encounter::new(String::from("Test Encounter"));
    let character = Character::new(String::from("Test Character"), 10, 10);
    encounter.add_character(character.clone());
    encounter.add_character(character.clone());
    assert_eq!(encounter.get_characters().len(), 1);
}

#[test]
fn remove_character() {
    let mut encounter = Encounter::new(String::from("Test Encounter"));
    let character_a = Character::new(String::from("Character A"), 10, 10);
    let character_b = Character::new(String::from("Character B"), 10, 5);
    encounter.add_character(character_a.clone());
    encounter.add_character(character_b.clone());
    encounter.remove_character(character_a.clone());
    assert_eq!(encounter.get_characters(), vec![character_b]);
}

#[test]
fn auto_sorts_new_characters() {
    let mut encounter = Encounter::new(String::from("Test Encounter"));
    let character1 = Character::new(String::from("Test Character 1"), 10, 10);
    let character2 = Character::new(String::from("Test Character 2"), 10, 20);
    encounter.add_character(character2.clone());
    encounter.add_character(character1.clone());
    assert_eq!(encounter.get_characters()[0].name, character2.name);
    assert_eq!(encounter.get_characters()[1].name, character1.name);
}

#[test]
fn find_character() {
    let mut encounter = Encounter::new(String::from("Test Encounter"));
    let character1 = Character::new(String::from("Test Character 1"), 10, 10);
    let character2 = Character::new(String::from("Test Character 2"), 10, 20);
    encounter.add_character(character1.clone());

    assert_eq!(encounter.find_character(character1.uuid()).unwrap().name, character1.name);
    assert_eq!(encounter.find_character(character2.uuid()), None);
}

#[test]
fn update_character_command() {
    let mut encounter = Encounter::new(String::from("Test Encounter"));
    let character1 = Character::new(String::from("Test Character 1"), 10, 10);
    encounter.add_character(character1.clone());

    let cmd = UpdateCharacterCommand::UpdateName {
        id: character1.uuid(),
        name: String::from("New Name"),
    };

    let response = encounter.update_character(cmd).unwrap();
    let updated_character = encounter.find_character(character1.uuid()).unwrap();
    assert_eq!(
        response,
        CharacterCommandResponse::UpdatedCharacter {
            character: updated_character.clone(),
            messages: CharacterChangeMessages::none(),
        }
    );

    let cmd = UpdateCharacterCommand::UpdateInitiative { id: character1.uuid(), initiative: 20 };

    let response = encounter.update_character(cmd).unwrap();
    let updated_character = encounter.find_character(character1.uuid()).unwrap();
    assert_eq!(
        response,
        CharacterCommandResponse::UpdatedCharacter {
            character: updated_character.clone(),
            messages: CharacterChangeMessages::none(),
        }
    );
}

#[test]
fn active_character() {
    let mut encounter = Encounter::new(String::from("Test Encounter"));
    let character1 = Character::new(String::from("Test Character 1"), 10, 10);
    let character2 = Character::new(String::from("Test Character 2"), 10, 10);
    encounter.add_character(character1.clone());
    encounter.add_character(character2.clone());

    assert_eq!(encounter.get_active_character_id(), None);
    // Uses the first character
    encounter.start().unwrap();
    assert_eq!(encounter.get_active_character_id(), Some(character1.uuid()));

    // Moves next
    encounter.next().unwrap();
    assert_eq!(encounter.get_active_character_id(), Some(character2.uuid()));

    // Wraps
    encounter.next().unwrap();
    assert_eq!(encounter.get_active_character_id(), Some(character1.uuid()));

    encounter.next().unwrap();
    assert_eq!(encounter.get_active_character_id(), Some(character2.uuid()));

    let result = encounter.start();
    assert!(result.is_err());
    assert_eq!(result.unwrap_err(), String::from("Encounter already started"));
}

#[test]
fn next_character_sets_active_character() {
    let mut encounter = Encounter::new(String::from("Test Encounter"));
    let character1 = Character::new(String::from("Test Character 1"), 10, 10);
    let character2 = Character::new(String::from("Test Character 2"), 10, 10);
    encounter.add_character(character1.clone());
    encounter.add_character(character2.clone());

    encounter.next().unwrap();

    assert_eq!(encounter.get_active_character_id(), Some(character1.uuid()));
}

#[test]
fn allow_restarting_a_character() {
    let mut encounter = Encounter::new(String::from("Test Encounter"));
    let character1 = Character::new(String::from("Test Character 1"), 10, 10);
    let character2 = Character::new(String::from("Test Character 2"), 10, 10);
    let character3 = Character::new(String::from("Test Character 3"), 10, 10);
    encounter.add_character(character1.clone());
    encounter.add_character(character2.clone());
    encounter.add_character(character3.clone());

    encounter.next().unwrap();
    encounter.next().unwrap();
    assert_eq!(encounter.get_active_character_id(), Some(character2.uuid()));

    encounter.pause().unwrap();
    assert_eq!(encounter.get_active_character_id(), None);

    encounter.restart().unwrap();
    assert_eq!(encounter.get_active_character_id(), Some(character2.uuid()));
}

#[test]
fn restart_encounter() {
    let mut encounter = Encounter::new(String::from("Test Encounter"));
    let character1 = Character::new(String::from("Test Character 1"), 10, 10);
    let character2 = Character::new(String::from("Test Character 2"), 10, 10);
    encounter.add_character(character1.clone());
    encounter.add_character(character2.clone());

    encounter.restart().unwrap();
    assert_eq!(encounter.get_active_character_id(), Some(character1.uuid()));

    encounter.next().unwrap();
    assert_eq!(encounter.get_active_character_id(), Some(character2.uuid()));

    encounter.restart().unwrap();
    assert_eq!(encounter.get_active_character_id(), Some(character1.uuid()));
}

#[test]
fn stop_encounter() {
    let mut encounter = Encounter::new(String::from("Test Encounter"));
    let character1 = Character::new(String::from("Test Character 1"), 10, 10);
    let character2 = Character::new(String::from("Test Character 2"), 10, 10);
    encounter.add_character(character1.clone());
    encounter.add_character(character2.clone());

    encounter.start().unwrap();
    assert_eq!(encounter.get_active_character_id(), Some(character1.uuid()));

    encounter.next().unwrap();
    assert_eq!(encounter.get_active_character_id(), Some(character2.uuid()));

    encounter.stop().unwrap();
    assert_eq!(encounter.get_active_character_id(), None);

    encounter.restart().unwrap();
    assert_eq!(encounter.get_active_character_id(), Some(character1.uuid()));
}
