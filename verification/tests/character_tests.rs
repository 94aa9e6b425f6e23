use initiative_engine::{Character, CharacterChangeMessages, FrontendMessage};

#[test]
fn test_new_character() {
    let name = String::from("Test Character");
    let total_hp = 10;
    let initiative = 10;
    let character = Character::new(name.clone(), total_hp, initiative);
    assert_eq!(character.name, name);
    assert_eq!(character.hp.current, total_hp);
    assert_eq!(character.hp.total, total_hp);
    assert_eq!(character.hp.temporary, 0);
    assert_eq!(character.initiative, initiative);
    assert_eq!(character.initiative_modifier, 0);
    assert_eq!(character.id().len(), 36);
}

#[test]
fn test_is_same_as() {
    let name = String::from("Test Character");
    let total_hp = 10;
    let initiative = 10;
    let character = Character::new(name.clone(), total_hp, initiative);
    let other_character = Character::new(name.clone(), total_hp, initiative);
    let cloned_character = character.clone();
    assert_eq!(character.is_same_as(&other_character), false);
    assert_eq!(character.is_same_as(&cloned_character), true);
}

#[test]
fn test_is_similar_to() {
    let name = String::from("Test Character");
    let total_hp = 10;
    let initiative = 10;
    let character = Character::new(name.clone(), total_hp, initiative);
    let other_character = Character::new(name.clone(), total_hp, initiative);
    let cloned_character = character.clone();
    assert_eq!(character.is_similar_to(&other_character), true);
    assert_eq!(character.is_similar_to(&cloned_character), true);
}

#[test]
fn test_partial_ordering() {
    let total_hp = 10;
    let character_a = Character::new(String::from("character a"), total_hp, 10);
    let character_b = Character::new(String::from("character b"), total_hp, 9);
    let character_c = Character::new(String::from("character c"), total_hp, 11);
    let mut character_d = Character::new(String::from("character d"), total_hp, 10);
    let mut character_e = Character::new(String::from("character e"), total_hp, 10);
    character_d.initiative_modifier = 18;
    character_e.initiative_modifier = 5;

    let expected_order: [Character; 5] = [
        character_c.clone(),
        character_d.clone(),
        character_e.clone(),
        character_a.clone(),
        character_b.clone(),
    ];

    let mut characters = vec![
        character_a.clone(),
        character_b.clone(),
        character_c.clone(),
        character_d.clone(),
        character_e.clone(),
    ];
    characters.sort_by(|a, b| a.partial_cmp(b).unwrap());
    assert_eq!(characters, expected_order.to_vec());
}

#[test]
fn test_damage_and_heal() {
    let total_hp = 10;
    let mut character_a = Character::new(String::from("character a"), total_hp, 10);

    character_a.damage(5);
    assert_eq!(character_a.hp.current, 5);
    character_a.damage(10);
    assert_eq!(character_a.hp.current, 0);

    character_a.heal(5);
    assert_eq!(character_a.hp.current, 5);
    character_a.heal(10);
    assert_eq!(character_a.hp.current, 10);

    character_a.set_temporary_hp(10);
    assert_eq!(character_a.hp.current, 10);
    assert_eq!(character_a.hp.temporary, 10);

    character_a.damage(5);
    assert_eq!(character_a.hp.current, 10);
    assert_eq!(character_a.hp.temporary, 5);

    character_a.damage(10);
    assert_eq!(character_a.hp.current, 5);
    assert_eq!(character_a.hp.temporary, 0);
}

#[test]
fn test_hp_values() {
    let total_hp = 10;
    let mut character_a = Character::new(String::from("character a"), total_hp, 10);

    assert_eq!(character_a.hp.current, 10);
    assert_eq!(character_a.hp.total, 10);
    assert_eq!(character_a.hp.temporary, 0);

    character_a.set_total_hp(20);
    assert_eq!(character_a.hp.current, 10);

    character_a.set_total_hp(5);
    assert_eq!(character_a.hp.current, 5);

    character_a.set_current_hp(0);
    assert_eq!(character_a.hp.current, 0);

    character_a.set_current_hp(10);
    assert_eq!(character_a.hp.current, 5);

    character_a.set_current_hp(-1);
    assert_eq!(character_a.hp.current, 0);

    character_a.set_total_hp(-1);
    assert_eq!(character_a.hp.total, 1);

    character_a.set_temporary_hp(5);
    assert_eq!(character_a.hp.temporary, 5);

    character_a.set_temporary_hp(-5);
    assert_eq!(character_a.hp.temporary, 0);
}

#[test]
fn test_set_initiative() {
    let total_hp = 10;
    let mut character_a = Character::new(String::from("character a"), total_hp, 10);

    assert_eq!(character_a.initiative, 10);

    character_a.set_initiative(5);
    assert_eq!(character_a.initiative, 5);

    character_a.set_initiative(-21);
    assert_eq!(character_a.initiative, -20);
}

#[test]
fn test_set_initiative_modifier() {
    let total_hp = 10;
    let mut character_a = Character::new(String::from("character a"), total_hp, 10);

    assert_eq!(character_a.initiative_modifier, 0);

    character_a.set_initiative_modifier(5);
    assert_eq!(character_a.initiative_modifier, 5);

    character_a.set_initiative_modifier(-21);
    assert_eq!(character_a.initiative_modifier, -20);
}

#[test]
fn test_set_name() {
    let total_hp = 10;
    let mut character_a = Character::new(String::from("character a"), total_hp, 10);

    assert_eq!(character_a.name, "character a");

    let result = character_a.set_name(String::from("character b"));
    assert!(result.is_ok());
    assert_eq!(character_a.name, "character b");

    let result = character_a.set_name(String::from(""));
    assert!(result.is_err());
    assert_eq!(character_a.name, "character b");
    assert_eq!(result.err().unwrap(), "Name cannot be empty");
}

#[test]
fn test_validation_messages() {
    let total_hp = 10;
    let character_a = Character::new(String::from("character a"), total_hp, 10);

    let messages = character_a.validation_messages();
    assert_eq!(messages, CharacterChangeMessages::none());

    let total_hp = 10;
    let character_a = Character::new(String::from(""), total_hp, 10);
    let messages = character_a.validation_messages();
    assert!(!messages.name.is_empty());
    assert!(messages.hp.is_empty());
    assert!(messages.initiative.is_empty());

    assert!(messages.name.contains(&FrontendMessage::error(String::from("Name cannot be empty"))));
}
