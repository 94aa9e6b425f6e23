//! Engine for running tabletop-RPG combat encounters: a roster of characters
//! with hit-point and initiative bookkeeping, a turn-order rule, an encounter
//! turn-cursor state machine, and a command-dispatch layer that turns tagged
//! mutation requests into validated state transitions and responses.

pub mod character;
pub mod character_commands;
pub mod commands;
pub mod encounter;
pub mod ids;
pub mod messages;
pub mod order;

pub use character::Character;
pub use character::CharacterChangeMessages;
pub use character::HitPoints;
pub use character_commands::CharacterCommandResponse;
pub use character_commands::UpdateCharacterCommand;
pub use commands::AddCharacterCommand;
pub use commands::AddCharacterResult;
pub use commands::EncounterCommandResponse;
pub use commands::EncounterCommands;
pub use commands::EncounterStageCmd;
pub use commands::UpdateStageCommand;
pub use commands::encounter;
pub use commands::new_character;
pub use commands::update_encounter_character;
pub use encounter::Encounter;
pub use encounter::EncounterCollection;
pub use ids::Uid;
pub use messages::FrontendMessage;
pub use messages::FrontendMessageType;
