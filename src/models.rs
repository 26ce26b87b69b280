//! The records that gateway events and REST calls carry.
pub mod allowed_mentions;
pub mod application_command;
pub mod attachment;
pub mod author;
pub mod channel;
pub mod components;
pub mod deleted_message_response;
pub mod dm_channel;
pub mod embed;
pub mod embed_data;
pub mod emoji;
pub mod guild;
pub mod interaction;
pub mod member;
pub mod message_edit;
pub mod message_reference;
pub mod message_response;
pub mod misc;
pub mod reaction_response;
pub mod ready_response;
pub mod role;
pub mod role_response;
pub mod user;
pub mod embed_builder;
pub mod component_builder;
