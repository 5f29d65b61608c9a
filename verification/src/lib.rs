//! A conversational chat-bot core: conversation state machines, tool binding,
//! prompt assembly and message shaping, with their contracts.

pub mod text;
pub mod numeric;
pub mod json;
pub mod media;
pub mod chat_format;
pub mod conversation;
pub mod messaging;
pub mod discord;
pub mod tools;
pub mod binding;
pub mod conversation_machine;
pub mod framework;
pub mod conversation_laws;
pub mod base_prompt;
pub mod hive_service_prompt;
pub mod hive_connection_prompt;
pub mod hive_user;
pub mod user;
pub mod memory_manager;
pub mod reminder;
pub mod bot;
pub mod model_pack;
pub mod roles;
pub mod prompting;
pub mod summarize;
pub mod tool_exec;
pub mod searxng;
pub mod skills;
pub mod html_to_markdown;
pub mod extractor;
pub mod render;
pub mod thinking;
pub mod hive_pages;
pub mod hive_life_cycle;
