//! A WhatsApp language-practice bot: the decisions, parsers and message texts
//! behind conversations between learners, teachers and exchange partners.

pub mod text;
pub mod phone;
pub mod db;
pub mod flow;
pub mod conversations;
pub mod history;
pub mod llm;
pub mod menu;
pub mod onboarding;
pub mod vocab;
pub mod reminders;
pub mod whatsapp;
pub mod bot;
