//! The conversation logic of a chat bot that tells the weather and the time in
//! cities, in a web chat and in Telegram: what it understands, what it answers,
//! and when it hangs up.
pub mod cities;
pub mod clock;
pub mod intent;
pub mod locale;
pub mod pages;
pub mod reply;
pub mod session;
pub mod settings;
pub mod telegram;
pub mod text;
pub mod weather;
