pub mod chat_type;
pub mod gender;
pub mod user;
