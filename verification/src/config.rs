pub mod enums;
pub mod layers;
pub mod layout;
pub mod user_config;
