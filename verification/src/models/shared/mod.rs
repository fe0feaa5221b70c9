pub mod description;
pub mod game_system_enum;
pub mod pf_version_enum;
pub mod range_data;
