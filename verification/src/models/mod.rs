pub mod bestiary_structs;
pub mod creature;
pub mod creature_component;
pub mod creature_fields_enum;
pub mod creature_filter_enum;
pub mod creature_metadata;
pub mod creature_metadata_enums;
pub mod creature_sort_enums;
pub mod db;
pub mod hazard;
pub mod item;
pub mod pf_version_enum;
pub mod routers_validator_structs;
pub mod scales_struct;
pub mod shared;
