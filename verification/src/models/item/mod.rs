pub mod armor_struct;
pub mod item_metadata;
pub mod item_field_filter;
pub mod item_struct;
pub mod shop_structs;
pub mod shield_struct;
pub mod weapon_struct;
