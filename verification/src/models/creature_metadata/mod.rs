pub mod alignment_enum;
pub mod creature_role;
pub mod rarity_enum;
pub mod size_enum;
pub mod type_enum;
pub mod variant_enum;
