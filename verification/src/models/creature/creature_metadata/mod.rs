pub mod creature_role;
pub mod type_enum;
pub mod variant_enum;
