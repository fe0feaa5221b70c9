pub mod type_enum;
