pub mod hazard_field_filter;
pub mod hazard_listing_struct;
