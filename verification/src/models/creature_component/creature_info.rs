use crate::models::creature::creature_metadata::creature_role::CreatureRoleEnum;
use vstd::prelude::*;

verus! {

/// What is known of a creature besides its statistics: how well it fits each role, in
/// the roles' order, and the locales it is described in.
#[derive(Clone, Debug)]
pub struct CreatureInfo {
    pub roles: Vec<(CreatureRoleEnum, i64)>,
    pub locale: Vec<String>,
}

} // verus!
