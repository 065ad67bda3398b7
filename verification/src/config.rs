//! The records that the configuration files hold, as the library sees them.
use crate::enums_types::{AnimationType, SoundType};
use std::collections::{HashMap, HashSet};
use vstd::prelude::*;

verus! {

/// The bones of a skeleton that items attach to, by bone id.
#[derive(Clone, Copy, Debug, PartialEq, Eq, Structural)]
pub struct ItemBones {
    pub rh: usize,
    pub lh: usize,
}

/// The bones of a skeleton that items attach to, by bone name.
#[derive(Debug, Clone)]
pub struct ItemBoneNames {
    pub rh: String,
    pub lh: String,
}

/// The per-clip settings of an animated entity type.
#[derive(Debug, Clone)]
pub struct AnimationPropHelper {
    pub name: AnimationType,
    pub one_shots: HashMap<SoundType, Vec<u32>>,
    pub continuous_sounds: Vec<SoundType>,
    pub hurtbox_activation: Vec<u32>,
    pub hold_frame: Option<u32>,
}

/// The factions that exist in the world.
#[derive(Debug)]
pub struct FactionsConfig {
    pub factions: HashSet<String>,
}

impl Default for FactionsConfig {
    fn default() -> (c: Self)
        ensures
            c.factions@ == Set::<String>::empty(),
    {
        Self { factions: HashSet::new() }
    }
}

/// The actions of each weapon type, by weapon type name.
#[derive(Debug, Clone, Default)]
pub struct WeaponAnimMapHelper {
    pub weapon_types: HashMap<String, WeaponActionsHelper>,
}

/// The animation names of a weapon type's basic attack chain, dash and block. The
/// chain turns as basic attacks are made; `basic_chain_default` keeps the order it
/// starts from, to which an attack reset returns.
#[derive(Debug, Clone, Default)]
pub struct WeaponActionsHelper {
    pub basic_chain: Vec<String>,
    pub basic_chain_default: Vec<String>,
    pub dash: String,
    pub block: String,
}

} // verus!
