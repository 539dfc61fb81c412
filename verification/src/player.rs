//! The player's tank: its marker component and the material-replacement
//! request that recolours the tank model once its parts are loaded.

use vstd::prelude::*;

use crate::replace_material::ReplaceMaterial;

verus! {

/// Marks the player entity.
pub struct Player;

/// The name of the marker entity under which the player tank's
/// material-replacement request is filed.
pub fn player_replace_marker_name() -> (name: String)
    ensures
        name@ == "player_tank_replace"@,
{
    String::from_str("player_tank_replace")
}

/// The replacement request armed for the player's tank: swap the materials
/// of the tank's three named parts for `material`.
pub fn tank_material_replacement(material: u64) -> (request: ReplaceMaterial)
    ensures
        request@.replacement == Some(material),
        request@.targets.len() == 3,
        request@.targets[0]@ == "TankBase"@,
        request@.targets[1]@ == "Turret"@,
        request@.targets[2]@ == "TurretGun"@,
{
    let mut targets: Vec<String> = Vec::new();
    targets.push(String::from_str("TankBase"));
    targets.push(String::from_str("Turret"));
    targets.push(String::from_str("TurretGun"));
    ReplaceMaterial { targets, replacement: Option::Some(material) }
}

} // verus!
