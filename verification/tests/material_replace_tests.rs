//! The material-replacement pass over a scene modelled on the player tank.

use tank_demo::player::{player_replace_marker_name, tank_material_replacement};
use tank_demo::replace_material::ReplaceMaterial;
use tank_demo::scene::Scene;
use tank_demo::systems::material_replace::ReplaceMaterialSystem;

const OLD_MATERIAL: u64 = 1;
const BLUE_MATERIAL: u64 = 5;

/// The player scene as the level sets it up: a player root, a named marker
/// entity carrying the replacement request, the tank model's root, and the
/// tank's three named, textured parts.
fn tank_scene() -> Scene {
    Scene {
        names: vec![
            None,                                // 0: player root
            Some(player_replace_marker_name()),  // 1: replacement marker
            None,                                // 2: tank model root
            Some("TankBase".to_string()),        // 3
            Some("Turret".to_string()),          // 4
            Some("TurretGun".to_string()),       // 5
        ],
        parents: vec![None, Some(0), Some(1), Some(2), Some(2), Some(2)],
        materials: vec![
            None,
            None,
            None,
            Some(OLD_MATERIAL),
            Some(OLD_MATERIAL),
            Some(OLD_MATERIAL),
        ],
        replacements: vec![
            None,
            Some(tank_material_replacement(BLUE_MATERIAL)),
            None,
            None,
            None,
            None,
        ],
    }
}

#[test]
fn the_tank_parts_get_the_new_material() {
    let mut scene = tank_scene();
    ReplaceMaterialSystem.run(&mut scene);
    assert_eq!(scene.materials[3], Some(BLUE_MATERIAL));
    assert_eq!(scene.materials[4], Some(BLUE_MATERIAL));
    assert_eq!(scene.materials[5], Some(BLUE_MATERIAL));
}

#[test]
fn a_fulfilled_request_is_disarmed() {
    let mut scene = tank_scene();
    ReplaceMaterialSystem.run(&mut scene);
    let request = scene.replacements[1].as_ref().unwrap();
    assert!(request.targets.is_empty());
    assert_eq!(request.replacement, None);
}

#[test]
fn entities_outside_the_marker_subtree_keep_their_material() {
    let mut scene = tank_scene();
    // A stray part with a target name, but parented to the player root
    // rather than to the marker entity.
    scene.names.push(Some("TankBase".to_string()));
    scene.parents.push(Some(0));
    scene.materials.push(Some(OLD_MATERIAL));
    scene.replacements.push(None);
    ReplaceMaterialSystem.run(&mut scene);
    assert_eq!(scene.materials[6], Some(OLD_MATERIAL));
    // Its name was already struck by the real tank part, so the request
    // still empties and disarms.
    assert_eq!(scene.replacements[1].as_ref().unwrap().replacement, None);
}

#[test]
fn only_the_first_entity_of_a_name_is_replaced_in_one_pass() {
    let mut scene = tank_scene();
    // A second descendant named like an already-listed target.
    scene.names.push(Some("Turret".to_string()));
    scene.parents.push(Some(2));
    scene.materials.push(Some(OLD_MATERIAL));
    scene.replacements.push(None);
    ReplaceMaterialSystem.run(&mut scene);
    assert_eq!(scene.materials[4], Some(BLUE_MATERIAL));
    assert_eq!(scene.materials[6], Some(OLD_MATERIAL));
}

#[test]
fn a_disarmed_request_does_nothing() {
    let mut scene = tank_scene();
    scene.replacements[1] = Some(ReplaceMaterial {
        targets: vec!["TankBase".to_string()],
        replacement: None,
    });
    ReplaceMaterialSystem.run(&mut scene);
    assert_eq!(scene.materials[3], Some(OLD_MATERIAL));
    let request = scene.replacements[1].as_ref().unwrap();
    assert_eq!(request.targets, vec!["TankBase".to_string()]);
    assert_eq!(request.replacement, None);
}

#[test]
fn unmatched_targets_stay_listed() {
    let mut scene = tank_scene();
    // Take the turret gun out of the scene.
    scene.names[5] = None;
    ReplaceMaterialSystem.run(&mut scene);
    assert_eq!(scene.materials[3], Some(BLUE_MATERIAL));
    assert_eq!(scene.materials[4], Some(BLUE_MATERIAL));
    let request = scene.replacements[1].as_ref().unwrap();
    assert_eq!(request.targets, vec!["TurretGun".to_string()]);
    assert_eq!(request.replacement, Some(BLUE_MATERIAL));
}

#[test]
fn an_entity_without_a_material_is_not_touched() {
    let mut scene = tank_scene();
    scene.materials[4] = None;
    ReplaceMaterialSystem.run(&mut scene);
    assert_eq!(scene.materials[4], None);
    let request = scene.replacements[1].as_ref().unwrap();
    assert_eq!(request.targets, vec!["Turret".to_string()]);
}

#[test]
fn an_empty_scene_passes_through() {
    let mut scene =
        Scene { names: vec![], parents: vec![], materials: vec![], replacements: vec![] };
    ReplaceMaterialSystem.run(&mut scene);
    assert_eq!(scene.entity_count(), 0);
}

#[test]
fn a_second_pass_changes_nothing_more() {
    let mut scene = tank_scene();
    ReplaceMaterialSystem.run(&mut scene);
    let materials_after_one = scene.materials.clone();
    ReplaceMaterialSystem.run(&mut scene);
    assert_eq!(scene.materials, materials_after_one);
    let request = scene.replacements[1].as_ref().unwrap();
    assert!(request.targets.is_empty());
    assert_eq!(request.replacement, None);
}

#[test]
fn ancestor_search_spans_the_whole_chain() {
    let scene = tank_scene();
    assert_eq!(scene.entity_count(), 6);
    let marker = player_replace_marker_name();
    // The deepest part sits three links below the marker entity.
    assert!(scene.has_ancestor_with_name(5, &marker));
    assert!(scene.has_ancestor_with_name(2, &marker));
    assert!(!scene.has_ancestor_with_name(1, &marker));
    assert!(!scene.has_ancestor_with_name(0, &marker));
}

#[test]
fn target_list_helpers_read_and_strike_names() {
    let request = tank_material_replacement(BLUE_MATERIAL);
    assert!(request.contains_target(&"Turret".to_string()));
    assert!(!request.contains_target(&"Hull".to_string()));
    let smaller = request.without_target(&"Turret".to_string());
    assert!(!smaller.contains_target(&"Turret".to_string()));
    assert_eq!(smaller.targets, vec!["TankBase".to_string(), "TurretGun".to_string()]);
    assert!(!smaller.targets_done());
    assert_eq!(smaller.replacement, Some(BLUE_MATERIAL));
}
