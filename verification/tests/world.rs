use cs2_sdk::sdk::world::classify_world_item;

#[test]
fn world_item_weapons() {
    assert_eq!(classify_world_item("weapon_ak47"), (true, false));
    assert_eq!(classify_world_item("weapon_c4"), (true, false));
}

#[test]
fn world_item_projectiles() {
    assert_eq!(classify_world_item("hegrenade_projectile"), (false, true));
    assert_eq!(classify_world_item("x_projectile"), (false, true));
}

#[test]
fn world_item_both_flags() {
    assert_eq!(classify_world_item("weapon_x_projectile"), (true, true));
}

#[test]
fn world_item_short_names_are_neither() {
    assert_eq!(classify_world_item("weapon_"), (false, false));
    assert_eq!(classify_world_item("weapon_a"), (false, false));
    assert_eq!(classify_world_item("projectil"), (false, false));
    assert_eq!(classify_world_item(""), (false, false));
}

#[test]
fn world_item_other_names_are_neither() {
    assert_eq!(classify_world_item("planted_c4"), (false, false));
    assert_eq!(classify_world_item("Weapon_ak47"), (false, false));
    assert_eq!(classify_world_item("_projectiles"), (false, false));
}
