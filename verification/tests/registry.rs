use game_fight::GameFight;
use game_fight::HeroError;

#[test]
fn test_create_hero() {
    let mut contract = GameFight::new("bob_near".to_string());

    let hero_one: usize = contract.create_hero("bob_near".to_string(), "Kha_Banh".to_string());
    assert_eq!(hero_one, 0);

    let hero_two: usize = contract.create_hero("bob_near".to_string(), "Huan_Rose".to_string());
    assert_eq!(hero_two, 1);
}

#[test]
fn test_edit_hero() {
    let mut contract = GameFight::new("bob_near".to_string());

    let hero_one: usize = contract.create_hero("bob_near".to_string(), "Kha_Banh".to_string());
    assert_eq!(hero_one, 0);

    let hero_two: usize = contract.create_hero("bob_near".to_string(), "Huan_Rose".to_string());
    assert_eq!(hero_two, 1);

    contract
        .edit_hero("bob_near".to_string(), hero_one, "Kha_Banh_Super".to_string())
        .unwrap();

    let hero_khabanh = contract.get_hero(hero_one).unwrap();

    assert_eq!(hero_khabanh.name.to_string(), "Kha_Banh_Super".to_string());
}

#[test]
fn test_lvlup_hero() {
    let mut contract = GameFight::new("bob_near".to_string());

    let hero_one: usize = contract.create_hero("bob_near".to_string(), "Kha_Banh".to_string());
    assert_eq!(hero_one, 0);

    assert_eq!(contract.get_hero(hero_one).unwrap().level, 0);

    contract.lvlup_hero("bob_near".to_string(), hero_one).unwrap();
    assert_eq!(contract.get_hero(hero_one).unwrap().level, 1);
}

#[test]
fn test_create_hero_initial_fields() {
    let mut contract = GameFight::new("alice_near".to_string());

    let id: usize = contract.create_hero("carol_near".to_string(), "X".to_string());
    let hero = contract.get_hero(id).unwrap();

    assert_eq!(hero.owner, "carol_near".to_string());
    assert_eq!(hero.name, "X".to_string());
    assert_eq!(hero.level, 0);
    assert_eq!(hero.health, 100);
    assert_eq!(hero.damage, 0);
    assert_eq!(hero.id, id);
}

#[test]
fn test_create_hero_empty_name() {
    let mut contract = GameFight::new("alice_near".to_string());

    let id: usize = contract.create_hero("bob_near".to_string(), "".to_string());
    assert_eq!(contract.get_hero(id).unwrap().name, "".to_string());
}

#[test]
fn test_lvlup_hero_increments_level_and_health() {
    let mut contract = GameFight::new("alice_near".to_string());

    let id: usize = contract.create_hero("bob_near".to_string(), "Hero".to_string());
    contract.lvlup_hero("bob_near".to_string(), id).unwrap();

    let hero = contract.get_hero(id).unwrap();
    assert_eq!(hero.level, 1);
    assert_eq!(hero.health, 150);
    assert_eq!(hero.damage, 0);
    assert_eq!(hero.owner, "bob_near".to_string());
    assert_eq!(hero.name, "Hero".to_string());

    contract.lvlup_hero("bob_near".to_string(), id).unwrap();
    let hero = contract.get_hero(id).unwrap();
    assert_eq!(hero.level, 2);
    assert_eq!(hero.health, 200);
}

#[test]
fn test_lvlup_hero_by_other_caller_unauthorized() {
    let mut contract = GameFight::new("alice_near".to_string());

    let id: usize = contract.create_hero("bob_near".to_string(), "Hero".to_string());
    let err = contract.lvlup_hero("carol_near".to_string(), id).unwrap_err();
    assert_eq!(err, HeroError::NotHeroOwner);

    let hero = contract.get_hero(id).unwrap();
    assert_eq!(hero.level, 0);
    assert_eq!(hero.health, 100);
}

#[test]
fn test_edit_hero_requires_registry_owner_and_hero_owner() {
    let mut contract = GameFight::new("alice_near".to_string());

    let bobs: usize = contract.create_hero("bob_near".to_string(), "Bobs".to_string());
    let alices: usize = contract.create_hero("alice_near".to_string(), "Alices".to_string());

    // Not the registry owner: refused before anything else.
    let err = contract
        .edit_hero("bob_near".to_string(), bobs, "Renamed".to_string())
        .unwrap_err();
    assert_eq!(err, HeroError::NotRegistryOwner);
    assert_eq!(contract.get_hero(bobs).unwrap().name, "Bobs".to_string());

    // Registry owner, but not the hero's owner.
    let err = contract
        .edit_hero("alice_near".to_string(), bobs, "Renamed".to_string())
        .unwrap_err();
    assert_eq!(err, HeroError::NotHeroOwner);
    assert_eq!(contract.get_hero(bobs).unwrap().name, "Bobs".to_string());

    // Simultaneously registry owner and hero owner: succeeds.
    contract
        .edit_hero("alice_near".to_string(), alices, "Renamed".to_string())
        .unwrap();
    assert_eq!(contract.get_hero(alices).unwrap().name, "Renamed".to_string());
    assert_eq!(contract.get_hero(alices).unwrap().level, 0);
}

#[test]
fn test_delete_hero_by_registry_owner() {
    let mut contract = GameFight::new("alice_near".to_string());

    let id: usize = contract.create_hero("bob_near".to_string(), "Hero".to_string());
    contract.delete_hero("alice_near".to_string(), id).unwrap();

    assert_eq!(contract.get_hero(id).unwrap_err(), HeroError::NotFound);
    assert_eq!(contract.get_all_hero().len(), 0);
}

#[test]
fn test_delete_hero_by_other_caller_unauthorized() {
    let mut contract = GameFight::new("alice_near".to_string());

    let id: usize = contract.create_hero("bob_near".to_string(), "Hero".to_string());
    let err = contract.delete_hero("bob_near".to_string(), id).unwrap_err();
    assert_eq!(err, HeroError::NotRegistryOwner);

    // The record is still retrievable.
    assert_eq!(contract.get_hero(id).unwrap().name, "Hero".to_string());
}

#[test]
fn test_missing_id_not_found() {
    let mut contract = GameFight::new("alice_near".to_string());

    assert_eq!(contract.get_hero(7).unwrap_err(), HeroError::NotFound);
    assert_eq!(
        contract
            .edit_hero("alice_near".to_string(), 7, "Name".to_string())
            .unwrap_err(),
        HeroError::NotFound
    );
    assert_eq!(
        contract.lvlup_hero("alice_near".to_string(), 7).unwrap_err(),
        HeroError::NotFound
    );

    // Deleting an absent id is a silent no-op for the registry owner.
    contract.delete_hero("alice_near".to_string(), 7).unwrap();
}

#[test]
fn test_get_all_hero_lists_records_in_creation_order() {
    let mut contract = GameFight::new("alice_near".to_string());

    assert_eq!(contract.get_all_hero().len(), 0);

    contract.create_hero("bob_near".to_string(), "First".to_string());
    contract.create_hero("carol_near".to_string(), "Second".to_string());

    let all = contract.get_all_hero();
    assert_eq!(all.len(), 2);
    assert_eq!(all[0].name, "First".to_string());
    assert_eq!(all[0].id, 0);
    assert_eq!(all[1].name, "Second".to_string());
    assert_eq!(all[1].id, 1);
}

#[test]
fn test_create_ids_are_sequential_without_deletions() {
    let mut contract = GameFight::new("alice_near".to_string());

    for expected in 0..5usize {
        let id: usize = contract.create_hero("bob_near".to_string(), "Hero".to_string());
        assert_eq!(id, expected);
        assert_eq!(contract.get_hero(id).unwrap().id, id);
    }
}

#[test]
fn test_create_after_delete_reuses_count_as_id() {
    let mut contract = GameFight::new("alice_near".to_string());

    let first: usize = contract.create_hero("bob_near".to_string(), "First".to_string());
    let second: usize = contract.create_hero("bob_near".to_string(), "Second".to_string());
    assert_eq!(first, 0);
    assert_eq!(second, 1);

    contract.delete_hero("alice_near".to_string(), first).unwrap();

    // One record is left, so the next id is 1 — which collides with the
    // stored record and overwrites it.
    let third: usize = contract.create_hero("carol_near".to_string(), "Third".to_string());
    assert_eq!(third, 1);

    let all = contract.get_all_hero();
    assert_eq!(all.len(), 1);
    assert_eq!(contract.get_hero(1).unwrap().name, "Third".to_string());
    assert_eq!(contract.get_hero(1).unwrap().owner, "carol_near".to_string());
}

#[test]
fn test_end_to_end_scenario() {
    let mut contract = GameFight::new("bob_near".to_string());

    let first: usize = contract.create_hero("bob_near".to_string(), "Kha_Banh".to_string());
    assert_eq!(first, 0);
    let second: usize = contract.create_hero("bob_near".to_string(), "Huan_Rose".to_string());
    assert_eq!(second, 1);

    contract.lvlup_hero("bob_near".to_string(), 0).unwrap();
    assert_eq!(contract.get_hero(0).unwrap().level, 1);
    assert_eq!(contract.get_hero(0).unwrap().health, 150);

    let err = contract.lvlup_hero("carol_near".to_string(), 0).unwrap_err();
    assert_eq!(err, HeroError::NotHeroOwner);
    assert_eq!(contract.get_hero(0).unwrap().level, 1);
    assert_eq!(contract.get_hero(0).unwrap().health, 150);
    assert_eq!(contract.get_hero(1).unwrap().level, 0);
}

#[test]
fn test_from_records_round_trip_and_duplicate_ids() {
    let mut contract = GameFight::new("alice_near".to_string());
    let id: usize = contract.create_hero("bob_near".to_string(), "A".to_string());
    contract.lvlup_hero("bob_near".to_string(), id).unwrap();

    // The stored records rebuild the same registry.
    let reloaded =
        GameFight::from_records("alice_near".to_string(), contract.get_all_hero()).unwrap();
    assert_eq!(reloaded.get_hero(id).unwrap().name, "A".to_string());
    assert_eq!(reloaded.get_hero(id).unwrap().level, 1);
    assert_eq!(reloaded.get_hero(id).unwrap().health, 150);

    // Records with a shared id are refused.
    let all = contract.get_all_hero();
    let mut dup = Vec::new();
    dup.push(all[0].clone());
    dup.push(all[0].clone());
    assert!(GameFight::from_records("alice_near".to_string(), dup).is_none());
}
