use lu_packets::catalog::Catalog;
use lu_packets::recipe::{kind_steps, priority_order, priority_rank, resolve, DecodeContext, LeafDecoder};
use lu_packets::replay::{ReplayError, ReplayUnit};

#[test]
fn priority_orders_ranked_kinds() {
    assert_eq!(priority_order(&vec![7, 1, 17]), vec![1, 7, 17]);
}

#[test]
fn unranked_kinds_sort_last_in_input_order() {
    assert_eq!(priority_order(&vec![55, 7, 68, 1, 3, 17]), vec![1, 7, 17, 55, 68, 3]);
    assert_eq!(priority_order(&vec![107, 2, 4, 1]), vec![1, 4, 2, 107]);
    assert_eq!(priority_order(&vec![68, 55]), vec![68, 55]);
}

#[test]
fn priority_ranks_follow_table() {
    let table = [1u32, 4, 2, 7, 9, 17, 107];
    for (i, k) in table.iter().enumerate() {
        assert_eq!(priority_rank(*k), i as u32);
    }
    assert_eq!(priority_rank(55), 7);
    assert_eq!(priority_rank(0), 7);
}

#[test]
fn player_construction_recipe() {
    let r = resolve(&vec![1, 2, 4, 7, 9, 17, 107], DecodeContext::Construction).unwrap();
    assert_eq!(
        r,
        vec![
            LeafDecoder::ControllablePhysicsConstruction,
            LeafDecoder::PossessionControlConstruction,
            LeafDecoder::LevelProgressionConstruction,
            LeafDecoder::PlayerForcedMovementConstruction,
            LeafDecoder::CharacterConstruction,
            LeafDecoder::FxConstruction,
            LeafDecoder::BuffConstruction,
            LeafDecoder::DestroyableConstruction,
            LeafDecoder::SkillConstruction,
            LeafDecoder::InventoryConstruction,
            LeafDecoder::BbbConstruction,
        ]
    );
}

#[test]
fn player_update_recipe() {
    let r = resolve(&vec![107, 17, 9, 7, 4, 2, 1], DecodeContext::Update).unwrap();
    assert_eq!(
        r,
        vec![
            LeafDecoder::ControllablePhysicsSerialization,
            LeafDecoder::PossessionControlSerialization,
            LeafDecoder::LevelProgressionSerialization,
            LeafDecoder::PlayerForcedMovementSerialization,
            LeafDecoder::CharacterSerialization,
            LeafDecoder::DestroyableSerialization,
            LeafDecoder::InventorySerialization,
            LeafDecoder::BbbSerialization,
        ]
    );
}

#[test]
fn resolve_is_repeatable() {
    let kinds = vec![17, 55, 4, 1, 68];
    for ctx in [DecodeContext::Construction, DecodeContext::Update] {
        assert_eq!(resolve(&kinds, ctx), resolve(&kinds, ctx));
        assert_eq!(resolve(&priority_order(&kinds), ctx), resolve(&kinds, ctx));
    }
}

#[test]
fn kinds_without_steps_are_legal() {
    assert_eq!(resolve(&vec![55, 68], DecodeContext::Construction), Ok(vec![]));
    assert_eq!(resolve(&vec![2, 9], DecodeContext::Update), Ok(vec![]));
    assert_eq!(kind_steps(9, DecodeContext::Update), Some(vec![]));
    assert_eq!(kind_steps(9, DecodeContext::Construction), Some(vec![LeafDecoder::SkillConstruction]));
}

#[test]
fn empty_component_set_resolves_to_empty_recipe() {
    assert_eq!(resolve(&vec![], DecodeContext::Construction), Ok(vec![]));
}

#[test]
fn unknown_kind_is_reported() {
    assert_eq!(resolve(&vec![1, 999, 4, 3], DecodeContext::Construction), Err(999));
    assert_eq!(kind_steps(999, DecodeContext::Update), None);
}

#[test]
fn unknown_kind_aborts_construction_with_template() {
    let mut catalog = Catalog::new();
    catalog.store(6010, vec![1, 42]);
    let mut unit = ReplayUnit::new();
    assert_eq!(
        unit.construct(&catalog, 3, 6010),
        Err(ReplayError::UnknownComponentKind { kind: 42, lot: 6010 })
    );
    assert!(!unit.plan_update(3).check_consumption);
}

#[test]
fn catalog_queries_each_template_once() {
    let mut catalog = Catalog::new();
    let mut queries = 0;
    for lot in [1u32, 1, 6010, 1, 6010] {
        if catalog.needs_query(lot) {
            queries += 1;
            catalog.store(lot, vec![1, 7]);
        }
        assert_eq!(catalog.get(lot), Some(&vec![1, 7]));
    }
    assert_eq!(queries, 2);
    assert_eq!(catalog.get(2), None);
}
