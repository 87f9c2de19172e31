use lu_packets::catalog::Catalog;
use lu_packets::recipe::LeafDecoder;
use lu_packets::replay::{entry_action, EntryAction, ReplayError, ReplayUnit};

fn player_catalog() -> Catalog {
    let mut catalog = Catalog::new();
    catalog.store(1, vec![1, 2, 4, 7, 9, 17, 107]);
    catalog
}

#[test]
fn construction_binds_update_recipe() {
    let catalog = player_catalog();
    let mut unit = ReplayUnit::new();
    let c = unit.construct(&catalog, 7, 1).unwrap();
    assert_eq!(c.len(), 11);
    let plan = unit.plan_update(7);
    assert!(plan.check_consumption);
    assert_eq!(plan.steps.len(), 8);
    assert_eq!(plan.steps[0], LeafDecoder::ControllablePhysicsSerialization);
}

#[test]
fn construction_with_leftover_bytes_fails() {
    let mut unit = ReplayUnit::new();
    assert_eq!(
        unit.finish_entry(EntryAction::Construct, false, 120, 3),
        Err(ReplayError::IncompleteConsumption { declared: 120, remaining: 3 })
    );
    assert_eq!(unit.packet_count(), 0);
    assert_eq!(unit.finish_entry(EntryAction::Construct, false, 120, 0), Ok(()));
    assert_eq!(unit.packet_count(), 1);
}

#[test]
fn update_of_unknown_handle_skips_check() {
    let mut unit = ReplayUnit::new();
    let plan = unit.plan_update(44);
    assert!(plan.steps.is_empty());
    assert!(!plan.check_consumption);
    assert_eq!(unit.finish_entry(EntryAction::Update, plan.check_consumption, 37, 37), Ok(()));
    assert_eq!(unit.packet_count(), 1);
}

#[test]
fn reset_forgets_handles_of_previous_unit() {
    let catalog = player_catalog();
    let mut unit = ReplayUnit::new();
    unit.construct(&catalog, 9, 1).unwrap();
    assert_eq!(unit.finish_entry(EntryAction::Construct, false, 10, 0), Ok(()));
    assert!(unit.plan_update(9).check_consumption);
    unit.begin_unit();
    let plan = unit.plan_update(9);
    assert!(!plan.check_consumption);
    assert!(plan.steps.is_empty());
    assert_eq!(unit.packet_count(), 1);
}

#[test]
fn other_handles_keep_their_recipe() {
    let mut catalog = player_catalog();
    catalog.store(4, vec![55]);
    let mut unit = ReplayUnit::new();
    unit.construct(&catalog, 1, 1).unwrap();
    assert_eq!(unit.construct(&catalog, 2, 4), Ok(vec![]));
    let plan = unit.plan_update(2);
    assert!(plan.check_consumption);
    assert!(plan.steps.is_empty());
    assert_eq!(unit.plan_update(1).steps.len(), 8);
}

#[test]
fn entry_actions_follow_categories() {
    assert_eq!(entry_action("0001_[53-01-00-00]_[00].bin"), EntryAction::DecodeAuthServer);
    assert_eq!(entry_action("0002_[53-04-00-01]_[00].bin"), EntryAction::DecodeWorld);
    assert_eq!(entry_action("0003_[53-05-00-02]_[00].bin"), EntryAction::DecodeWorld);
    assert_eq!(entry_action("0004_[24]_[00-01] (1).bin"), EntryAction::Construct);
    assert_eq!(entry_action("0005_[27]_[00-01].bin"), EntryAction::Update);
    assert_eq!(entry_action("0006_[53-04-00-16]_[00].bin"), EntryAction::Skip);
    assert_eq!(entry_action("0007_[53-01-00-00] 1 of 2.bin"), EntryAction::Skip);
}

#[test]
fn fixed_schema_entries_are_checked() {
    let mut unit = ReplayUnit::new();
    for action in [EntryAction::DecodeAuthServer, EntryAction::DecodeWorld, EntryAction::Construct] {
        assert_eq!(
            unit.finish_entry(action, false, 9, 1),
            Err(ReplayError::IncompleteConsumption { declared: 9, remaining: 1 })
        );
    }
    assert_eq!(unit.finish_entry(EntryAction::Update, true, 9, 1),
        Err(ReplayError::IncompleteConsumption { declared: 9, remaining: 1 }));
    assert_eq!(unit.packet_count(), 0);
}
