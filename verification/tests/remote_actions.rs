use dc_mods::multiplayer::apply::{
    begin_remote_action, end_remote_action, rollback_calls, world_call_for, ActionFields, Undo,
    WorldCall,
};
use dc_mods::multiplayer::carry::{detect_carry_transition, CarryAction};
use dc_mods::multiplayer::state::{init_state, with_state, JoinState, MultiplayerState};
use dc_mods::multiplayer::sync::ActionKind;

fn fields(kind: ActionKind, object_id: &str) -> ActionFields {
    ActionFields {
        kind,
        object_id: object_id.to_string(),
        object_type: 3,
        prefab_id: 12,
        rack_position_uid: 42,
        is_on: true,
        key: "hostname".to_string(),
        value: "web-1".to_string(),
        cable_id: 99,
        start_type: 1,
        start_device_id: "dev_a".to_string(),
        end_type: 2,
        end_device_id: "dev_b".to_string(),
    }
}

#[test]
fn each_action_kind_maps_to_its_game_call() {
    assert_eq!(
        world_call_for(&fields(ActionKind::ObjectPickedUp, "srv_1")),
        WorldCall::Pickup { object_id: "srv_1".to_string() }
    );
    assert_eq!(
        world_call_for(&fields(ActionKind::ObjectDropped, "srv_1")),
        WorldCall::Drop { object_id: "srv_1".to_string() }
    );
    assert_eq!(
        world_call_for(&fields(ActionKind::InstalledInRack, "srv_1")),
        WorldCall::PlaceInRack { object_id: "srv_1".to_string(), rack_position_uid: 42 }
    );
    assert_eq!(
        world_call_for(&fields(ActionKind::RemovedFromRack, "srv_1")),
        WorldCall::RemoveFromRack { object_id: "srv_1".to_string() }
    );
    assert_eq!(
        world_call_for(&fields(ActionKind::PowerToggled, "sw_1")),
        WorldCall::SetPower { object_id: "sw_1".to_string(), is_on: true }
    );
    assert_eq!(
        world_call_for(&fields(ActionKind::PropertyChanged, "srv_2")),
        WorldCall::SetProperty {
            object_id: "srv_2".to_string(),
            key: "hostname".to_string(),
            value: "web-1".to_string()
        }
    );
    assert_eq!(
        world_call_for(&fields(ActionKind::CableConnected, "")),
        WorldCall::ConnectCable {
            cable_id: 99,
            start_type: 1,
            start_device_id: "dev_a".to_string(),
            end_type: 2,
            end_device_id: "dev_b".to_string()
        }
    );
    assert_eq!(
        world_call_for(&fields(ActionKind::CableDisconnected, "")),
        WorldCall::DisconnectCable { cable_id: 99 }
    );
    assert_eq!(
        world_call_for(&fields(ActionKind::ObjectSpawned, "pp_7")),
        WorldCall::Spawn { object_id: "pp_7".to_string(), object_type: 3, prefab_id: 12 }
    );
    assert_eq!(
        world_call_for(&fields(ActionKind::ObjectDestroyed, "pp_7")),
        WorldCall::Destroy { object_id: "pp_7".to_string() }
    );
}

#[test]
fn rollback_undoes_each_kind() {
    assert!(rollback_calls(&Undo::Nothing).is_empty());
    assert_eq!(
        rollback_calls(&Undo::Pickup { object_id: "a".into() }),
        vec![WorldCall::Drop { object_id: "a".into() }]
    );
    assert_eq!(
        rollback_calls(&Undo::Install { object_id: "a".into() }),
        vec![
            WorldCall::RemoveFromRack { object_id: "a".into() },
            WorldCall::Drop { object_id: "a".into() }
        ]
    );
    assert_eq!(
        rollback_calls(&Undo::PowerToggle { object_id: "sw".into(), was_on: false }),
        vec![WorldCall::SetPower { object_id: "sw".into(), is_on: false }]
    );
    assert_eq!(
        rollback_calls(&Undo::PropertyChange {
            object_id: "s".into(),
            key: "k".into(),
            old_value: "old".into()
        }),
        vec![WorldCall::SetProperty { object_id: "s".into(), key: "k".into(), value: "old".into() }]
    );
    assert_eq!(
        rollback_calls(&Undo::CableConnect { cable_id: 7 }),
        vec![WorldCall::DisconnectCable { cable_id: 7 }]
    );
    assert_eq!(
        rollback_calls(&Undo::Destroy { object_type: 1, prefab_id: 4 }),
        vec![WorldCall::Respawn { object_type: 1, prefab_id: 4 }]
    );
}

#[test]
fn remote_action_flag_silences_carry_detection() {
    let mut s: MultiplayerState<()> = MultiplayerState::new();
    s.session.is_host = true;
    s.session.connected = true;
    begin_remote_action(&mut s);
    assert!(s.executing_remote_action);
    assert_eq!(detect_carry_transition(&mut s, 1), CarryAction::Nothing);
    end_remote_action(&mut s);
    assert!(!s.executing_remote_action);
    s.carry.prev_count = 0;
    assert_eq!(detect_carry_transition(&mut s, 1), CarryAction::Pickup);
}

#[test]
fn state_is_made_once_and_starts_idle() {
    let mut slot: Option<MultiplayerState<()>> = None;
    assert_eq!(with_state(&mut slot, |s| s.session.join_state), None);
    init_state(&mut slot);
    assert_eq!(with_state(&mut slot, |s| s.session.join_state), Some(JoinState::Idle));
    with_state(&mut slot, |s| s.session.is_host = true);
    init_state(&mut slot);
    assert_eq!(with_state(&mut slot, |s| s.session.is_host), Some(true));
}
