use voxel_world::camera::{next_camera_perspective, CameraPerspective};
use voxel_world::inventory::{Inventory, ItemId, Stash, DEFAULT_INVENTORY_SLOTS, DEFAULT_STASH_SLOTS};
use voxel_world::movement::{movement_axes, next_movement_state, MovementState};

/// Keys held during a frame.
#[derive(Clone, Copy, Default)]
struct Keys {
    w: bool,
    a: bool,
    s: bool,
    d: bool,
    shift_left: bool,
}

/// Runs `frames` fixed steps of the movement state machine with `keys` held.
fn run_movement(mut state: MovementState, keys: Keys, frames: usize) -> MovementState {
    for _ in 0..frames {
        let (x, y) = movement_axes(keys.w, keys.s, keys.a, keys.d);
        let is_moving = (x, y) != (0, 0);
        if let Some(next) = next_movement_state(is_moving, keys.shift_left, state) {
            state = next;
        }
    }
    state
}

#[test]
fn test_movement_state_changes_to_walking() {
    let keys = Keys { w: true, ..Keys::default() };
    let state = run_movement(MovementState::default(), keys, 5);
    assert_eq!(state, MovementState::Walking);
}

#[test]
fn test_movement_state_reverts_to_idle() {
    let keys = Keys { w: true, ..Keys::default() };
    let state_walking = run_movement(MovementState::default(), keys, 5);
    assert_eq!(state_walking, MovementState::Walking);

    let state_idle = run_movement(state_walking, Keys::default(), 5);
    assert_eq!(state_idle, MovementState::Idle);
}

#[test]
fn test_movement_state_changes_to_sprinting() {
    let keys = Keys { w: true, shift_left: true, ..Keys::default() };
    let state = run_movement(MovementState::default(), keys, 5);
    assert_eq!(state, MovementState::Sprinting, "State should be Sprinting");
}

#[test]
fn test_player_input_resource_is_updated() {
    let (x, y) = movement_axes(true, false, true, false);
    assert_eq!((x, y), (-1, 1));
    let length = ((x as f32) * (x as f32) + (y as f32) * (y as f32)).sqrt();
    let move_direction = (x as f32 / length, y as f32 / length);
    let expected = (-1.0f32 / 2.0f32.sqrt(), 1.0f32 / 2.0f32.sqrt());
    let dx = move_direction.0 - expected.0;
    let dy = move_direction.1 - expected.1;
    assert!(dx * dx + dy * dy < 1e-6, "Expected normalized vector");
}

#[test]
fn test_camera_perspective_toggles() {
    let initial_state = CameraPerspective::default();
    assert_eq!(initial_state, CameraPerspective::ThirdPerson, "Initial state should be ThirdPerson");

    // First toggle: to FirstPerson
    let next_state = next_camera_perspective(true, initial_state);
    assert_eq!(
        next_state,
        Some(CameraPerspective::FirstPerson),
        "State change to FirstPerson should be queued"
    );
    let first_person_state = next_state.unwrap();
    assert_eq!(
        first_person_state,
        CameraPerspective::FirstPerson,
        "State should be FirstPerson after toggle is applied"
    );

    // The key is released: nothing is queued.
    assert_eq!(next_camera_perspective(false, first_person_state), None);

    // Second toggle: back to ThirdPerson
    let next_state_2 = next_camera_perspective(true, first_person_state);
    assert_eq!(
        next_state_2,
        Some(CameraPerspective::ThirdPerson),
        "State change to ThirdPerson should be queued"
    );
}

#[test]
fn movement_state_holds_without_change() {
    assert_eq!(next_movement_state(true, false, MovementState::Walking), None);
    assert_eq!(next_movement_state(true, true, MovementState::Sprinting), None);
    assert_eq!(next_movement_state(false, true, MovementState::Idle), None);
    assert_eq!(
        next_movement_state(false, false, MovementState::Crouching),
        Some(MovementState::Idle)
    );
    assert_eq!(
        next_movement_state(true, false, MovementState::Sprinting),
        Some(MovementState::Walking)
    );
}

#[test]
fn opposing_keys_cancel() {
    assert_eq!(movement_axes(true, true, true, true), (0, 0));
    assert_eq!(movement_axes(false, false, false, false), (0, 0));
    assert_eq!(movement_axes(false, true, false, true), (1, -1));
    assert_eq!(movement_axes(true, false, false, false), (0, 1));
}

#[test]
fn inventories_start_empty() {
    let inventory = Inventory::default();
    assert_eq!(inventory.capacity, DEFAULT_INVENTORY_SLOTS);
    assert_eq!(inventory.items, vec![None; 10]);
    let stash = Stash::default();
    assert_eq!(stash.capacity, DEFAULT_STASH_SLOTS);
    assert_eq!(stash.items.len(), 100);
    assert!(stash.items.iter().all(|slot| slot.is_none()));
    assert_ne!(Some(ItemId(1)), stash.items[0]);
}
