use rustaga::input::{
    copy_action_state, movement_pressed, read_slot_states, slot_pressed, Ability, AbilitySlotMap,
    ActionData, Movement, RawInput, Slot, SLOT_COUNT,
};

fn no_slots_pressed() -> Vec<bool> {
    vec![false; SLOT_COUNT]
}

#[test]
fn slot_is_pressed_by_any_of_its_bindings() {
    let pairs = vec![
        (RawInput::MouseLeft, Slot::Primary),
        (RawInput::KeyZ, Slot::Primary),
        (RawInput::KeyX, Slot::Secondary),
    ];
    assert!(slot_pressed(&pairs, &vec![RawInput::KeyZ], Slot::Primary));
    assert!(slot_pressed(&pairs, &vec![RawInput::MouseLeft], Slot::Primary));
    assert!(!slot_pressed(&pairs, &vec![RawInput::KeyZ], Slot::Secondary));
    assert!(!slot_pressed(&pairs, &vec![], Slot::Primary));
}

#[test]
fn movement_is_pressed_by_any_of_its_bindings() {
    let pairs = vec![
        (RawInput::KeyA, Movement::Left),
        (RawInput::ArrowLeft, Movement::Left),
        (RawInput::KeyD, Movement::Right),
    ];
    assert!(movement_pressed(&pairs, &vec![RawInput::ArrowLeft], Movement::Left));
    assert!(!movement_pressed(&pairs, &vec![RawInput::ArrowLeft], Movement::Right));
}

#[test]
fn holding_an_input_edges_only_on_the_first_frame() {
    let pairs = vec![(RawInput::Space, Slot::Ability1)];
    let down = vec![RawInput::Space];

    let frame1 = read_slot_states(&pairs, &down, &no_slots_pressed());
    let idx = Slot::Ability1.index();
    assert!(frame1[idx].pressed);
    assert!(frame1[idx].just_pressed);

    let remembered: Vec<bool> = frame1.iter().map(|d| d.pressed).collect();
    let frame2 = read_slot_states(&pairs, &down, &remembered);
    assert!(frame2[idx].pressed);
    assert!(!frame2[idx].just_pressed);
}

#[test]
fn releasing_an_input_sets_just_released() {
    let pairs = vec![(RawInput::Space, Slot::Ability1)];
    let frame1 = read_slot_states(&pairs, &vec![RawInput::Space], &no_slots_pressed());
    let remembered: Vec<bool> = frame1.iter().map(|d| d.pressed).collect();
    let frame2 = read_slot_states(&pairs, &vec![], &remembered);
    let idx = Slot::Ability1.index();
    assert!(!frame2[idx].pressed);
    assert!(!frame2[idx].just_pressed);
    assert!(frame2[idx].just_released);
}

#[test]
fn copy_stage_relabels_the_bound_slot_onto_its_ability() {
    let mut map = AbilitySlotMap::new();
    map.insert(Slot::Primary, Ability::ShootBullet);
    let pairs = vec![(RawInput::MouseLeft, Slot::Primary)];
    let slot_st = read_slot_states(&pairs, &vec![RawInput::MouseLeft], &no_slots_pressed());
    let ability_st = copy_action_state(&map, &slot_st);
    let shoot = ability_st[Ability::ShootBullet.index()];
    assert!(shoot.pressed && shoot.just_pressed);
    let bomb = ability_st[Ability::Bomb.index()];
    assert_eq!(
        bomb,
        ActionData { pressed: false, just_pressed: false, just_released: false },
    );
}

#[test]
fn copy_stage_lets_the_last_slot_in_order_win() {
    let mut map = AbilitySlotMap::new();
    map.insert(Slot::Primary, Ability::Bomb);
    map.insert(Slot::Secondary, Ability::Bomb);
    let pairs = vec![(RawInput::MouseLeft, Slot::Primary)];
    // Primary is pressed, Secondary is not; the later slot's idle
    // record is the one copied onto Bomb.
    let slot_st = read_slot_states(&pairs, &vec![RawInput::MouseLeft], &no_slots_pressed());
    let ability_st = copy_action_state(&map, &slot_st);
    assert!(!ability_st[Ability::Bomb.index()].pressed);
}

#[test]
fn unmapped_abilities_read_idle() {
    let map = AbilitySlotMap::new();
    let pairs = vec![(RawInput::MouseLeft, Slot::Primary)];
    let slot_st = read_slot_states(&pairs, &vec![RawInput::MouseLeft], &no_slots_pressed());
    let ability_st = copy_action_state(&map, &slot_st);
    for a in [Ability::Evade, Ability::Bomb, Ability::ShootBullet] {
        assert!(!ability_st[a.index()].pressed);
        assert!(!ability_st[a.index()].just_pressed);
    }
}
