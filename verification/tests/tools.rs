use crop_time::tools::{reads_cursor, use_tools, HeldTool};

const EMPTY_HANDS: HeldTool = HeldTool { waters: false, plants: false };
const SEED_BAG: HeldTool = HeldTool { waters: false, plants: true };
const WATERING_CAN: HeldTool = HeldTool { waters: true, plants: false };

#[test]
fn seed_bag_plants_on_free_tile() {
    let used = use_tools(&vec![EMPTY_HANDS, SEED_BAG], true, &vec![false, false]);
    assert_eq!(used.planted, 1);
    assert_eq!(used.watered, Vec::<usize>::new());
}

#[test]
fn seed_bag_plants_on_empty_field() {
    let used = use_tools(&vec![SEED_BAG], true, &Vec::new());
    assert_eq!(used.planted, 1);
    assert_eq!(used.watered, Vec::<usize>::new());
}

#[test]
fn seed_bag_does_not_plant_on_taken_tile() {
    let used = use_tools(&vec![SEED_BAG], true, &vec![false, true, false]);
    assert_eq!(used.planted, 0);
    assert_eq!(used.watered, Vec::<usize>::new());
}

#[test]
fn nothing_happens_without_the_key() {
    let tools = vec![SEED_BAG, WATERING_CAN];
    let used = use_tools(&tools, false, &vec![true, false]);
    assert_eq!(used.planted, 0);
    assert_eq!(used.watered, Vec::<usize>::new());
    let used = use_tools(&tools, false, &vec![false, false]);
    assert_eq!(used.planted, 0);
    assert_eq!(used.watered, Vec::<usize>::new());
}

#[test]
fn watering_can_waters_crops_at_cursor() {
    let used = use_tools(&vec![WATERING_CAN], true, &vec![false, true, false, true]);
    assert_eq!(used.planted, 0);
    assert_eq!(used.watered, vec![1, 3]);
}

#[test]
fn watering_can_on_bare_tile_waters_nothing() {
    let used = use_tools(&vec![WATERING_CAN], true, &vec![false, false]);
    assert_eq!(used.planted, 0);
    assert_eq!(used.watered, Vec::<usize>::new());
}

#[test]
fn empty_hands_do_nothing() {
    let used = use_tools(&vec![EMPTY_HANDS], true, &vec![true]);
    assert_eq!(used.planted, 0);
    assert_eq!(used.watered, Vec::<usize>::new());
    let used = use_tools(&Vec::new(), true, &vec![false]);
    assert_eq!(used.planted, 0);
    assert_eq!(used.watered, Vec::<usize>::new());
}

#[test]
fn each_seed_bag_plants_once() {
    let used = use_tools(&vec![SEED_BAG, WATERING_CAN, SEED_BAG], true, &vec![false]);
    assert_eq!(used.planted, 2);
    assert_eq!(used.watered, Vec::<usize>::new());
}

#[test]
fn both_tools_on_taken_tile_only_water() {
    let used = use_tools(&vec![SEED_BAG, WATERING_CAN], true, &vec![true]);
    assert_eq!(used.planted, 0);
    assert_eq!(used.watered, vec![0]);
}

#[test]
fn tool_that_waters_and_plants_does_both_rules() {
    let both = HeldTool { waters: true, plants: true };
    let used = use_tools(&vec![both], true, &vec![false, false]);
    assert_eq!(used.planted, 1);
    assert_eq!(used.watered, Vec::<usize>::new());
    let used = use_tools(&vec![both], true, &vec![false, true]);
    assert_eq!(used.planted, 0);
    assert_eq!(used.watered, vec![1]);
}

#[test]
fn seed_bag_always_reads_the_cursor() {
    assert!(reads_cursor(&vec![SEED_BAG], false));
    assert!(reads_cursor(&vec![EMPTY_HANDS, SEED_BAG], true));
}

#[test]
fn watering_can_reads_the_cursor_on_key() {
    assert!(reads_cursor(&vec![WATERING_CAN], true));
    assert!(!reads_cursor(&vec![WATERING_CAN], false));
}

#[test]
fn empty_hands_never_read_the_cursor() {
    assert!(!reads_cursor(&vec![EMPTY_HANDS], true));
    assert!(!reads_cursor(&Vec::new(), true));
    assert!(!reads_cursor(&Vec::new(), false));
}
