use dungeon_heroes::assets::{animation_path, model_path, Animation};
use dungeon_heroes::client::{action_from_keys, key_direction, movement_direction, ActionKeys, MoveKeys};
use dungeon_heroes::hero::{hero_class_at, hero_classes, HeroClass, HERO_CLASS_COUNT};
use dungeon_heroes::messages::{ActionRequest, Direction};
use dungeon_heroes::server::{
    locomotion_step, respond_to_action, respond_to_click, ActionResponse, ClickResponse, Gesture,
    LocomotionStep, Pace,
};
use dungeon_heroes::skeleton::SkeletonClass;

fn request(attack: bool, drink: bool, interact: bool, jump: bool, sprint: bool) -> ActionRequest {
    ActionRequest { attack, drink, interact, jump, sprint }
}

fn no_keys() -> ActionKeys {
    ActionKeys {
        sprint_pressed: false,
        sprint_released: false,
        jump: false,
        drink: false,
        interact: false,
        attack: false,
    }
}

#[test]
fn hero_names() {
    assert_eq!(HeroClass::Barbarian.to_string(), "Barbarian");
    assert_eq!(HeroClass::Knight.to_string(), "Knight");
    assert_eq!(HeroClass::Mage.to_string(), "Mage");
    assert_eq!(HeroClass::Rogue.to_string(), "Rogue");
    assert_eq!(HeroClass::Mage.as_str(), "Mage");
}

#[test]
fn skeleton_names() {
    assert_eq!(SkeletonClass::Minon.to_string(), "Minon");
    assert_eq!(SkeletonClass::Warrior.to_string(), "Warrior");
    assert_eq!(SkeletonClass::Shaman.to_string(), "Shaman");
    assert_eq!(SkeletonClass::Archer.to_string(), "Archer");
}

#[test]
fn names_are_distinct() {
    let heroes = hero_classes();
    for a in &heroes {
        for b in &heroes {
            assert_eq!(a.to_string() == b.to_string(), a == b);
        }
    }
    let skeletons = [
        SkeletonClass::Minon,
        SkeletonClass::Warrior,
        SkeletonClass::Shaman,
        SkeletonClass::Archer,
    ];
    for a in &skeletons {
        for b in &skeletons {
            assert_eq!(a.to_string() == b.to_string(), a == b);
        }
    }
}

#[test]
fn class_list_covers_every_class_once() {
    let heroes = hero_classes();
    assert_eq!(heroes.len(), HERO_CLASS_COUNT);
    assert_eq!(
        heroes,
        vec![HeroClass::Barbarian, HeroClass::Knight, HeroClass::Mage, HeroClass::Rogue]
    );
    for i in 0..HERO_CLASS_COUNT {
        assert_eq!(hero_class_at(i), heroes[i]);
    }
}

#[test]
fn model_paths() {
    assert_eq!(model_path(HeroClass::Barbarian), "characters/Barbarian/Barbarian.glb");
    assert_eq!(model_path(HeroClass::Rogue), "characters/Rogue/Rogue.glb");
}

#[test]
fn animation_paths() {
    assert_eq!(
        animation_path(HeroClass::Barbarian, Animation::Idle),
        "characters/Barbarian/Barbarian.glb/animations/Idle_36.anim"
    );
    assert_eq!(
        animation_path(HeroClass::Barbarian, Animation::Walking),
        "characters/Barbarian/Barbarian.glb/animations/Walking_B_73.anim"
    );
    assert_eq!(
        animation_path(HeroClass::Barbarian, Animation::Running),
        "characters/Barbarian/Barbarian.glb/animations/Running_A_48.anim"
    );
    assert_eq!(
        animation_path(HeroClass::Barbarian, Animation::Jump),
        "characters/Barbarian/Barbarian.glb/animations/Jump_Full_Short_39.anim"
    );
    assert_eq!(
        animation_path(HeroClass::Barbarian, Animation::Drink),
        "characters/Barbarian/Barbarian.glb/animations/Use_Item_71.anim"
    );
    assert_eq!(
        animation_path(HeroClass::Barbarian, Animation::Attack),
        "characters/Barbarian/Barbarian.glb/animations/1H_Melee_Attack_Slice_Diagonal_1.anim"
    );
    assert_eq!(
        animation_path(HeroClass::Barbarian, Animation::Interact),
        "characters/Barbarian/Barbarian.glb/animations/Interact_37.anim"
    );
}

#[test]
fn animation_path_extends_model_path() {
    for class in hero_classes() {
        let model = model_path(class);
        let clip = animation_path(class, Animation::Jump);
        assert!(clip.starts_with(&model));
    }
}

#[test]
fn looping_clips() {
    assert!(Animation::Idle.is_looping());
    assert!(Animation::Walking.is_looping());
    assert!(Animation::Running.is_looping());
    assert!(!Animation::Jump.is_looping());
    assert!(!Animation::Drink.is_looping());
    assert!(!Animation::Attack.is_looping());
    assert!(!Animation::Interact.is_looping());
}

#[test]
fn jump_only_from_ground() {
    let r = respond_to_action(request(false, false, false, true, false), true, false);
    assert_eq!(r, ActionResponse { start_jump: true, running: false, gesture: None });
    assert_eq!(r.final_animation(), Some(Animation::Jump));
    let r = respond_to_action(request(false, false, false, true, false), false, false);
    assert_eq!(r, ActionResponse { start_jump: false, running: false, gesture: None });
    assert_eq!(r.final_animation(), None);
}

#[test]
fn sprint_follows_request() {
    let r = respond_to_action(request(false, false, false, false, true), true, true);
    assert!(r.running);
    let r = respond_to_action(request(false, false, false, false, false), true, true);
    assert!(!r.running);
}

#[test]
fn gesture_priority_and_stillness() {
    let r = respond_to_action(request(true, true, true, false, false), true, false);
    assert_eq!(r.gesture, Some(Gesture::Drink));
    let r = respond_to_action(request(true, false, true, false, false), true, false);
    assert_eq!(r.gesture, Some(Gesture::Attack));
    let r = respond_to_action(request(false, false, true, false, false), true, false);
    assert_eq!(r.gesture, Some(Gesture::Interact));
    assert_eq!(r.final_animation(), Some(Animation::Interact));
    let r = respond_to_action(request(true, true, true, false, false), true, true);
    assert_eq!(r.gesture, None);
}

#[test]
fn gesture_clip_replaces_jump_clip() {
    let r = respond_to_action(request(false, true, false, true, false), true, false);
    assert!(r.start_jump);
    assert_eq!(r.final_animation(), Some(Animation::Drink));
    assert_eq!(Gesture::Attack.animation(), Animation::Attack);
}

#[test]
fn locomotion_steps() {
    assert_eq!(
        locomotion_step(true, true, true, true),
        LocomotionStep::Countdown(Some(Animation::Running))
    );
    assert_eq!(
        locomotion_step(true, true, true, false),
        LocomotionStep::Countdown(Some(Animation::Walking))
    );
    assert_eq!(locomotion_step(true, true, false, true), LocomotionStep::Countdown(None));
    assert_eq!(locomotion_step(false, true, true, true), LocomotionStep::Halt);
    assert_eq!(locomotion_step(false, false, true, true), LocomotionStep::Rest);
}

#[test]
fn click_responses() {
    assert_eq!(respond_to_click(false, true, true), ClickResponse::Ignore);
    assert_eq!(respond_to_click(true, false, true), ClickResponse::Face);
    assert_eq!(respond_to_click(true, true, true), ClickResponse::FaceAndMove(Pace::FrameTime));
    assert_eq!(
        respond_to_click(true, true, false),
        ClickResponse::FaceAndMove(Pace::SinceLastClick)
    );
}

#[test]
fn key_directions() {
    let keys = MoveKeys { forward: true, back: false, left: false, right: true };
    assert_eq!(key_direction(keys), Direction { x: 1, y: 1 });
    assert_eq!(movement_direction(keys), Some(Direction { x: 1, y: 1 }));
    let keys = MoveKeys { forward: true, back: false, left: true, right: false };
    assert_eq!(key_direction(keys), Direction { x: -1, y: 1 });
    assert_eq!(movement_direction(keys), Some(Direction { x: 1, y: -1 }));
    let keys = MoveKeys { forward: false, back: true, left: false, right: false };
    assert_eq!(movement_direction(keys), Some(Direction { x: -1, y: 0 }));
}

#[test]
fn opposite_keys_cancel() {
    let keys = MoveKeys { forward: true, back: true, left: true, right: true };
    assert_eq!(key_direction(keys), Direction { x: 0, y: 0 });
    assert_eq!(movement_direction(keys), None);
    let none = MoveKeys { forward: false, back: false, left: false, right: false };
    assert_eq!(movement_direction(none), None);
}

#[test]
fn action_keys() {
    assert_eq!(action_from_keys(no_keys()), None);
    let mut keys = no_keys();
    keys.sprint_pressed = true;
    assert_eq!(action_from_keys(keys), Some(request(false, false, false, false, true)));
    let mut keys = no_keys();
    keys.sprint_released = true;
    assert_eq!(action_from_keys(keys), Some(request(false, false, false, false, false)));
    let mut keys = no_keys();
    keys.jump = true;
    keys.attack = true;
    assert_eq!(action_from_keys(keys), Some(request(true, false, false, true, false)));
    let mut keys = no_keys();
    keys.drink = true;
    keys.interact = true;
    assert_eq!(action_from_keys(keys), Some(request(false, true, true, false, false)));
}

#[test]
fn releasing_sprint_stops_running() {
    let mut keys = no_keys();
    keys.sprint_released = true;
    let req = action_from_keys(keys).unwrap();
    assert!(!respond_to_action(req, true, true).running);
    let mut keys = no_keys();
    keys.sprint_pressed = true;
    let req = action_from_keys(keys).unwrap();
    assert!(respond_to_action(req, true, true).running);
}
