use vstd::prelude::*;

use crate::messages::{ActionRequest, Direction};

verus! {

/// Which of the movement keys (W, S, A, D) are held down.
#[derive(Debug, Clone, Copy, PartialEq, Eq, Structural)]
pub struct MoveKeys {
    pub forward: bool,
    pub back: bool,
    pub left: bool,
    pub right: bool,
}

/// The key events of one frame that can make up an action request: the sprint
/// key going down or up, and the keys for jump, drink, interact and attack
/// going down.
#[derive(Debug, Clone, Copy, PartialEq, Eq, Structural)]
pub struct ActionKeys {
    pub sprint_pressed: bool,
    pub sprint_released: bool,
    pub jump: bool,
    pub drink: bool,
    pub interact: bool,
    pub attack: bool,
}

/// One for a held key, zero otherwise.
pub open spec fn key_value(held: bool) -> int {
    if held { 1 } else { 0 }
}

/// The direction the held keys point to: right minus left across, forward
/// minus back along.
pub open spec fn key_direction_spec(keys: MoveKeys) -> Direction {
    Direction {
        x: (key_value(keys.right) - key_value(keys.left)) as i8,
        y: (key_value(keys.forward) - key_value(keys.back)) as i8,
    }
}

/// The direction the held keys point to.
pub fn key_direction(keys: MoveKeys) -> (d: Direction)
    ensures
        d == key_direction_spec(keys),
        d.is_unit_step(),
        d.x == (if keys.right { 1int } else { 0int }) - (if keys.left { 1int } else { 0int }),
        d.y == (if keys.forward { 1int } else { 0int }) - (if keys.back { 1int } else { 0int }),
{
    let mut x: i8 = 0;
    let mut y: i8 = 0;
    if keys.forward {
        y = y + 1;
    }
    if keys.back {
        y = y - 1;
    }
    if keys.left {
        x = x - 1;
    }
    if keys.right {
        x = x + 1;
    }
    Direction { x, y }
}

/// The movement input to send to the server for the held keys: nothing when
/// the keys cancel out or none is held, else the key direction with its two
/// coordinates swapped, which is the form the camera rotation takes.
pub fn movement_direction(keys: MoveKeys) -> (m: Option<Direction>)
    ensures
        match m {
            None => key_direction_spec(keys).is_zero(),
            Some(d) => !key_direction_spec(keys).is_zero()
                && d.x == key_direction_spec(keys).y
                && d.y == key_direction_spec(keys).x,
        },
        m is None <==> (keys.forward == keys.back && keys.left == keys.right),
        m matches Some(d) ==> d.x == (if keys.forward { 1int } else { 0int }) - (if keys.back {
            1int
        } else {
            0int
        }) && d.y == (if keys.right { 1int } else { 0int }) - (if keys.left { 1int } else { 0int }),
{
    let d = key_direction(keys);
    if d.x == 0 && d.y == 0 {
        None
    } else {
        Some(Direction { x: d.y, y: d.x })
    }
}

/// Whether the frame's key events make up an action request.
pub open spec fn keys_ask_action(keys: ActionKeys) -> bool {
    keys.sprint_pressed || keys.sprint_released || keys.jump || keys.drink || keys.interact
        || keys.attack
}

/// The action request for a frame's key events: sprinting is on while the
/// sprint key went down, and an event of the sprint key going up sends a
/// request that turns it off.
pub open spec fn action_from_keys_spec(keys: ActionKeys) -> Option<ActionRequest> {
    if keys_ask_action(keys) {
        Some(
            ActionRequest {
                attack: keys.attack,
                drink: keys.drink,
                interact: keys.interact,
                jump: keys.jump,
                sprint: keys.sprint_pressed,
            },
        )
    } else {
        None
    }
}

/// The action request to send for a frame's key events, if any.
pub fn action_from_keys(keys: ActionKeys) -> (r: Option<ActionRequest>)
    ensures
        r == action_from_keys_spec(keys),
        r is Some <==> (keys.sprint_pressed || keys.sprint_released || keys.jump || keys.drink
            || keys.interact || keys.attack),
        r matches Some(q) ==> q.drink == keys.drink && q.interact == keys.interact && q.attack
            == keys.attack && q.jump == keys.jump && q.sprint == keys.sprint_pressed,
{
    let mut request = ActionRequest {
        attack: false,
        drink: false,
        interact: false,
        jump: false,
        sprint: false,
    };
    let mut send = false;
    if keys.sprint_pressed {
        request.sprint = true;
        send = true;
    } else if keys.sprint_released {
        request.sprint = false;
        send = true;
    }
    if keys.jump {
        request.jump = true;
        send = true;
    }
    if keys.drink {
        request.drink = true;
        send = true;
    }
    if keys.interact {
        request.interact = true;
        send = true;
    }
    if keys.attack {
        request.attack = true;
        send = true;
    }
    if send {
        Some(request)
    } else {
        None
    }
}

/// Each coordinate of the key direction depends on its own pair of keys only:
/// across on left and right, along on forward and back, each key adding or
/// taking one.
pub proof fn lemma_key_direction_rules(keys: MoveKeys, other: MoveKeys)
    ensures
        key_direction_spec(keys).x == (if keys.right { 1int } else { 0int }) - (if keys.left {
            1int
        } else {
            0int
        }),
        key_direction_spec(keys).y == (if keys.forward { 1int } else { 0int }) - (if keys.back {
            1int
        } else {
            0int
        }),
        keys.left == other.left && keys.right == other.right ==> key_direction_spec(keys).x
            == key_direction_spec(other).x,
        keys.forward == other.forward && keys.back == other.back ==> key_direction_spec(keys).y
            == key_direction_spec(other).y,
{
}

/// A request carries each action exactly when its own key went down, and
/// sprint exactly when the sprint key went down; one is sent exactly when
/// some key event happened.
pub proof fn lemma_action_keys_rules(keys: ActionKeys)
    ensures
        action_from_keys_spec(keys) is Some <==> (keys.sprint_pressed || keys.sprint_released
            || keys.jump || keys.drink || keys.interact || keys.attack),
        action_from_keys_spec(keys) matches Some(q) ==> q.drink == keys.drink && q.interact
            == keys.interact && q.attack == keys.attack && q.jump == keys.jump && q.sprint
            == keys.sprint_pressed,
{
}

/// Keys held in opposite directions cancel out, and no movement is sent
/// when the held keys cancel out.
pub proof fn lemma_opposite_keys_cancel(keys: MoveKeys)
    requires
        keys.forward == keys.back,
        keys.left == keys.right,
    ensures
        key_direction_spec(keys).is_zero(),
{
}

} // verus!
