use vstd::prelude::*;

use crate::assets::Animation;
use crate::client::{action_from_keys_spec, ActionKeys};
use crate::messages::ActionRequest;

verus! {

/// A one-shot action a hero performs standing still.
#[derive(Debug, Clone, Copy, PartialEq, Eq, Structural)]
pub enum Gesture {
    Drink,
    Attack,
    Interact,
}

impl Gesture {
    /// The clip that shows the gesture.
    pub open spec fn animation_spec(self) -> Animation {
        match self {
            Gesture::Drink => Animation::Drink,
            Gesture::Attack => Animation::Attack,
            Gesture::Interact => Animation::Interact,
        }
    }

    /// The clip that shows the gesture.
    pub fn animation(&self) -> (a: Animation)
        ensures
            a == self.animation_spec(),
            !a.loops(),
            *self == Gesture::Drink ==> a == Animation::Drink,
            *self == Gesture::Attack ==> a == Animation::Attack,
            *self == Gesture::Interact ==> a == Animation::Interact,
    {
        match self {
            Gesture::Drink => Animation::Drink,
            Gesture::Attack => Animation::Attack,
            Gesture::Interact => Animation::Interact,
        }
    }
}

/// What the server does with a player's action request.
#[derive(Debug, Clone, Copy, PartialEq, Eq, Structural)]
pub struct ActionResponse {
    /// The hero starts a jump: its jumping flag is set and the jump clip plays.
    pub start_jump: bool,
    /// The hero's running flag after the request.
    pub running: bool,
    /// The gesture whose clip is restarted and played, if any.
    pub gesture: Option<Gesture>,
}

/// The response to an action request: a jump only from the ground, the
/// running flag set to what the request says, and, only while the hero is
/// not moving, the first of drink, attack and interact that is asked for.
pub open spec fn action_response_spec(
    request: ActionRequest,
    on_ground: bool,
    moving: bool,
) -> ActionResponse {
    ActionResponse {
        start_jump: request.jump && on_ground,
        running: request.sprint,
        gesture: if moving {
            None
        } else if request.drink {
            Some(Gesture::Drink)
        } else if request.attack {
            Some(Gesture::Attack)
        } else if request.interact {
            Some(Gesture::Interact)
        } else {
            None
        },
    }
}

impl ActionResponse {
    /// The clip the hero shows once the response is applied: a gesture's
    /// clip replaces the jump clip, and with neither the clip is unchanged.
    pub open spec fn final_animation_spec(self) -> Option<Animation> {
        match self.gesture {
            Some(g) => Some(g.animation_spec()),
            None => if self.start_jump {
                Some(Animation::Jump)
            } else {
                None
            },
        }
    }

    /// The clip the hero shows once the response is applied, if it changes.
    pub fn final_animation(&self) -> (a: Option<Animation>)
        ensures
            a == self.final_animation_spec(),
            a is None <==> (self.gesture is None && !self.start_jump),
            self.gesture is None && self.start_jump ==> a == Some(Animation::Jump),
            self.gesture == Some(Gesture::Drink) ==> a == Some(Animation::Drink),
            self.gesture == Some(Gesture::Attack) ==> a == Some(Animation::Attack),
            self.gesture == Some(Gesture::Interact) ==> a == Some(Animation::Interact),
    {
        match self.gesture {
            Some(g) => Some(g.animation()),
            None => if self.start_jump {
                Some(Animation::Jump)
            } else {
                None
            },
        }
    }
}

/// Decides how the server answers an action request from a hero that is or
/// is not on the ground and is or is not moving.
pub fn respond_to_action(request: ActionRequest, on_ground: bool, moving: bool) -> (r:
    ActionResponse)
    ensures
        r == action_response_spec(request, on_ground, moving),
        r.running == request.sprint,
        r.start_jump == (request.jump && on_ground),
        r.gesture is Some ==> !moving,
        !moving ==> (r.gesture == Some(Gesture::Drink) <==> request.drink),
        !moving ==> (r.gesture == Some(Gesture::Attack) <==> (request.attack && !request.drink)),
        !moving ==> (r.gesture == Some(Gesture::Interact) <==> (request.interact && !request.drink
            && !request.attack)),
        r.gesture is None <==> (moving || !(request.drink || request.attack || request.interact)),
{
    let start_jump = request.jump && on_ground;
    let running = request.sprint;
    let gesture = if request.drink && !moving {
        Some(Gesture::Drink)
    } else if request.attack && !moving {
        Some(Gesture::Attack)
    } else if request.interact && !moving {
        Some(Gesture::Interact)
    } else {
        None
    };
    ActionResponse { start_jump, running, gesture }
}

/// What the server does with a hero's locomotion countdown on one tick.
#[derive(Debug, Clone, Copy, PartialEq, Eq, Structural)]
pub enum LocomotionStep {
    /// Store the countdown less the frame's time; with a clip, also mark the
    /// hero as moving and play that clip.
    Countdown(Option<Animation>),
    /// The countdown ran out: clear it and the speed, mark the hero as not
    /// moving and play the idle clip.
    Halt,
    /// Nothing changes.
    Rest,
}

/// The locomotion step, given whether time is left once the frame's time is
/// taken off the countdown, whether the countdown was still running before
/// (above the smallest positive time), whether the hero has a positive speed
/// and whether it is running.
pub open spec fn locomotion_step_spec(
    time_left: bool,
    was_counting: bool,
    speed_positive: bool,
    running: bool,
) -> LocomotionStep {
    if time_left {
        if speed_positive {
            LocomotionStep::Countdown(
                Some(
                    if running {
                        Animation::Running
                    } else {
                        Animation::Walking
                    },
                ),
            )
        } else {
            LocomotionStep::Countdown(None)
        }
    } else if was_counting {
        LocomotionStep::Halt
    } else {
        LocomotionStep::Rest
    }
}

/// Decides one tick of a hero's locomotion countdown.
pub fn locomotion_step(time_left: bool, was_counting: bool, speed_positive: bool, running: bool) -> (s:
    LocomotionStep)
    ensures
        s == locomotion_step_spec(time_left, was_counting, speed_positive, running),
        s is Halt <==> (!time_left && was_counting),
        s is Rest <==> (!time_left && !was_counting),
        s is Countdown <==> time_left,
        s == LocomotionStep::Countdown(Some(Animation::Running)) <==> (time_left && speed_positive
            && running),
        s == LocomotionStep::Countdown(Some(Animation::Walking)) <==> (time_left && speed_positive
            && !running),
        s == LocomotionStep::Countdown(None) <==> (time_left && !speed_positive),
{
    if time_left {
        if speed_positive {
            if running {
                LocomotionStep::Countdown(Some(Animation::Running))
            } else {
                LocomotionStep::Countdown(Some(Animation::Walking))
            }
        } else {
            LocomotionStep::Countdown(None)
        }
    } else if was_counting {
        LocomotionStep::Halt
    } else {
        LocomotionStep::Rest
    }
}

/// The time base for the speed of a hero set off by a click.
#[derive(Debug, Clone, Copy, PartialEq, Eq, Structural)]
pub enum Pace {
    /// The hero was at rest: scale its speed by the frame's time.
    FrameTime,
    /// The hero was moving: scale its speed by the time since the last click.
    SinceLastClick,
}

/// What the server does with a click on the ground.
#[derive(Debug, Clone, Copy, PartialEq, Eq, Structural)]
pub enum ClickResponse {
    /// The click hit nothing, or something other than the ground.
    Ignore,
    /// Turn the hero towards the point and note the time of the click.
    Face,
    /// Turn the hero, set it running towards the point at the given pace,
    /// restart its locomotion countdown and note the time of the click.
    FaceAndMove(Pace),
}

/// The response to a click, given whether the click ray hit the ground,
/// whether the point is at least the smallest move distance away, and whether
/// the hero was at rest (no speed above the smallest positive time, or no
/// time noted of an earlier click).
pub open spec fn click_response_spec(hit_ground: bool, far_enough: bool, at_rest: bool) -> ClickResponse {
    if !hit_ground {
        ClickResponse::Ignore
    } else if !far_enough {
        ClickResponse::Face
    } else if at_rest {
        ClickResponse::FaceAndMove(Pace::FrameTime)
    } else {
        ClickResponse::FaceAndMove(Pace::SinceLastClick)
    }
}

/// Decides how the server answers a player's click.
pub fn respond_to_click(hit_ground: bool, far_enough: bool, at_rest: bool) -> (r: ClickResponse)
    ensures
        r == click_response_spec(hit_ground, far_enough, at_rest),
        r is Ignore <==> !hit_ground,
        r == ClickResponse::Face <==> (hit_ground && !far_enough),
        r == ClickResponse::FaceAndMove(Pace::FrameTime) <==> (hit_ground && far_enough && at_rest),
        r == ClickResponse::FaceAndMove(Pace::SinceLastClick) <==> (hit_ground && far_enough
            && !at_rest),
{
    if !hit_ground {
        return ClickResponse::Ignore;
    }
    if far_enough {
        let pace = if at_rest {
            Pace::FrameTime
        } else {
            Pace::SinceLastClick
        };
        ClickResponse::FaceAndMove(pace)
    } else {
        ClickResponse::Face
    }
}

/// A hero that is moving performs no gesture, whatever it asks for; and a
/// request that asks for nothing changes nothing but turns running off.
pub proof fn lemma_action_response_laws(request: ActionRequest, on_ground: bool, moving: bool)
    ensures
        moving ==> action_response_spec(request, on_ground, moving).gesture is None,
        !request.asks_anything() ==> action_response_spec(request, on_ground, moving)
            == (ActionResponse { start_jump: false, running: false, gesture: None }),
{
}

/// A jump starts exactly when it is asked for and the hero stands on the
/// ground, whether or not the hero is moving; the running flag is the
/// request's sprint; a gesture needs the hero to stand still, and drink goes
/// before attack, which goes before interact.
pub proof fn lemma_action_response_rules(request: ActionRequest, on_ground: bool, moving: bool)
    ensures
        action_response_spec(request, on_ground, moving).start_jump == (request.jump && on_ground),
        action_response_spec(request, on_ground, true).start_jump == action_response_spec(
            request,
            on_ground,
            false,
        ).start_jump,
        action_response_spec(request, on_ground, moving).running == request.sprint,
        moving ==> action_response_spec(request, on_ground, moving).gesture is None,
        !moving && request.drink ==> action_response_spec(request, on_ground, moving).gesture
            == Some(Gesture::Drink),
        !moving && !request.drink && request.attack ==> action_response_spec(
            request,
            on_ground,
            moving,
        ).gesture == Some(Gesture::Attack),
        !moving && !request.drink && !request.attack && request.interact ==> action_response_spec(
            request,
            on_ground,
            moving,
        ).gesture == Some(Gesture::Interact),
        !(request.drink || request.attack || request.interact) ==> action_response_spec(
            request,
            on_ground,
            moving,
        ).gesture is None,
        request.jump && on_ground && action_response_spec(request, on_ground, moving).gesture is None
            ==> action_response_spec(request, on_ground, moving).final_animation_spec() == Some(
            Animation::Jump,
        ),
{
}

/// Once the countdown has run out, a hero whose countdown was running halts,
/// walking or running alike, and a hero whose countdown was not running rests;
/// while time is left the countdown goes on, with the run clip for a running
/// hero with speed, the walk clip for a walking one, and no clip without speed.
pub proof fn lemma_locomotion_rules(
    time_left: bool,
    was_counting: bool,
    speed_positive: bool,
    running: bool,
)
    ensures
        !time_left && was_counting ==> locomotion_step_spec(
            time_left,
            was_counting,
            speed_positive,
            running,
        ) == LocomotionStep::Halt,
        !time_left && !was_counting ==> locomotion_step_spec(
            time_left,
            was_counting,
            speed_positive,
            running,
        ) == LocomotionStep::Rest,
        time_left && speed_positive && running ==> locomotion_step_spec(
            time_left,
            was_counting,
            speed_positive,
            running,
        ) == LocomotionStep::Countdown(Some(Animation::Running)),
        time_left && speed_positive && !running ==> locomotion_step_spec(
            time_left,
            was_counting,
            speed_positive,
            running,
        ) == LocomotionStep::Countdown(Some(Animation::Walking)),
        time_left && !speed_positive ==> locomotion_step_spec(
            time_left,
            was_counting,
            speed_positive,
            running,
        ) == LocomotionStep::Countdown(None),
{
}

/// The sprint key drives the running flag: when a frame's key events send a
/// request, the hero runs after it exactly when the sprint key went down in
/// that frame, so releasing the key stops the run.
pub proof fn lemma_sprint_key_drives_running(keys: ActionKeys, on_ground: bool, moving: bool)
    requires
        action_from_keys_spec(keys) is Some,
    ensures
        action_response_spec(action_from_keys_spec(keys).unwrap(), on_ground, moving).running
            == keys.sprint_pressed,
        keys.sprint_released && !keys.sprint_pressed ==> !action_response_spec(
            action_from_keys_spec(keys).unwrap(),
            on_ground,
            moving,
        ).running,
{
}

} // verus!
