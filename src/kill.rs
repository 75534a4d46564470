use vstd::prelude::*;

use crate::level::{
    camera_position_from_level, camera_position_spec, CurrentLevel, Position, StartFlag,
};

verus! {

/// Whether the game simulates normally or is playing a scripted animation.
#[derive(Clone, Copy, Debug, PartialEq, Eq, Structural)]
pub enum GameState {
    Playing,
    Animating,
}

/// Which scripted animation is playing.
#[derive(Clone, Copy, Debug, PartialEq, Eq, Structural)]
pub enum AnimationState {
    Idle,
    Respawn,
}

/// Why the level is reset: a switch to another level, or a respawn in the same one.
#[derive(Clone, Copy, Debug, PartialEq, Eq, Structural)]
pub enum ResetLevel {
    Switching,
    Respawn,
}

/// A request to kill the player; it starts the respawn transition.
#[derive(Clone, Copy, Debug, PartialEq, Eq, Structural)]
pub struct KillPlayerEvent;

/// The completions a camera transition can report back.
#[derive(Clone, Copy, Debug, PartialEq, Eq, Structural)]
pub enum KillCallback {
    AfterSlideToBlack,
    AfterSlideFromBlack,
}

/// The two completions of the kill animation.
#[derive(Clone, Copy, Debug, PartialEq, Eq, Structural)]
pub struct KillAnimationCallbacks {
    /// once the screen is completely black
    pub cb1: KillCallback,
    /// once the screen is ready for play
    pub cb2: KillCallback,
}

impl KillAnimationCallbacks {
    pub fn new() -> (r: KillAnimationCallbacks)
        ensures
            r.cb1 == KillCallback::AfterSlideToBlack,
            r.cb2 == KillCallback::AfterSlideFromBlack,
    {
        KillAnimationCallbacks {
            cb1: KillCallback::AfterSlideToBlack,
            cb2: KillCallback::AfterSlideFromBlack,
        }
    }
}

/// The visual effect of a camera transition.
#[derive(Clone, Copy, Debug, PartialEq, Eq, Structural)]
pub enum CameraTransition {
    SlideToBlack,
    SlideFromBlack,
}

/// The easing curve of a camera transition.
#[derive(Clone, Copy, Debug, PartialEq, Eq, Structural)]
pub enum EaseFunction {
    SineInOut,
}

/// A request for a one-shot camera transition that reports `callback` when it ends.
#[derive(Clone, Copy, Debug, PartialEq, Eq, Structural)]
pub struct CameraTransitionEvent {
    pub duration_ms: u64,
    pub ease_fn: EaseFunction,
    pub callback: Option<KillCallback>,
    pub effect: CameraTransition,
}

/// How the camera moves to a new position.
#[derive(Clone, Copy, Debug, PartialEq, Eq, Structural)]
pub enum CameraControlType {
    Instant,
    Animated,
}

/// A request to move the camera.
#[derive(Clone, Copy, Debug, PartialEq, Eq, Structural)]
pub struct CameraMoveEvent {
    pub to: Position,
    pub variant: CameraControlType,
}

/// Length of each half of the kill transition, in milliseconds.
pub const KILL_TRANSITION_MS: u64 = 400;

/// Height added above a start flag when the player respawns there, so that the player does
/// not rest inside the floor.
pub const LYRA_RESPAWN_EPSILON: i64 = 2;

/// Where the kill transition stands.
#[derive(Clone, Copy, Debug, PartialEq, Eq, Structural)]
pub enum TransitionStage {
    Idle,
    AwaitingSlideToBlack,
    AwaitingSlideFromBlack,
}

/// The state of the kill and respawn sequence.
#[derive(Clone, Copy, Debug, PartialEq, Eq, Structural)]
pub struct KillSequence {
    pub game_state: GameState,
    pub animation_state: AnimationState,
    pub stage: TransitionStage,
}

impl KillSequence {
    /// The game plays exactly when no transition is in flight.
    pub open spec fn wf(self) -> bool {
        (self.game_state == GameState::Playing) == (self.stage == TransitionStage::Idle)
    }

    /// The state after a kill request: a transition starts only while playing.
    pub open spec fn after_kill_request(self) -> KillSequence {
        if self.game_state == GameState::Playing {
            KillSequence {
                game_state: GameState::Animating,
                animation_state: AnimationState::Respawn,
                stage: TransitionStage::AwaitingSlideToBlack,
            }
        } else {
            self
        }
    }

    /// Playing, with no animation and no transition.
    pub fn new() -> (r: KillSequence)
        ensures
            r.wf(),
            r.game_state == GameState::Playing,
            r.animation_state == AnimationState::Idle,
            r.stage == TransitionStage::Idle,
    {
        KillSequence {
            game_state: GameState::Playing,
            animation_state: AnimationState::Idle,
            stage: TransitionStage::Idle,
        }
    }
}

/// The first half of the kill transition.
pub open spec fn slide_to_black(callbacks: KillAnimationCallbacks) -> CameraTransitionEvent {
    CameraTransitionEvent {
        duration_ms: 400,
        ease_fn: EaseFunction::SineInOut,
        callback: Some(callbacks.cb1),
        effect: CameraTransition::SlideToBlack,
    }
}

/// The second half of the kill transition.
pub open spec fn slide_from_black(callbacks: KillAnimationCallbacks) -> CameraTransitionEvent {
    CameraTransitionEvent {
        duration_ms: 400,
        ease_fn: EaseFunction::SineInOut,
        callback: Some(callbacks.cb2),
        effect: CameraTransition::SlideFromBlack,
    }
}

/// Requests a kill, as the manual reset key does.
pub fn quick_reset(ev_kill_player: &mut Vec<KillPlayerEvent>)
    ensures
        final(ev_kill_player)@ == old(ev_kill_player)@.push(KillPlayerEvent),
{
    ev_kill_player.push(KillPlayerEvent);
}

/// Whether hazard `i` is reported as touching the player.
pub open spec fn hurts(intersections: Seq<Option<bool>>, i: int) -> bool {
    intersections[i] == Some(true)
}

/// Requests a kill when the player touches a hazard. `intersections[i]` is what the physics
/// reports for the player and hazard `i`. The scan stops at the first hazard that touches:
/// its index is returned, and exactly one kill is requested; with none, nothing is.
pub fn kill_player_on_hurt_intersection(
    intersections: &Vec<Option<bool>>,
    ev_kill_player: &mut Vec<KillPlayerEvent>,
) -> (r: Option<usize>)
    ensures
        r.is_none() <==> forall|i: int| 0 <= i < intersections@.len() ==> !#[trigger] hurts(intersections@, i),
        r matches Some(k) ==> k < intersections@.len() && hurts(intersections@, k as int)
            && forall|j: int| 0 <= j < k ==> !#[trigger] hurts(intersections@, j),
        r.is_none() ==> final(ev_kill_player)@ == old(ev_kill_player)@,
        r.is_some() ==> final(ev_kill_player)@ == old(ev_kill_player)@.push(KillPlayerEvent),
{
    let mut i: usize = 0;
    while i < intersections.len()
        invariant
            i <= intersections@.len(),
            forall|j: int| 0 <= j < i ==> !#[trigger] hurts(intersections@, j),
            ev_kill_player@ == old(ev_kill_player)@,
        decreases intersections@.len() - i,
    {
        if intersections[i] == Some(true) {
            assert(hurts(intersections@, i as int));
            ev_kill_player.push(KillPlayerEvent);
            return Some(i);
        }
        i = i + 1;
    }
    None
}

/// Starts the kill transition unless one is already in flight: the game starts animating the
/// respawn and the camera slides to black. While animating, a request changes nothing.
pub fn start_kill_animation(state: &mut KillSequence, callbacks: &KillAnimationCallbacks) -> (r:
    Option<CameraTransitionEvent>)
    requires
        old(state).wf(),
    ensures
        final(state).wf(),
        *final(state) == old(state).after_kill_request(),
        old(state).game_state == GameState::Playing ==> r == Some(slide_to_black(*callbacks)),
        old(state).game_state == GameState::Animating ==> r.is_none(),
{
    if state.game_state == GameState::Animating {
        return None;
    }
    state.game_state = GameState::Animating;
    state.animation_state = AnimationState::Respawn;
    state.stage = TransitionStage::AwaitingSlideToBlack;
    Some(
        CameraTransitionEvent {
            duration_ms: KILL_TRANSITION_MS,
            ease_fn: EaseFunction::SineInOut,
            callback: Some(callbacks.cb1),
            effect: CameraTransition::SlideToBlack,
        },
    )
}

/// Handles the kill requests of one tick: any number of them act as one.
pub fn on_kill_events(
    state: &mut KillSequence,
    callbacks: &KillAnimationCallbacks,
    ev_kill_player: &Vec<KillPlayerEvent>,
) -> (r: Option<CameraTransitionEvent>)
    requires
        old(state).wf(),
    ensures
        final(state).wf(),
        ev_kill_player@.len() == 0 ==> *final(state) == *old(state) && r.is_none(),
        ev_kill_player@.len() > 0 ==> *final(state) == old(state).after_kill_request(),
        ev_kill_player@.len() > 0 && old(state).game_state == GameState::Playing ==> r == Some(
            slide_to_black(*callbacks),
        ),
        old(state).game_state == GameState::Animating ==> r.is_none(),
{
    if ev_kill_player.len() == 0 {
        return None;
    }
    start_kill_animation(state, callbacks)
}

/// Once the screen is black: the camera slides back from black and the level is reset for a
/// respawn. Only acts while the first half of the transition is in flight.
pub fn after_slide_to_black(state: &mut KillSequence, callbacks: &KillAnimationCallbacks) -> (r:
    Option<(CameraTransitionEvent, ResetLevel)>)
    requires
        old(state).wf(),
    ensures
        final(state).wf(),
        old(state).stage == TransitionStage::AwaitingSlideToBlack ==> r == Some(
            (slide_from_black(*callbacks), ResetLevel::Respawn),
        ) && *final(state) == (KillSequence {
            stage: TransitionStage::AwaitingSlideFromBlack,
            ..*old(state)
        }),
        old(state).stage != TransitionStage::AwaitingSlideToBlack ==> r.is_none() && *final(state)
            == *old(state),
{
    if state.stage != TransitionStage::AwaitingSlideToBlack {
        return None;
    }
    state.stage = TransitionStage::AwaitingSlideFromBlack;
    Some(
        (
            CameraTransitionEvent {
                duration_ms: KILL_TRANSITION_MS,
                ease_fn: EaseFunction::SineInOut,
                callback: Some(callbacks.cb2),
                effect: CameraTransition::SlideFromBlack,
            },
            ResetLevel::Respawn,
        ),
    )
}

/// Once the screen is clear again: play resumes. Only acts while the second half of the
/// transition is in flight; returns whether it did.
pub fn after_slide_from_black(state: &mut KillSequence) -> (r: bool)
    requires
        old(state).wf(),
    ensures
        final(state).wf(),
        r == (old(state).stage == TransitionStage::AwaitingSlideFromBlack),
        r ==> *final(state) == (KillSequence {
            game_state: GameState::Playing,
            stage: TransitionStage::Idle,
            ..*old(state)
        }),
        !r ==> *final(state) == *old(state),
{
    if state.stage != TransitionStage::AwaitingSlideFromBlack {
        return false;
    }
    state.game_state = GameState::Playing;
    state.stage = TransitionStage::Idle;
    true
}

/// How many transitions `n` kill requests in a row start from state `s`.
pub open spec fn transitions_started(s: KillSequence, n: nat) -> nat
    decreases n,
{
    if n == 0 {
        0
    } else {
        (if s.game_state == GameState::Playing {
            1nat
        } else {
            0nat
        }) + transitions_started(s.after_kill_request(), (n - 1) as nat)
    }
}

/// However many kill requests arrive in a row, at most one transition starts: none while a
/// transition is in flight, and exactly one from play.
pub proof fn lemma_kill_requests_collapse(s: KillSequence, n: nat)
    requires
        s.wf(),
    ensures
        transitions_started(s, n) <= 1,
        s.game_state == GameState::Animating ==> transitions_started(s, n) == 0,
        s.game_state == GameState::Playing && n > 0 ==> transitions_started(s, n) == 1,
    decreases n,
{
    if n > 0 {
        let t = s.after_kill_request();
        assert(t.game_state == GameState::Animating);
        lemma_kill_requests_collapse(t, (n - 1) as nat);
    }
}

/// Respawning failed: the level has no start flag.
#[derive(Debug)]
pub enum RespawnError {
    /// No start flag belongs to the level with this identity.
    MissingStartFlag(String),
}

/// Where the player respawns at flag `f`: its position, with y pointing up, lifted by
/// the respawn epsilon.
pub open spec fn spawn_position(f: StartFlag) -> Position {
    Position { x: f.world_x as i64, y: (2 - f.world_y) as i64 }
}

/// Flag `i` belongs to the level `level_iid`.
pub open spec fn flag_matches(flags: Seq<StartFlag>, level_iid: Seq<char>, i: int) -> bool {
    flags[i].level_iid@ == level_iid
}

/// `i` is the first flag that belongs to the level `level_iid`.
pub open spec fn first_flag(flags: Seq<StartFlag>, level_iid: Seq<char>, i: int) -> bool {
    0 <= i < flags.len() && flag_matches(flags, level_iid, i) && forall|j: int|
        0 <= j < i ==> !#[trigger] flag_matches(flags, level_iid, j)
}

/// Some flag belongs to the level `level_iid`.
pub open spec fn has_flag(flags: Seq<StartFlag>, level_iid: Seq<char>) -> bool {
    exists|i: int| 0 <= i < flags.len() && #[trigger] flag_matches(flags, level_iid, i)
}

fn has_respawn(ev_reset_level: &Vec<ResetLevel>) -> (r: bool)
    ensures
        r == ev_reset_level@.contains(ResetLevel::Respawn),
{
    let mut i: usize = 0;
    while i < ev_reset_level.len()
        invariant
            i <= ev_reset_level@.len(),
            forall|j: int| 0 <= j < i ==> ev_reset_level@[j] != ResetLevel::Respawn,
        decreases ev_reset_level@.len() - i,
    {
        if ev_reset_level[i] == ResetLevel::Respawn {
            assert(ev_reset_level@[i as int] == ResetLevel::Respawn);
            return true;
        }
        i = i + 1;
    }
    false
}

/// Places the player at the current level's start flag when a respawn reset is among
/// `ev_reset_level`, lifted by the respawn epsilon, and asks the camera to jump there,
/// clipped to the level's bounds. Without a respawn reset nothing changes. A level with no
/// start flag is an error, and the player is left where it was.
pub fn reset_player_on_kill(
    ev_reset_level: &Vec<ResetLevel>,
    q_start_flag: &Vec<StartFlag>,
    current_level: &CurrentLevel,
    player: &mut Position,
) -> (r: Result<Option<CameraMoveEvent>, RespawnError>)
    ensures
        !ev_reset_level@.contains(ResetLevel::Respawn) ==> r == Ok::<
            Option<CameraMoveEvent>,
            RespawnError,
        >(None) && *final(player) == *old(player),
        ev_reset_level@.contains(ResetLevel::Respawn) && !has_flag(
            q_start_flag@,
            current_level.level_iid@,
        ) ==> *final(player) == *old(player) && (r matches Err(
            RespawnError::MissingStartFlag(iid),
        ) && iid@ == current_level.level_iid@),
        ev_reset_level@.contains(ResetLevel::Respawn) && has_flag(
            q_start_flag@,
            current_level.level_iid@,
        ) ==> exists|i: int|
            first_flag(q_start_flag@, current_level.level_iid@, i) && *final(player)
                == spawn_position(#[trigger] q_start_flag@[i]) && r == Ok::<
                Option<CameraMoveEvent>,
                RespawnError,
            >(
                Some(
                    CameraMoveEvent {
                        to: camera_position_spec(current_level.level_box, *final(player)),
                        variant: CameraControlType::Instant,
                    },
                ),
            ),
{
    if !has_respawn(ev_reset_level) {
        return Ok(None);
    }
    let mut i: usize = 0;
    while i < q_start_flag.len()
        invariant
            i <= q_start_flag@.len(),
            ev_reset_level@.contains(ResetLevel::Respawn),
            *player == *old(player),
            forall|j: int| 0 <= j < i ==> !#[trigger] flag_matches(q_start_flag@, current_level.level_iid@, j),
        decreases q_start_flag@.len() - i,
    {
        let flag = &q_start_flag[i];
        if current_level.level_iid == flag.level_iid {
            assert(flag_matches(q_start_flag@, current_level.level_iid@, i as int));
            player.x = flag.world_x as i64;
            // a small lift keeps the player out of the floor
            player.y = -(flag.world_y as i64) + LYRA_RESPAWN_EPSILON;
            let to = camera_position_from_level(current_level.level_box, *player);
            return Ok(Some(CameraMoveEvent { to, variant: CameraControlType::Instant }));
        }
        i = i + 1;
    }
    Err(RespawnError::MissingStartFlag(current_level.level_iid.clone()))
}

} // verus!
