//! The decisions of the live track matcher: locking and unlocking the detected track, the
//! stage picker for ambiguous pacenote starts, the staged start and its trigger, and
//! whether a measured split is stored or kept pending.
//!
//! Measurements (distances, speeds, elapsed times) are compared by the caller and arrive
//! here as events; what the caller has to do comes back as actions.

use vstd::prelude::*;
use crate::pacenote_course::PacenoteStagePick;
use crate::text::str_eq;

verus! {

/// A key of the stage picker.
#[derive(Clone, Copy, Debug, PartialEq, Eq, Structural)]
pub enum PickerNav {
    Prev,
    Next,
    Confirm,
}

/// The stage picker shown while several stages start near the car.
pub struct PickerState {
    pub candidates: Vec<PacenoteStagePick>,
    pub index: usize,
}

/// Where the staged start stands.
#[derive(Clone, Copy, Debug, PartialEq, Eq, Structural)]
pub enum StartStage {
    /// Not staging.
    Idle,
    /// Staging at a remembered position since a remembered time.
    Candidate,
    /// Held long enough: armed until the next sector anchor.
    Armed,
}

/// Why a track lock was released.
#[derive(Clone, Copy, Debug, PartialEq, Eq, Structural)]
pub enum UnlockReason {
    CarChange,
    LowSpeed,
    NoData,
}

/// What the caller has to do after a step.
#[derive(Clone, Copy, Debug, PartialEq, Eq, Structural)]
pub enum LiveAction {
    /// Report that the lock was released.
    Unlocked(UnlockReason),
    /// Forget the position history, the driven distance and the sector timing.
    ResetTracking,
    /// Drop the loaded pacenote course, its stage and the triggered callouts.
    ClearPacenotes,
    /// Start timing how long the car stays slow.
    StartLowSpeedTimer,
    /// Store the splits kept pending for the newly locked track.
    PromotePending,
    /// Use a stage of the event: the single lock-radius hit, or the menu hit at `index`.
    ResolveStage { from_menu: bool, index: usize },
    /// Ask the driver which stage to take.
    AskWhereToGo,
    /// The detected track changed: set up sector timing for it.
    TrackChanged,
    /// Remember the car's position and the time as the start staging candidate.
    StartStaging,
    /// Forget the start staging candidate.
    ClearStaging,
    /// Arm the start: anchor start time and distance now, and record the start point.
    ArmStart,
    /// Anchor start time and distance now.
    SetStartAnchor,
    /// Emit the split from the start to the anchored sector.
    EmitStartSplit,
    /// Store the measured split.
    PersistSplit,
    /// Keep the measured split pending until its track is locked.
    KeepSplitPending,
}

/// What the live matcher remembers between frames.
pub struct LiveMatchState {
    pub locked_track: Option<String>,
    pub locked_car_model: Option<String>,
    pub active_track: Option<String>,
    /// Since the lock, the car has been at or above the unlock speed.
    pub seen_fast_since_lock: bool,
    pub low_speed_timer: bool,
    pub picker: Option<PickerState>,
    pub start: StartStage,
    pub start_anchor: bool,
}

/// What happened since the last step.
pub enum LiveEvent {
    /// A new frame with the car model (trimmed).
    CarModel(String),
    /// The speed: at or above the unlock speed, and whether it has stayed below for the
    /// hold time (counted from now when the low-speed timer is not running).
    Speed { fast: bool, hold_reached: bool },
    /// No data from the game; `long` once that has lasted 8 s.
    NoData { long: bool },
    /// A track to lock on (single start point near, pacenote start agreeing with the
    /// match, or a match stable long enough), with the car model of the frame.
    Lock { track: String, car_model: String },
    /// The track the matcher selects (none when the coarse match fails).
    Select(Option<String>),
    /// Stages whose first callout is within the lock radius and within the menu radius,
    /// nearest first, and the picker key pressed.
    Anchors { lock_hits: Vec<PacenoteStagePick>, menu_hits: Vec<PacenoteStagePick>, nav: Option<PickerNav> },
    /// A frame for the staged start: staging conditions met (slow, engine revved), still
    /// at the staging position, held for the staging time, and at trigger speed.
    Staging { conditions: bool, at_stage_pos: bool, hold_reached: bool, trigger_speed: bool },
    /// The sector tracker anchored at a sector.
    SectorAnchored,
    /// A split was measured on `track`.
    Split { track: String },
}

/// The state after the lock is released for `why`: no lock, no car, no picker; a stop or
/// a data gap also forgets the detected track and the staged start.
pub open spec fn unlocked(s: LiveMatchState, why: UnlockReason) -> (LiveMatchState, Seq<LiveAction>) {
    let base = LiveMatchState {
        locked_track: None,
        locked_car_model: None,
        seen_fast_since_lock: false,
        low_speed_timer: false,
        picker: None,
        ..s
    };
    if why == UnlockReason::CarChange {
        (base, seq![LiveAction::Unlocked(why), LiveAction::ClearPacenotes])
    } else {
        (
            LiveMatchState { active_track: None, start: StartStage::Idle, start_anchor: false, ..base },
            seq![LiveAction::Unlocked(why), LiveAction::ResetTracking, LiveAction::ClearPacenotes],
        )
    }
}

/// The first position of a stage named `slug` among the first `n` candidates.
pub open spec fn slug_pos(cs: Seq<PacenoteStagePick>, slug: Seq<char>, n: int) -> Option<int>
    decreases n,
{
    if n <= 0 {
        None
    } else {
        match slug_pos(cs, slug, n - 1) {
            Some(p) => Some(p),
            None => if cs[n - 1].slug@ == slug {
                Some(n - 1)
            } else {
                None
            },
        }
    }
}

/// The picker position after the candidates change from `old` (at `index`) to `new`:
/// the same stage again when it is still offered, else the first.
pub open spec fn kept_index(old: Seq<PacenoteStagePick>, index: int, new: Seq<PacenoteStagePick>) -> int {
    if 0 <= index < old.len() {
        match slug_pos(new, old[index].slug@, new.len() as int) {
            Some(p) => p,
            None => 0,
        }
    } else {
        0
    }
}

/// The picker after the stages near the car are `menu` (nearest first, more than one)
/// and key `nav` was pressed: the keys move round the list, wrapping at both ends;
/// confirming closes the picker and takes the chosen stage.
pub open spec fn picker_step(ui: PickerState, menu: Vec<PacenoteStagePick>, nav: Option<PickerNav>) -> (
    Option<PickerState>,
    Seq<LiveAction>,
) {
    let idx = kept_index(ui.candidates@, ui.index as int, menu@);
    let n = menu@.len() as int;
    match nav {
        Some(PickerNav::Prev) => (Some(PickerState { candidates: menu, index: ((idx + n - 1) % n) as usize }), Seq::empty()),
        Some(PickerNav::Next) => (Some(PickerState { candidates: menu, index: ((idx + 1) % n) as usize }), Seq::empty()),
        Some(PickerNav::Confirm) => (None, seq![LiveAction::ResolveStage { from_menu: true, index: idx as usize }]),
        None => (Some(PickerState { candidates: menu, index: idx as usize }), Seq::empty()),
    }
}

/// The stage decision on the first-callout hits near the car: a single hit within the
/// lock radius is taken; otherwise an open picker follows the menu hits (closing when
/// at most one is left), and with no picker open several menu hits open one (asking
/// the driver) while a single one is taken.
pub open spec fn anchors_step(
    picker: Option<PickerState>,
    lock_hits: Vec<PacenoteStagePick>,
    menu: Vec<PacenoteStagePick>,
    nav: Option<PickerNav>,
) -> (Option<PickerState>, Seq<LiveAction>) {
    if lock_hits@.len() == 1 {
        (None, seq![LiveAction::ResolveStage { from_menu: false, index: 0 }])
    } else {
        let (p1, a1) = match picker {
            Some(ui) => if menu@.len() <= 1 {
                (None, Seq::<LiveAction>::empty())
            } else {
                picker_step(ui, menu, nav)
            },
            None => (None, Seq::<LiveAction>::empty()),
        };
        if p1 is Some {
            (p1, a1)
        } else if menu@.len() > 1 {
            (Some(PickerState { candidates: menu, index: 0 }), a1.push(LiveAction::AskWhereToGo))
        } else if menu@.len() == 1 {
            (None, a1.push(LiveAction::ResolveStage { from_menu: true, index: 0 }))
        } else {
            (None, a1)
        }
    }
}

/// Whether `o` holds a text equal to `t`.
pub open spec fn holds_text(o: Option<String>, t: Seq<char>) -> bool {
    o matches Some(x) && x@ == t
}

/// The state and actions after one event.
pub open spec fn live_match_next(s: LiveMatchState, e: LiveEvent) -> (LiveMatchState, Seq<LiveAction>) {
    match e {
        LiveEvent::CarModel(car) => match s.locked_car_model {
            Some(c) => if car@.len() > 0 && car@ != c@ {
                unlocked(s, UnlockReason::CarChange)
            } else {
                (s, Seq::empty())
            },
            None => (s, Seq::empty()),
        },
        LiveEvent::Speed { fast, hold_reached } => if s.locked_track is None {
            (LiveMatchState { low_speed_timer: false, seen_fast_since_lock: false, ..s }, Seq::empty())
        } else if fast {
            (LiveMatchState { low_speed_timer: false, seen_fast_since_lock: true, ..s }, Seq::empty())
        } else if s.seen_fast_since_lock {
            let started: Seq<LiveAction> = if s.low_speed_timer {
                Seq::empty()
            } else {
                seq![LiveAction::StartLowSpeedTimer]
            };
            if hold_reached {
                let u = unlocked(s, UnlockReason::LowSpeed);
                (u.0, started + u.1)
            } else {
                (LiveMatchState { low_speed_timer: true, ..s }, started)
            }
        } else {
            (LiveMatchState { low_speed_timer: false, ..s }, Seq::empty())
        },
        LiveEvent::NoData { long } => if long && s.locked_track is Some {
            unlocked(s, UnlockReason::NoData)
        } else {
            (s, Seq::empty())
        },
        LiveEvent::Lock { track, car_model } => if s.locked_track is Some {
            (s, Seq::empty())
        } else {
            (
                LiveMatchState {
                    locked_track: Some(track),
                    locked_car_model: if car_model@.len() == 0 {
                        None
                    } else {
                        Some(car_model)
                    },
                    seen_fast_since_lock: false,
                    ..s
                },
                if holds_text(s.active_track, track@) {
                    seq![LiveAction::PromotePending]
                } else {
                    seq![LiveAction::TrackChanged, LiveAction::PromotePending]
                },
            )
        },
        LiveEvent::Select(t) => match s.locked_track {
            Some(_) => (s, Seq::empty()),
            None => match t {
                Some(name) => if holds_text(s.active_track, name@) {
                    (s, Seq::empty())
                } else {
                    (LiveMatchState { active_track: Some(name), ..s }, seq![LiveAction::TrackChanged])
                },
                None => (
                    LiveMatchState { active_track: None, start: StartStage::Idle, start_anchor: false, ..s },
                    if s.active_track is Some {
                        seq![LiveAction::TrackChanged]
                    } else {
                        Seq::empty()
                    },
                ),
            },
        },
        LiveEvent::Anchors { lock_hits, menu_hits, nav } => {
            let r = anchors_step(s.picker, lock_hits, menu_hits, nav);
            (LiveMatchState { picker: r.0, ..s }, r.1)
        },
        LiveEvent::Staging { conditions, at_stage_pos, hold_reached, trigger_speed } => if s.start
            != StartStage::Armed {
            if conditions {
                if s.start == StartStage::Candidate && at_stage_pos {
                    if hold_reached {
                        (LiveMatchState { start: StartStage::Armed, start_anchor: true, ..s }, seq![LiveAction::ArmStart])
                    } else {
                        (s, Seq::empty())
                    }
                } else {
                    (LiveMatchState { start: StartStage::Candidate, ..s }, seq![LiveAction::StartStaging])
                }
            } else {
                (LiveMatchState { start: StartStage::Idle, ..s }, seq![LiveAction::ClearStaging])
            }
        } else if trigger_speed && !s.start_anchor {
            (LiveMatchState { start_anchor: true, ..s }, seq![LiveAction::SetStartAnchor])
        } else {
            (s, Seq::empty())
        },
        LiveEvent::SectorAnchored => if s.start == StartStage::Armed {
            (
                LiveMatchState { start: StartStage::Idle, start_anchor: false, ..s },
                if s.start_anchor {
                    seq![LiveAction::EmitStartSplit]
                } else {
                    Seq::empty()
                },
            )
        } else {
            (s, Seq::empty())
        },
        LiveEvent::Split { track } => if holds_text(s.locked_track, track@) {
            (s, seq![LiveAction::PersistSplit])
        } else {
            (s, seq![LiveAction::KeepSplitPending])
        },
    }
}

/// The first position, among `new`, of a stage named like `old[index]`, or the first
/// position when there is none.
fn kept_index_of(old: &Vec<PacenoteStagePick>, index: usize, new: &Vec<PacenoteStagePick>) -> (r: usize)
    ensures
        r == kept_index(old@, index as int, new@),
        new@.len() > 0 ==> r < new@.len(),
{
    if index >= old.len() {
        return 0;
    }
    let target = &old[index].slug;
    let mut found: Option<usize> = None;
    let mut i: usize = 0;
    while i < new.len()
        invariant
            0 <= i <= new@.len(),
            match found {
                Some(p) => slug_pos(new@, target@, i as int) == Some(p as int) && p < i,
                None => slug_pos(new@, target@, i as int) is None,
            },
        decreases new@.len() - i,
    {
        if found.is_none() && str_eq(new[i].slug.as_str(), target.as_str()) {
            found = Some(i);
        }
        i = i + 1;
    }
    match found {
        Some(p) => p,
        None => 0,
    }
}

/// The picker after a frame whose menu hits are `menu` (more than one) and key `nav`,
/// when the key does not confirm.
fn picker_next(ui: PickerState, menu: Vec<PacenoteStagePick>, nav: Option<PickerNav>) -> (r: PickerState)
    requires
        menu@.len() > 1,
        !(nav matches Some(PickerNav::Confirm)),
    ensures
        picker_step(ui, menu, nav).0 == Some(r),
        picker_step(ui, menu, nav).1 == Seq::<LiveAction>::empty(),
{
    let idx = kept_index_of(&ui.candidates, ui.index, &menu);
    let n = menu.len();
    let j = match nav {
        Some(PickerNav::Prev) => {
            proof {
                if idx == 0 {
                    vstd::arithmetic::div_mod::lemma_fundamental_div_mod_converse(
                        idx + n - 1,
                        n as int,
                        0,
                        n - 1,
                    );
                } else {
                    vstd::arithmetic::div_mod::lemma_fundamental_div_mod_converse(
                        idx + n - 1,
                        n as int,
                        1,
                        idx - 1,
                    );
                }
            }
            if idx == 0 {
                n - 1
            } else {
                idx - 1
            }
        },
        Some(PickerNav::Next) => {
            proof {
                if idx + 1 == n {
                    vstd::arithmetic::div_mod::lemma_fundamental_div_mod_converse(idx + 1, n as int, 1, 0);
                } else {
                    vstd::arithmetic::div_mod::lemma_fundamental_div_mod_converse(
                        idx + 1,
                        n as int,
                        0,
                        idx + 1,
                    );
                }
            }
            if idx + 1 == n {
                0
            } else {
                idx + 1
            }
        },
        _ => idx,
    };
    PickerState { candidates: menu, index: j }
}

/// The stage decision of one frame (see `anchors_step`).
fn anchors_next(
    picker: Option<PickerState>,
    lock_hits: Vec<PacenoteStagePick>,
    menu: Vec<PacenoteStagePick>,
    nav: Option<PickerNav>,
) -> (r: (Option<PickerState>, Vec<LiveAction>))
    ensures
        r.0 == anchors_step(picker, lock_hits, menu, nav).0,
        r.1@ == anchors_step(picker, lock_hits, menu, nav).1,
{
    let mut acts: Vec<LiveAction> = Vec::new();
    if lock_hits.len() == 1 {
        acts.push(LiveAction::ResolveStage { from_menu: false, index: 0 });
        return (None, acts);
    }
    let m = menu.len();
    if m > 1 {
        match picker {
            Some(ui) => {
                if matches!(nav, Some(PickerNav::Confirm)) {
                    let idx = kept_index_of(&ui.candidates, ui.index, &menu);
                    acts.push(LiveAction::ResolveStage { from_menu: true, index: idx });
                    acts.push(LiveAction::AskWhereToGo);
                    return (Some(PickerState { candidates: menu, index: 0 }), acts);
                }
                let p = picker_next(ui, menu, nav);
                return (Some(p), acts);
            },
            None => {
                acts.push(LiveAction::AskWhereToGo);
                return (Some(PickerState { candidates: menu, index: 0 }), acts);
            },
        }
    }
    if m == 1 {
        acts.push(LiveAction::ResolveStage { from_menu: true, index: 0 });
    }
    (None, acts)
}

/// The state after the lock is released for `why` (see `unlocked`).
fn unlock(s: LiveMatchState, why: UnlockReason) -> (r: (LiveMatchState, Vec<LiveAction>))
    ensures
        r.0 == unlocked(s, why).0,
        r.1@ == unlocked(s, why).1,
{
    let mut acts: Vec<LiveAction> = Vec::new();
    acts.push(LiveAction::Unlocked(why));
    if why == UnlockReason::CarChange {
        acts.push(LiveAction::ClearPacenotes);
        (
            LiveMatchState {
                locked_track: None,
                locked_car_model: None,
                active_track: s.active_track,
                seen_fast_since_lock: false,
                low_speed_timer: false,
                picker: None,
                start: s.start,
                start_anchor: s.start_anchor,
            },
            acts,
        )
    } else {
        acts.push(LiveAction::ResetTracking);
        acts.push(LiveAction::ClearPacenotes);
        (
            LiveMatchState {
                locked_track: None,
                locked_car_model: None,
                active_track: None,
                seen_fast_since_lock: false,
                low_speed_timer: false,
                picker: None,
                start: StartStage::Idle,
                start_anchor: false,
            },
            acts,
        )
    }
}

/// Whether `o` holds a text equal to `t`.
fn holds_text_exec(o: &Option<String>, t: &str) -> (r: bool)
    ensures
        r == holds_text(*o, t@),
{
    match o {
        Some(x) => str_eq(x.as_str(), t),
        None => false,
    }
}

/// One step of the live matcher: the state after `event` and what the caller has to do,
/// in order.
pub fn live_match_step(state: LiveMatchState, event: LiveEvent) -> (r: (LiveMatchState, Vec<LiveAction>))
    ensures
        r.0 == live_match_next(state, event).0,
        r.1@ == live_match_next(state, event).1,
{
    let s = state;
    let mut acts: Vec<LiveAction> = Vec::new();
    match event {
        LiveEvent::CarModel(car) => {
            let change = match &s.locked_car_model {
                Some(c) => car.as_str().unicode_len() > 0 && !str_eq(car.as_str(), c.as_str()),
                None => false,
            };
            if change {
                unlock(s, UnlockReason::CarChange)
            } else {
                (s, acts)
            }
        },
        LiveEvent::Speed { fast, hold_reached } => {
            if s.locked_track.is_none() {
                (LiveMatchState { low_speed_timer: false, seen_fast_since_lock: false, ..s }, acts)
            } else if fast {
                (LiveMatchState { low_speed_timer: false, seen_fast_since_lock: true, ..s }, acts)
            } else if s.seen_fast_since_lock {
                if !s.low_speed_timer {
                    acts.push(LiveAction::StartLowSpeedTimer);
                }
                if hold_reached {
                    let ghost started = acts@;
                    let (u, _) = unlock(s, UnlockReason::LowSpeed);
                    acts.push(LiveAction::Unlocked(UnlockReason::LowSpeed));
                    acts.push(LiveAction::ResetTracking);
                    acts.push(LiveAction::ClearPacenotes);
                    proof {
                        assert(acts@ =~= started + unlocked(state, UnlockReason::LowSpeed).1);
                    }
                    (u, acts)
                } else {
                    (LiveMatchState { low_speed_timer: true, ..s }, acts)
                }
            } else {
                (LiveMatchState { low_speed_timer: false, ..s }, acts)
            }
        },
        LiveEvent::NoData { long } => {
            if long && s.locked_track.is_some() {
                unlock(s, UnlockReason::NoData)
            } else {
                (s, acts)
            }
        },
        LiveEvent::Lock { track, car_model } => {
            if s.locked_track.is_some() {
                (s, acts)
            } else {
                let same = holds_text_exec(&s.active_track, track.as_str());
                if !same {
                    acts.push(LiveAction::TrackChanged);
                }
                acts.push(LiveAction::PromotePending);
                let car = if car_model.as_str().unicode_len() == 0 {
                    None
                } else {
                    Some(car_model)
                };
                (LiveMatchState { locked_track: Some(track), locked_car_model: car, seen_fast_since_lock: false, ..s }, acts)
            }
        },
        LiveEvent::Select(t) => {
            if s.locked_track.is_some() {
                (s, acts)
            } else {
                match t {
                    Some(name) => {
                        if holds_text_exec(&s.active_track, name.as_str()) {
                            (s, acts)
                        } else {
                            acts.push(LiveAction::TrackChanged);
                            (LiveMatchState { active_track: Some(name), ..s }, acts)
                        }
                    },
                    None => {
                        if s.active_track.is_some() {
                            acts.push(LiveAction::TrackChanged);
                        }
                        (LiveMatchState { active_track: None, start: StartStage::Idle, start_anchor: false, ..s }, acts)
                    },
                }
            }
        },
        LiveEvent::Anchors { lock_hits, menu_hits, nav } => {
            let LiveMatchState {
                locked_track,
                locked_car_model,
                active_track,
                seen_fast_since_lock,
                low_speed_timer,
                picker,
                start,
                start_anchor,
            } = s;
            let (p, a) = anchors_next(picker, lock_hits, menu_hits, nav);
            (
                LiveMatchState {
                    locked_track,
                    locked_car_model,
                    active_track,
                    seen_fast_since_lock,
                    low_speed_timer,
                    picker: p,
                    start,
                    start_anchor,
                },
                a,
            )
        },
        LiveEvent::Staging { conditions, at_stage_pos, hold_reached, trigger_speed } => {
            if s.start != StartStage::Armed {
                if conditions {
                    if s.start == StartStage::Candidate && at_stage_pos {
                        if hold_reached {
                            acts.push(LiveAction::ArmStart);
                            (LiveMatchState { start: StartStage::Armed, start_anchor: true, ..s }, acts)
                        } else {
                            (s, acts)
                        }
                    } else {
                        acts.push(LiveAction::StartStaging);
                        (LiveMatchState { start: StartStage::Candidate, ..s }, acts)
                    }
                } else {
                    acts.push(LiveAction::ClearStaging);
                    (LiveMatchState { start: StartStage::Idle, ..s }, acts)
                }
            } else if trigger_speed && !s.start_anchor {
                acts.push(LiveAction::SetStartAnchor);
                (LiveMatchState { start_anchor: true, ..s }, acts)
            } else {
                (s, acts)
            }
        },
        LiveEvent::SectorAnchored => {
            if s.start == StartStage::Armed {
                if s.start_anchor {
                    acts.push(LiveAction::EmitStartSplit);
                }
                (LiveMatchState { start: StartStage::Idle, start_anchor: false, ..s }, acts)
            } else {
                (s, acts)
            }
        },
        LiveEvent::Split { track } => {
            if holds_text_exec(&s.locked_track, track.as_str()) {
                acts.push(LiveAction::PersistSplit);
            } else {
                acts.push(LiveAction::KeepSplitPending);
            }
            (s, acts)
        },
    }
}

/// A picker that can be shown: more than one stage, and the chosen one among them.
pub open spec fn picker_ok(p: Option<PickerState>) -> bool {
    p matches Some(ui) ==> ui.candidates@.len() > 1 && ui.index < ui.candidates@.len()
}

proof fn lemma_slug_pos_below(cs: Seq<PacenoteStagePick>, slug: Seq<char>, n: int)
    ensures
        slug_pos(cs, slug, n) matches Some(p) ==> 0 <= p < n,
    decreases n,
{
    if n > 0 {
        lemma_slug_pos_below(cs, slug, n - 1);
    }
}

/// Every step keeps the stage picker showable: while it is open it offers more than one
/// stage and its chosen position lies among them, the wrap-around keys included.
pub proof fn lemma_step_keeps_picker_ok(s: LiveMatchState, e: LiveEvent)
    requires
        picker_ok(s.picker),
    ensures
        picker_ok(live_match_next(s, e).0.picker),
{
    if let LiveEvent::Anchors { lock_hits, menu_hits, nav } = e {
        if let Some(ui) = s.picker {
            let old = ui.candidates@;
            if 0 <= ui.index < old.len() {
                lemma_slug_pos_below(menu_hits@, old[ui.index as int].slug@, menu_hits@.len() as int);
            }
            let idx = kept_index(old, ui.index as int, menu_hits@);
            let n = menu_hits@.len() as int;
            if n > 1 {
                assert(0 <= idx < n);
                assert(0 <= (idx + n - 1) % n < n) by (nonlinear_arith)
                    requires
                        n > 1,
                ;
                assert(0 <= (idx + 1) % n < n) by (nonlinear_arith)
                    requires
                        n > 1,
                ;
            }
        }
    }
}

/// The start trigger fires once per arming: from an armed start whose start time is
/// already anchored, no event arms it again or anchors the start a second time.
pub proof fn lemma_armed_start_fires_once(s: LiveMatchState, e: LiveEvent)
    requires
        s.start == StartStage::Armed,
        s.start_anchor,
    ensures
        !live_match_next(s, e).1.contains(LiveAction::ArmStart),
        !live_match_next(s, e).1.contains(LiveAction::SetStartAnchor),
{
    let acts = live_match_next(s, e).1;
    if acts.contains(LiveAction::ArmStart) || acts.contains(LiveAction::SetStartAnchor) {
        let i = choose|i: int| 0 <= i < acts.len() && (acts[i] == LiveAction::ArmStart || acts[i] == LiveAction::SetStartAnchor);
        assert(false);
    }
}

/// A locked track is kept by every event but a change of car, a stop after driving, or a
/// long data gap; and a measured split is stored exactly when it was measured on the
/// locked track.
pub proof fn lemma_lock_is_kept(s: LiveMatchState, e: LiveEvent)
    requires
        s.locked_track is Some,
    ensures
        !(e is CarModel || e is Speed || e is NoData) ==> live_match_next(s, e).0.locked_track == s.locked_track,
        e matches LiveEvent::Split { track } ==> live_match_next(s, e).1.len() == 1 && (live_match_next(
            s,
            e,
        ).1[0] == LiveAction::PersistSplit <==> holds_text(s.locked_track, track@)),
{
}

/// A stop only counts once the car has driven since the lock: a fresh lock forgets any
/// earlier fast driving, and while the car has not been at or above the unlock speed since
/// the lock, a slow frame neither releases the lock nor starts the low-speed timer, however
/// long the car has stood.
pub proof fn lemma_lock_waits_for_driving(s: LiveMatchState, track: String, car_model: String, hold_reached: bool)
    requires
        s.locked_track is None,
    ensures
        !live_match_next(s, LiveEvent::Lock { track, car_model }).0.seen_fast_since_lock,
        ({
            let l = live_match_next(s, LiveEvent::Lock { track, car_model }).0;
            let slow = live_match_next(l, LiveEvent::Speed { fast: false, hold_reached });
            &&& slow.1.len() == 0
            &&& slow.0.locked_track == Some(track)
            &&& !slow.0.low_speed_timer
        }),
{
}

/// While the car has not driven since the lock, no slow frame releases it or starts the
/// low-speed timer.
pub proof fn lemma_no_unlock_before_driving(s: LiveMatchState, hold_reached: bool)
    requires
        s.locked_track is Some,
        !s.seen_fast_since_lock,
    ensures
        live_match_next(s, LiveEvent::Speed { fast: false, hold_reached }).1.len() == 0,
        live_match_next(s, LiveEvent::Speed { fast: false, hold_reached }).0.locked_track == s.locked_track,
{
}

proof fn lemma_slug_pos_first(cs: Seq<PacenoteStagePick>, n: int)
    requires
        1 <= n <= cs.len(),
    ensures
        slug_pos(cs, cs[0].slug@, n) == Some(0int),
    decreases n,
{
    if n > 1 {
        lemma_slug_pos_first(cs, n - 1);
    } else {
        assert(slug_pos(cs, cs[0].slug@, 0) is None);
    }
}

/// The picker keys wrap round: on an unchanged list of `n` stages, `Prev` from the first
/// stage goes to the last, `Next` from the first goes to the second, and confirming takes
/// the first.
pub proof fn lemma_picker_wraps(s: LiveMatchState, menu: Vec<PacenoteStagePick>, none: Vec<PacenoteStagePick>)
    requires
        (s.picker matches Some(ui) && ui.candidates@ == menu@ && ui.index == 0),
        menu@.len() > 1,
        none@.len() == 0,
    ensures
        ({
            let prev = live_match_next(
                s,
                LiveEvent::Anchors { lock_hits: none, menu_hits: menu, nav: Some(PickerNav::Prev) },
            );
            prev.0.picker matches Some(p) && p.index == menu@.len() - 1 && prev.1.len() == 0
        }),
        ({
            let next = live_match_next(
                s,
                LiveEvent::Anchors { lock_hits: none, menu_hits: menu, nav: Some(PickerNav::Next) },
            );
            next.0.picker matches Some(p) && p.index == 1
        }),
        live_match_next(
            s,
            LiveEvent::Anchors { lock_hits: none, menu_hits: menu, nav: Some(PickerNav::Confirm) },
        ).1[0] == (LiveAction::ResolveStage { from_menu: true, index: 0 }),
{
    let n = menu@.len() as int;
    assert(n == menu.len());
    let ui = s.picker->0;
    lemma_slug_pos_first(menu@, n);
    assert(ui.candidates@[0].slug@ == menu@[0].slug@);
    assert(kept_index(menu@, 0, menu@) == 0);
    assert((0int + n - 1) % n == n - 1) by (nonlinear_arith)
        requires
            n > 1,
    ;
    assert((0int + 1) % n == 1) by (nonlinear_arith)
        requires
            n > 1,
    ;
    assert(picker_step(ui, menu, Some(PickerNav::Prev)).0 == Some(PickerState { candidates: menu, index: (n - 1) as usize }));
}

/// A change of car releases the lock (keeping the detected track); a long data gap
/// releases it and forgets the track and the staged start.
pub proof fn lemma_unlock_on_car_change_or_gap(s: LiveMatchState, car: String)
    requires
        s.locked_track is Some,
        s.locked_car_model matches Some(c) && car@.len() > 0 && car@ != c@,
    ensures
        ({
            let r = live_match_next(s, LiveEvent::CarModel(car));
            &&& r.0.locked_track is None
            &&& r.0.active_track == s.active_track
            &&& r.1 == seq![LiveAction::Unlocked(UnlockReason::CarChange), LiveAction::ClearPacenotes]
        }),
        ({
            let r = live_match_next(s, LiveEvent::NoData { long: true });
            &&& r.0.locked_track is None
            &&& r.0.active_track is None
            &&& r.0.start == StartStage::Idle
            &&& r.1 == seq![LiveAction::Unlocked(UnlockReason::NoData), LiveAction::ResetTracking, LiveAction::ClearPacenotes]
        }),
        live_match_next(s, LiveEvent::NoData { long: false }).0.locked_track == s.locked_track,
{
}

/// A start staged at the same place for the hold time arms once: the armed start anchors
/// its time at once and is not armed again until the next sector anchor, which emits the
/// start split.
pub proof fn lemma_staged_start_arms(s: LiveMatchState)
    requires
        s.start == StartStage::Candidate,
    ensures
        ({
            let armed = live_match_next(
                s,
                LiveEvent::Staging { conditions: true, at_stage_pos: true, hold_reached: true, trigger_speed: false },
            );
            &&& armed.0.start == StartStage::Armed
            &&& armed.0.start_anchor
            &&& armed.1 == seq![LiveAction::ArmStart]
            &&& live_match_next(armed.0, LiveEvent::SectorAnchored).1 == seq![LiveAction::EmitStartSplit]
            &&& live_match_next(armed.0, LiveEvent::SectorAnchored).0.start == StartStage::Idle
        }),
{
}

} // verus!
