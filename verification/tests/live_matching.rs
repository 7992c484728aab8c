use acr_recorder::live_match::{
    live_match_step, LiveAction, LiveEvent, LiveMatchState, PickerNav, PickerState, StartStage,
    UnlockReason,
};
use acr_recorder::pacenote_course::PacenoteStagePick;

fn idle() -> LiveMatchState {
    LiveMatchState {
        locked_track: None,
        locked_car_model: None,
        active_track: None,
        seen_fast_since_lock: false,
        low_speed_timer: false,
        picker: None,
        start: StartStage::Idle,
        start_anchor: false,
    }
}

fn locked(track: &str, car: &str) -> LiveMatchState {
    LiveMatchState {
        locked_track: Some(track.to_string()),
        locked_car_model: Some(car.to_string()),
        active_track: Some(track.to_string()),
        ..idle()
    }
}

fn pick(slug: &str) -> PacenoteStagePick {
    PacenoteStagePick {
        reference_track: "ref".to_string(),
        slug: slug.to_string(),
        path: format!("{slug}.geojson"),
        stage: slug.to_string(),
    }
}

fn picks(slugs: &[&str]) -> Vec<PacenoteStagePick> {
    slugs.iter().map(|s| pick(s)).collect()
}

fn with_picker(slugs: &[&str], index: usize) -> LiveMatchState {
    LiveMatchState { picker: Some(PickerState { candidates: picks(slugs), index }), ..idle() }
}

fn nav(state: LiveMatchState, menu: &[&str], key: Option<PickerNav>) -> (LiveMatchState, Vec<LiveAction>) {
    live_match_step(
        state,
        LiveEvent::Anchors { lock_hits: Vec::new(), menu_hits: picks(menu), nav: key },
    )
}

#[test]
fn lock_on_new_track_sets_up_timing_and_promotes_pending() {
    let (s, acts) = live_match_step(
        idle(),
        LiveEvent::Lock { track: "hafren".to_string(), car_model: "fiesta".to_string() },
    );
    assert_eq!(s.locked_track.as_deref(), Some("hafren"));
    assert_eq!(s.locked_car_model.as_deref(), Some("fiesta"));
    assert_eq!(acts, vec![LiveAction::TrackChanged, LiveAction::PromotePending]);
}

#[test]
fn lock_on_active_track_only_promotes_pending() {
    let start = LiveMatchState { active_track: Some("hafren".to_string()), ..idle() };
    let (s, acts) = live_match_step(
        start,
        LiveEvent::Lock { track: "hafren".to_string(), car_model: String::new() },
    );
    assert_eq!(s.locked_track.as_deref(), Some("hafren"));
    assert_eq!(s.locked_car_model, None);
    assert_eq!(acts, vec![LiveAction::PromotePending]);
}

#[test]
fn second_lock_is_ignored() {
    let (s, acts) = live_match_step(
        locked("hafren", "fiesta"),
        LiveEvent::Lock { track: "sweet_lamb".to_string(), car_model: "i20".to_string() },
    );
    assert_eq!(s.locked_track.as_deref(), Some("hafren"));
    assert!(acts.is_empty());
}

#[test]
fn car_change_unlocks_but_keeps_the_detected_track() {
    let (s, acts) = live_match_step(locked("hafren", "fiesta"), LiveEvent::CarModel("i20".to_string()));
    assert_eq!(s.locked_track, None);
    assert_eq!(s.locked_car_model, None);
    assert_eq!(s.active_track.as_deref(), Some("hafren"));
    assert_eq!(acts, vec![LiveAction::Unlocked(UnlockReason::CarChange), LiveAction::ClearPacenotes]);
}

#[test]
fn same_or_empty_car_keeps_the_lock() {
    let (s, acts) = live_match_step(locked("hafren", "fiesta"), LiveEvent::CarModel("fiesta".to_string()));
    assert_eq!(s.locked_track.as_deref(), Some("hafren"));
    assert!(acts.is_empty());
    let (s, acts) = live_match_step(s, LiveEvent::CarModel(String::new()));
    assert_eq!(s.locked_track.as_deref(), Some("hafren"));
    assert!(acts.is_empty());
}

#[test]
fn stop_after_driving_unlocks_once_the_hold_is_reached() {
    let s = locked("hafren", "fiesta");
    let (s, acts) = live_match_step(s, LiveEvent::Speed { fast: false, hold_reached: false });
    assert!(!s.low_speed_timer);
    assert!(acts.is_empty());
    let (s, _) = live_match_step(s, LiveEvent::Speed { fast: true, hold_reached: false });
    assert!(s.seen_fast_since_lock);
    let (s, acts) = live_match_step(s, LiveEvent::Speed { fast: false, hold_reached: false });
    assert!(s.low_speed_timer);
    assert_eq!(acts, vec![LiveAction::StartLowSpeedTimer]);
    let (s, acts) = live_match_step(s, LiveEvent::Speed { fast: false, hold_reached: true });
    assert_eq!(s.locked_track, None);
    assert_eq!(s.active_track, None);
    assert!(!s.low_speed_timer);
    assert_eq!(
        acts,
        vec![
            LiveAction::Unlocked(UnlockReason::LowSpeed),
            LiveAction::ResetTracking,
            LiveAction::ClearPacenotes
        ]
    );
}

#[test]
fn long_data_gap_unlocks_and_resets() {
    let (s, acts) = live_match_step(locked("hafren", "fiesta"), LiveEvent::NoData { long: false });
    assert_eq!(s.locked_track.as_deref(), Some("hafren"));
    assert!(acts.is_empty());
    let (s, acts) = live_match_step(s, LiveEvent::NoData { long: true });
    assert_eq!(s.locked_track, None);
    assert_eq!(
        acts,
        vec![LiveAction::Unlocked(UnlockReason::NoData), LiveAction::ResetTracking, LiveAction::ClearPacenotes]
    );
}

#[test]
fn selection_follows_the_matcher_until_locked() {
    let (s, acts) = live_match_step(idle(), LiveEvent::Select(Some("hafren".to_string())));
    assert_eq!(s.active_track.as_deref(), Some("hafren"));
    assert_eq!(acts, vec![LiveAction::TrackChanged]);
    let (s, acts) = live_match_step(s, LiveEvent::Select(Some("hafren".to_string())));
    assert!(acts.is_empty());
    let (s, acts) = live_match_step(s, LiveEvent::Select(None));
    assert_eq!(s.active_track, None);
    assert_eq!(acts, vec![LiveAction::TrackChanged]);
    let (s, acts) = live_match_step(locked("hafren", "fiesta"), LiveEvent::Select(Some("other".to_string())));
    assert_eq!(s.active_track.as_deref(), Some("hafren"));
    assert!(acts.is_empty());
}

#[test]
fn single_lock_radius_hit_is_taken() {
    let (s, acts) = live_match_step(
        with_picker(&["a", "b"], 1),
        LiveEvent::Anchors { lock_hits: picks(&["a"]), menu_hits: picks(&["a", "b"]), nav: None },
    );
    assert!(s.picker.is_none());
    assert_eq!(acts, vec![LiveAction::ResolveStage { from_menu: false, index: 0 }]);
}

#[test]
fn several_menu_hits_open_the_picker_and_ask() {
    let (s, acts) = nav(idle(), &["a", "b", "c"], None);
    let ui = s.picker.expect("picker open");
    assert_eq!(ui.index, 0);
    assert_eq!(ui.candidates.len(), 3);
    assert_eq!(acts, vec![LiveAction::AskWhereToGo]);
}

#[test]
fn single_menu_hit_is_taken() {
    let (s, acts) = nav(idle(), &["a"], None);
    assert!(s.picker.is_none());
    assert_eq!(acts, vec![LiveAction::ResolveStage { from_menu: true, index: 0 }]);
}

#[test]
fn picker_prev_wraps_from_first_to_last() {
    let (s, acts) = nav(with_picker(&["a", "b", "c"], 0), &["a", "b", "c"], Some(PickerNav::Prev));
    assert_eq!(s.picker.expect("open").index, 2);
    assert!(acts.is_empty());
}

#[test]
fn picker_next_wraps_from_last_to_first() {
    let (s, _) = nav(with_picker(&["a", "b", "c"], 2), &["a", "b", "c"], Some(PickerNav::Next));
    assert_eq!(s.picker.expect("open").index, 0);
    let (s, _) = nav(with_picker(&["a", "b", "c"], 0), &["a", "b", "c"], Some(PickerNav::Next));
    assert_eq!(s.picker.expect("open").index, 1);
}

#[test]
fn picker_keeps_the_chosen_stage_when_the_list_changes() {
    let (s, _) = nav(with_picker(&["a", "b", "c"], 1), &["c", "b"], None);
    let ui = s.picker.expect("open");
    assert_eq!(ui.index, 1);
    assert_eq!(ui.candidates[1].slug, "b");
    let (s, _) = nav(with_picker(&["a", "b"], 0), &["c", "d"], None);
    assert_eq!(s.picker.expect("open").index, 0);
}

#[test]
fn picker_confirm_takes_the_chosen_stage() {
    let (_, acts) = nav(with_picker(&["a", "b", "c"], 1), &["a", "b", "c"], Some(PickerNav::Confirm));
    assert_eq!(acts[0], LiveAction::ResolveStage { from_menu: true, index: 1 });
}

#[test]
fn picker_closes_when_at_most_one_stage_is_near() {
    let (s, acts) = nav(with_picker(&["a", "b"], 0), &[], None);
    assert!(s.picker.is_none());
    assert!(acts.is_empty());
}

#[test]
fn staged_start_arms_once_and_fires_at_the_sector() {
    let s = LiveMatchState { active_track: Some("hafren".to_string()), ..idle() };
    let stage = |s, at, hold, trig| {
        live_match_step(
            s,
            LiveEvent::Staging { conditions: true, at_stage_pos: at, hold_reached: hold, trigger_speed: trig },
        )
    };
    let (s, acts) = stage(s, false, false, false);
    assert_eq!(s.start, StartStage::Candidate);
    assert_eq!(acts, vec![LiveAction::StartStaging]);
    let (s, acts) = stage(s, true, false, false);
    assert_eq!(s.start, StartStage::Candidate);
    assert!(acts.is_empty());
    let (s, acts) = stage(s, true, true, false);
    assert_eq!(s.start, StartStage::Armed);
    assert!(s.start_anchor);
    assert_eq!(acts, vec![LiveAction::ArmStart]);
    let (s, acts) = stage(s, true, true, true);
    assert_eq!(s.start, StartStage::Armed);
    assert!(acts.is_empty());
    let (s, acts) = live_match_step(s, LiveEvent::SectorAnchored);
    assert_eq!(s.start, StartStage::Idle);
    assert!(!s.start_anchor);
    assert_eq!(acts, vec![LiveAction::EmitStartSplit]);
}

#[test]
fn armed_start_without_anchor_anchors_at_trigger_speed() {
    let s = LiveMatchState { start: StartStage::Armed, start_anchor: false, ..idle() };
    let ev = || LiveEvent::Staging { conditions: false, at_stage_pos: false, hold_reached: false, trigger_speed: true };
    let (s, acts) = live_match_step(s, ev());
    assert!(s.start_anchor);
    assert_eq!(acts, vec![LiveAction::SetStartAnchor]);
    let (_, acts) = live_match_step(s, ev());
    assert!(acts.is_empty());
}

#[test]
fn staging_conditions_lost_clear_the_candidate() {
    let s = LiveMatchState { start: StartStage::Candidate, ..idle() };
    let (s, acts) = live_match_step(
        s,
        LiveEvent::Staging { conditions: false, at_stage_pos: true, hold_reached: true, trigger_speed: false },
    );
    assert_eq!(s.start, StartStage::Idle);
    assert_eq!(acts, vec![LiveAction::ClearStaging]);
}

#[test]
fn split_on_locked_track_is_stored_else_kept_pending() {
    let (_, acts) = live_match_step(locked("hafren", "fiesta"), LiveEvent::Split { track: "hafren".to_string() });
    assert_eq!(acts, vec![LiveAction::PersistSplit]);
    let (_, acts) = live_match_step(idle(), LiveEvent::Split { track: "hafren".to_string() });
    assert_eq!(acts, vec![LiveAction::KeepSplitPending]);
}
