use sprite_anim::clip::{player_catalog, AnimationClip, AtlasRef, ClipCatalog};
use sprite_anim::label::PlayerState;
use sprite_anim::playback::{ConfigError, PlaybackState};

const MS: u64 = 1_000_000;

fn idle_atlas() -> AtlasRef {
    AtlasRef { id: 1 }
}

fn run_atlas() -> AtlasRef {
    AtlasRef { id: 2 }
}

fn spawn_idle(interval: u64) -> (ClipCatalog, PlaybackState) {
    let catalog = player_catalog(idle_atlas(), run_atlas());
    let state = PlaybackState::spawn(&catalog, PlayerState::Idle, interval).unwrap();
    (catalog, state)
}

#[test]
fn spawn_starts_at_first_frame() {
    let (_, s) = spawn_idle(70 * MS);
    assert_eq!(s.active_label, PlayerState::Idle);
    assert_eq!(s.frame_index, 0);
    assert_eq!(s.elapsed, 0);
    assert_eq!(s.tick_interval, 70 * MS);
    assert_eq!(s.atlas_ref, idle_atlas());
}

#[test]
fn spawn_with_missing_label_fails() {
    let mut catalog = ClipCatalog::new();
    catalog.insert(PlayerState::Idle, AnimationClip::new(0, 11), idle_atlas());
    let r = PlaybackState::spawn(&catalog, PlayerState::Run, 70 * MS);
    assert_eq!(r, Err(ConfigError::MissingClip(PlayerState::Run)));
}

#[test]
fn frame_sequence_over_three_ticks() {
    let (catalog, mut s) = spawn_idle(70 * MS);
    let mut seen = Vec::new();
    for dt in [70 * MS, 70 * MS, 30 * MS] {
        s.update(&catalog, dt, None).unwrap();
        seen.push(s.frame_index);
    }
    assert_eq!(seen, vec![1, 2, 2]);
    assert_eq!(s.elapsed, 30 * MS);
}

#[test]
fn wrap_from_last_frame() {
    let (catalog, mut s) = spawn_idle(70 * MS);
    for _ in 0..11 {
        s.update(&catalog, 70 * MS, None).unwrap();
    }
    assert_eq!(s.frame_index, 11);
    s.update(&catalog, 70 * MS, None).unwrap();
    assert_eq!(s.frame_index, 0);
    assert_eq!(s.elapsed, 0);
}

#[test]
fn catch_up_over_three_and_a_half_intervals() {
    let (catalog, mut s) = spawn_idle(70 * MS);
    s.update(&catalog, 245 * MS, None).unwrap();
    assert_eq!(s.frame_index, 3);
    assert_eq!(s.elapsed, 35 * MS);
}

#[test]
fn catch_up_wraps_past_last_frame() {
    let (catalog, mut s) = spawn_idle(70 * MS);
    for _ in 0..10 {
        s.update(&catalog, 70 * MS, None).unwrap();
    }
    assert_eq!(s.frame_index, 10);
    s.update(&catalog, 245 * MS, None).unwrap();
    assert_eq!(s.frame_index, 1);
    assert_eq!(s.elapsed, 35 * MS);
}

#[test]
fn very_long_stall_stays_in_clip() {
    let (catalog, mut s) = spawn_idle(70 * MS);
    s.update(&catalog, u64::MAX, None).unwrap();
    let steps = u64::MAX / (70 * MS);
    assert_eq!(s.frame_index as u64, steps % 12);
    assert_eq!(s.elapsed, u64::MAX % (70 * MS));
}

#[test]
fn same_state_command_changes_nothing() {
    let (catalog, mut a) = spawn_idle(70 * MS);
    a.update(&catalog, 100 * MS, None).unwrap();
    let mut b = a;
    a.update(&catalog, 50 * MS, Some(PlayerState::Idle)).unwrap();
    b.update(&catalog, 50 * MS, None).unwrap();
    assert_eq!(a, b);
    assert_eq!(a.frame_index, 2);
    assert_eq!(a.elapsed, 10 * MS);
}

#[test]
fn swap_sets_atlas_and_first_frame_together() {
    let (catalog, mut s) = spawn_idle(70 * MS);
    s.update(&catalog, 200 * MS, None).unwrap();
    assert_eq!(s.frame_index, 2);
    s.update(&catalog, 30 * MS, Some(PlayerState::Run)).unwrap();
    assert_eq!(s.active_label, PlayerState::Run);
    assert_eq!(s.atlas_ref, run_atlas());
    assert_eq!(s.frame_index, 0);
    assert_eq!(s.elapsed, 30 * MS);
}

#[test]
fn swap_discards_partial_interval() {
    let (catalog, mut s) = spawn_idle(70 * MS);
    s.update(&catalog, 60 * MS, None).unwrap();
    s.update(&catalog, 20 * MS, Some(PlayerState::Run)).unwrap();
    assert_eq!(s.frame_index, 0);
    assert_eq!(s.elapsed, 20 * MS);
}

#[test]
fn run_clip_wraps_at_its_own_last_frame() {
    let (catalog, mut s) = spawn_idle(70 * MS);
    s.update(&catalog, 0, Some(PlayerState::Run)).unwrap();
    s.update(&catalog, 9 * 70 * MS, None).unwrap();
    assert_eq!(s.frame_index, 9);
    s.update(&catalog, 70 * MS, None).unwrap();
    assert_eq!(s.frame_index, 0);
}

#[test]
fn idle_run_idle_with_no_time() {
    let (catalog, mut s) = spawn_idle(70 * MS);
    s.update(&catalog, 0, Some(PlayerState::Idle)).unwrap();
    s.update(&catalog, 0, Some(PlayerState::Run)).unwrap();
    assert_eq!(s.atlas_ref, run_atlas());
    s.update(&catalog, 0, Some(PlayerState::Idle)).unwrap();
    assert_eq!(s.active_label, PlayerState::Idle);
    assert_eq!(s.frame_index, 0);
    assert_eq!(s.atlas_ref, idle_atlas());
}

#[test]
fn unknown_state_is_reported_and_ignored() {
    let mut catalog = ClipCatalog::new();
    catalog.insert(PlayerState::Idle, AnimationClip::new(0, 11), idle_atlas());
    let mut s = PlaybackState::spawn(&catalog, PlayerState::Idle, 70 * MS).unwrap();
    let r = s.update(&catalog, 70 * MS, Some(PlayerState::Run));
    assert_eq!(r, Err(ConfigError::MissingClip(PlayerState::Run)));
    assert_eq!(s.active_label, PlayerState::Idle);
    assert_eq!(s.atlas_ref, idle_atlas());
    assert_eq!(s.frame_index, 1);
}

#[test]
fn single_frame_clip_stays_put() {
    let mut catalog = ClipCatalog::new();
    catalog.insert(PlayerState::Idle, AnimationClip::new(4, 4), idle_atlas());
    let mut s = PlaybackState::spawn(&catalog, PlayerState::Idle, 10).unwrap();
    s.update(&catalog, 35, None).unwrap();
    assert_eq!(s.frame_index, 4);
    assert_eq!(s.elapsed, 5);
}

#[test]
fn clip_with_offset_range() {
    let mut catalog = ClipCatalog::new();
    catalog.insert(PlayerState::Run, AnimationClip::new(5, 7), run_atlas());
    let mut s = PlaybackState::spawn(&catalog, PlayerState::Run, 10).unwrap();
    assert_eq!(s.frame_index, 5);
    s.update(&catalog, 20, None).unwrap();
    assert_eq!(s.frame_index, 7);
    s.update(&catalog, 10, None).unwrap();
    assert_eq!(s.frame_index, 5);
}
