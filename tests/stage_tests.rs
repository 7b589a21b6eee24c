use physics_scene::stage::{run_events, Action, Event, LoadState, Stage};

#[test]
fn frames_wait_until_loaded() {
    let mut s = Stage::new();
    assert_eq!(s.step(Event::Frame), Action::Wait);
    assert_eq!(s.state, LoadState::AssetLoading);
    assert!(!s.scene_built);
}

#[test]
fn scene_built_on_first_load_only() {
    let mut s = Stage::new();
    assert_eq!(s.step(Event::AssetsLoaded), Action::BuildScene);
    assert_eq!(s.state, LoadState::Ready);
    assert!(s.scene_built);
    assert_eq!(s.step(Event::AssetsLoaded), Action::Wait);
    assert_eq!(s.step(Event::Frame), Action::RunUpdaters);
}

#[test]
fn run_builds_exactly_once() {
    let evs = vec![
        Event::Frame,
        Event::Frame,
        Event::AssetsLoaded,
        Event::Frame,
        Event::AssetsLoaded,
        Event::Frame,
    ];
    let acts = run_events(&evs);
    assert_eq!(
        acts,
        vec![
            Action::Wait,
            Action::Wait,
            Action::BuildScene,
            Action::RunUpdaters,
            Action::Wait,
            Action::RunUpdaters,
        ]
    );
    assert_eq!(acts.iter().filter(|a| **a == Action::BuildScene).count(), 1);
}

#[test]
fn run_without_load_never_builds() {
    let acts = run_events(&vec![Event::Frame; 5]);
    assert!(acts.iter().all(|a| *a == Action::Wait));
    assert!(run_events(&vec![]).is_empty());
}
