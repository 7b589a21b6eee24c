//! When the scene is built: the load state and the decisions taken on each event.
use vstd::prelude::*;

verus! {

/// Whether the model asset is still loading.
#[derive(Clone, Copy, Debug, PartialEq, Eq, Structural)]
pub enum LoadState {
    AssetLoading,
    Ready,
}

/// What the driving loop reports.
#[derive(Clone, Copy, Debug, PartialEq, Eq, Structural)]
pub enum Event {
    /// Every requested asset has finished loading.
    AssetsLoaded,
    /// A frame has begun.
    Frame,
}

/// What the driving loop is to do next.
#[derive(Clone, Copy, Debug, PartialEq, Eq, Structural)]
pub enum Action {
    /// Nothing yet.
    Wait,
    /// Build the scene, now that the asset is there.
    BuildScene,
    /// Run the per-frame updaters.
    RunUpdaters,
}

/// The load stage: the load state and whether the scene has been built.
#[derive(Clone, Copy, Debug, PartialEq, Eq, Structural)]
pub struct Stage {
    pub state: LoadState,
    pub scene_built: bool,
}

/// The next stage and the action for `e` in stage `s`.
pub open spec fn step_spec(s: Stage, e: Event) -> (Stage, Action) {
    match (s.state, e) {
        (LoadState::AssetLoading, Event::AssetsLoaded) => (
            Stage { state: LoadState::Ready, scene_built: true },
            Action::BuildScene,
        ),
        (LoadState::AssetLoading, Event::Frame) => (s, Action::Wait),
        (LoadState::Ready, Event::Frame) => (s, Action::RunUpdaters),
        (LoadState::Ready, Event::AssetsLoaded) => (s, Action::Wait),
    }
}

/// The actions taken, one per event, from stage `s` on.
pub open spec fn actions(s: Stage, events: Seq<Event>) -> Seq<Action>
    decreases events.len(),
{
    if events.len() == 0 {
        Seq::empty()
    } else {
        let (next, a) = step_spec(s, events[0]);
        seq![a] + actions(next, events.drop_first())
    }
}

/// Whether the stage is consistent: the scene is built exactly when the asset
/// is ready.
pub open spec fn stage_wf(s: Stage) -> bool {
    s.scene_built <==> s.state == LoadState::Ready
}

impl Stage {
    /// The stage at start: loading, nothing built.
    pub fn new() -> (r: Stage)
        ensures
            r == (Stage { state: LoadState::AssetLoading, scene_built: false }),
            stage_wf(r),
    {
        Stage { state: LoadState::AssetLoading, scene_built: false }
    }

    /// Takes one event and says what to do.
    pub fn step(&mut self, e: Event) -> (a: Action)
        ensures
            (*final(self), a) == step_spec(*old(self), e),
            stage_wf(*old(self)) ==> stage_wf(*final(self)),
    {
        match (self.state, e) {
            (LoadState::AssetLoading, Event::AssetsLoaded) => {
                self.state = LoadState::Ready;
                self.scene_built = true;
                Action::BuildScene
            },
            (LoadState::AssetLoading, Event::Frame) => Action::Wait,
            (LoadState::Ready, Event::Frame) => Action::RunUpdaters,
            (LoadState::Ready, Event::AssetsLoaded) => Action::Wait,
        }
    }
}

/// Runs the stage from the start over a run of events and gives the actions.
pub fn run_events(events: &Vec<Event>) -> (r: Vec<Action>)
    ensures
        r@ == actions(Stage { state: LoadState::AssetLoading, scene_built: false }, events@),
{
    let mut s = Stage::new();
    let mut r: Vec<Action> = Vec::new();
    let mut i: usize = 0;
    assert(events@.skip(0) =~= events@);
    assert(r@ + actions(s, events@) =~= actions(s, events@));
    while i < events.len()
        invariant
            i <= events@.len(),
            r@ + actions(s, events@.skip(i as int)) == actions(
                Stage { state: LoadState::AssetLoading, scene_built: false },
                events@,
            ),
        decreases events@.len() - i,
    {
        let ghost s0 = s;
        let ghost r0 = r@;
        let a = s.step(events[i]);
        assert(events@.skip(i as int).drop_first() =~= events@.skip(i as int + 1));
        assert(events@.skip(i as int)[0] == events@[i as int]);
        r.push(a);
        assert(r@ + actions(s, events@.skip(i as int + 1)) =~= r0 + actions(
            s0,
            events@.skip(i as int),
        ));
        i = i + 1;
    }
    assert(events@.skip(i as int) =~= Seq::<Event>::empty());
    assert(r@ + Seq::<Action>::empty() =~= r@);
    r
}

/// Whether `i` is the first position of `events` at which loading finished.
pub open spec fn first_load_at(events: Seq<Event>, i: int) -> bool {
    &&& 0 <= i < events.len()
    &&& events[i] == Event::AssetsLoaded
    &&& forall|j: int| 0 <= j < i ==> events[j] != Event::AssetsLoaded
}

proof fn lemma_actions_from(s: Stage, events: Seq<Event>)
    ensures
        actions(s, events).len() == events.len(),
        forall|i: int|
            0 <= i < events.len() ==> (#[trigger] actions(s, events)[i] == Action::BuildScene <==> (
            s.state == LoadState::AssetLoading && first_load_at(events, i))),
    decreases events.len(),
{
    if events.len() > 0 {
        let (next, a) = step_spec(s, events[0]);
        let rest = events.drop_first();
        lemma_actions_from(next, rest);
        assert forall|i: int| 0 <= i < events.len() implies (#[trigger] actions(s, events)[i]
            == Action::BuildScene <==> (s.state == LoadState::AssetLoading && first_load_at(
            events,
            i,
        ))) by {
            if i > 0 {
                assert(actions(s, events)[i] == actions(next, rest)[i - 1]);
                if first_load_at(rest, i - 1) && s.state == LoadState::AssetLoading && events[0]
                    != Event::AssetsLoaded {
                    assert forall|j: int| 0 <= j < i implies events[j] != Event::AssetsLoaded by {
                        if j > 0 {
                            assert(events[j] == rest[j - 1]);
                        }
                    }
                }
                if first_load_at(events, i) {
                    assert(events[0] != Event::AssetsLoaded);
                    assert forall|j: int| 0 <= j < i - 1 implies rest[j] != Event::AssetsLoaded by {
                        assert(rest[j] == events[j + 1]);
                    }
                }
            }
        }
    }
}

/// From the start, the scene is built exactly once: in answer to the first
/// report that loading finished, and at no other event. Before that report
/// it is never built; without one it is never built at all.
pub proof fn lemma_scene_built_once(events: Seq<Event>)
    ensures
        actions(Stage { state: LoadState::AssetLoading, scene_built: false }, events).len()
            == events.len(),
        forall|i: int|
            0 <= i < events.len() ==> (#[trigger] actions(
                Stage { state: LoadState::AssetLoading, scene_built: false },
                events,
            )[i] == Action::BuildScene <==> first_load_at(events, i)),
{
    lemma_actions_from(Stage { state: LoadState::AssetLoading, scene_built: false }, events);
}

} // verus!
