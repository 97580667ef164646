//! When a chart is created, rendered, updated and released.
//!
//! The engine's chart handle lives outside this library. The host reports
//! what happens to the owning view as [`LifecycleEvent`]s; [`step`] answers
//! each with the next [`LifecycleState`] and the one [`LifecycleAction`] the
//! host has to perform on the handle.

use crate::chart_type::ChartType;
use vstd::prelude::*;

verus! {

/// Where a chart stands in its life.
#[derive(Clone, Copy, Debug, PartialEq, Eq, Structural)]
pub enum LifecycleState {
    /// Nothing has been built yet.
    Uninitialized,
    /// The handle exists and its render is scheduled; nothing is drawn.
    Created,
    /// The chart is drawn into its mount point.
    Rendered,
    /// The chart is drawn and has taken at least one update since.
    Updated,
    /// The handle is released; nothing more may be done with it.
    Destroyed,
}

/// What happens to the view that owns a chart.
#[derive(Clone, Copy, Debug, PartialEq, Eq, Structural)]
pub enum LifecycleEvent {
    /// The view is set up with its first properties.
    Create,
    /// The mount point is attached to the document and the scheduled render
    /// comes due.
    MountReady,
    /// The series, raw options, dimensions or kind changed; the kind given
    /// is the current one.
    PropsChanged(ChartType),
    /// The view is torn down.
    Teardown,
}

/// What the host has to do with the chart handle.
#[derive(Clone, Copy, Debug, PartialEq, Eq, Structural)]
pub enum LifecycleAction {
    Nothing,
    /// Build the configuration and construct the handle from it, and
    /// schedule the render.
    CreateChart,
    /// Render the handle into the mount point.
    Render,
    /// Rebuild the configuration and replace the handle's whole
    /// configuration with it.
    UpdateOptions,
    /// Rebuild the configuration and replace only the handle's series.
    UpdateSeries,
    /// Cancel the scheduled render.
    CancelRender,
    /// Destroy the handle.
    Destroy,
}

/// A message to the component that owns a chart.
#[derive(Debug, PartialEq)]
pub enum ApexChartComponentMsg {
    /// The scheduled render has come due.
    DrawChart,
    /// A configuration text was built and is to be kept for the next update.
    OptionsUpdated(String),
}

impl LifecycleState {
    /// The chart is drawn.
    pub open spec fn drawn(self) -> bool {
        self is Rendered || self is Updated
    }
}

impl LifecycleAction {
    /// The action pushes new data to a drawn chart.
    pub open spec fn is_update(self) -> bool {
        self is UpdateOptions || self is UpdateSeries
    }
}

/// The state that follows `state` on `event`.
pub open spec fn next_state(state: LifecycleState, event: LifecycleEvent) -> LifecycleState {
    match (state, event) {
        (LifecycleState::Uninitialized, LifecycleEvent::Create) => LifecycleState::Created,
        (LifecycleState::Uninitialized, LifecycleEvent::Teardown) => LifecycleState::Destroyed,
        (LifecycleState::Created, LifecycleEvent::MountReady) => LifecycleState::Rendered,
        (LifecycleState::Created, LifecycleEvent::Teardown) => LifecycleState::Destroyed,
        (LifecycleState::Rendered, LifecycleEvent::PropsChanged(_)) => LifecycleState::Updated,
        (LifecycleState::Rendered, LifecycleEvent::Teardown) => LifecycleState::Destroyed,
        (LifecycleState::Updated, LifecycleEvent::Teardown) => LifecycleState::Destroyed,
        _ => state,
    }
}

/// What the host has to do when `event` arrives in `state`.
///
/// A chart of the radial family changes its shape and its labels together,
/// so its whole configuration is replaced; for every other chart only the
/// series are.
pub open spec fn action_for(state: LifecycleState, event: LifecycleEvent) -> LifecycleAction {
    match (state, event) {
        (LifecycleState::Uninitialized, LifecycleEvent::Create) => LifecycleAction::CreateChart,
        (LifecycleState::Created, LifecycleEvent::MountReady) => LifecycleAction::Render,
        (LifecycleState::Created, LifecycleEvent::Teardown) => LifecycleAction::CancelRender,
        (LifecycleState::Rendered, LifecycleEvent::PropsChanged(kind)) => update_for(kind),
        (LifecycleState::Updated, LifecycleEvent::PropsChanged(kind)) => update_for(kind),
        (LifecycleState::Rendered, LifecycleEvent::Teardown) => LifecycleAction::Destroy,
        (LifecycleState::Updated, LifecycleEvent::Teardown) => LifecycleAction::Destroy,
        _ => LifecycleAction::Nothing,
    }
}

/// The update that a drawn chart of the given kind takes.
pub open spec fn update_for(kind: ChartType) -> LifecycleAction {
    if kind.radial() {
        LifecycleAction::UpdateOptions
    } else {
        LifecycleAction::UpdateSeries
    }
}

/// Answers one event: the next state and what the host has to do.
pub fn step(state: LifecycleState, event: LifecycleEvent) -> (answer: (
    LifecycleState,
    LifecycleAction,
))
    ensures
        answer.0 == next_state(state, event),
        answer.1 == action_for(state, event),
{
    match state {
        LifecycleState::Uninitialized => match event {
            LifecycleEvent::Create => (LifecycleState::Created, LifecycleAction::CreateChart),
            LifecycleEvent::Teardown => (LifecycleState::Destroyed, LifecycleAction::Nothing),
            _ => (state, LifecycleAction::Nothing),
        },
        LifecycleState::Created => match event {
            LifecycleEvent::MountReady => (LifecycleState::Rendered, LifecycleAction::Render),
            LifecycleEvent::Teardown => (LifecycleState::Destroyed, LifecycleAction::CancelRender),
            _ => (state, LifecycleAction::Nothing),
        },
        LifecycleState::Rendered | LifecycleState::Updated => match event {
            LifecycleEvent::PropsChanged(kind) => {
                if kind.is_radial() {
                    (LifecycleState::Updated, LifecycleAction::UpdateOptions)
                } else {
                    (LifecycleState::Updated, LifecycleAction::UpdateSeries)
                }
            },
            LifecycleEvent::Teardown => (LifecycleState::Destroyed, LifecycleAction::Destroy),
            _ => (state, LifecycleAction::Nothing),
        },
        LifecycleState::Destroyed => (state, LifecycleAction::Nothing),
    }
}

/// The state reached from `start` after all of `events`.
pub open spec fn state_after(start: LifecycleState, events: Seq<LifecycleEvent>) -> LifecycleState
    decreases events.len(),
{
    if events.len() == 0 {
        start
    } else {
        next_state(state_after(start, events.drop_last()), events.last())
    }
}

/// What the host has to do on the event at place `at` of `events`, for a
/// chart that was in `start` before the first of them.
pub open spec fn action_at(
    start: LifecycleState,
    events: Seq<LifecycleEvent>,
    at: int,
) -> LifecycleAction {
    action_for(state_after(start, events.take(at)), events[at])
}

/// How many of the events make the host render.
pub open spec fn renders(start: LifecycleState, events: Seq<LifecycleEvent>) -> nat
    decreases events.len(),
{
    if events.len() == 0 {
        0
    } else {
        let before = renders(start, events.drop_last());
        if action_at(start, events, events.len() - 1) is Render {
            before + 1
        } else {
            before
        }
    }
}

/// Every event in `events` is a change of properties.
pub open spec fn only_changes(events: Seq<LifecycleEvent>) -> bool {
    forall|i: int| 0 <= i < events.len() ==> #[trigger] events[i] is PropsChanged
}

/// From a fresh chart, a state before the first render has seen no render
/// and a drawn state has seen exactly one; no state has seen more.
pub proof fn lemma_renders_by_state(events: Seq<LifecycleEvent>)
    ensures
        renders(LifecycleState::Uninitialized, events) <= 1,
        state_after(LifecycleState::Uninitialized, events).drawn() ==> renders(
            LifecycleState::Uninitialized,
            events,
        ) == 1,
        state_after(LifecycleState::Uninitialized, events) is Uninitialized || state_after(
            LifecycleState::Uninitialized,
            events,
        ) is Created ==> renders(LifecycleState::Uninitialized, events) == 0,
    decreases events.len(),
{
    if events.len() > 0 {
        let earlier = events.drop_last();
        lemma_renders_by_state(earlier);
        assert(events.take(events.len() - 1) =~= earlier);
    }
}

/// A chart is rendered at most once, whatever happens to its view.
pub proof fn lemma_render_at_most_once(events: Seq<LifecycleEvent>, first: int, second: int)
    requires
        0 <= first < second < events.len(),
        action_at(LifecycleState::Uninitialized, events, first) is Render,
    ensures
        !(action_at(LifecycleState::Uninitialized, events, second) is Render),
{
    lemma_state_after_render(events, first, second);
}

/// Once an event has made the host render, the chart is drawn or destroyed
/// at every later event.
pub proof fn lemma_state_after_render(events: Seq<LifecycleEvent>, first: int, later: int)
    requires
        0 <= first < later <= events.len(),
        action_at(LifecycleState::Uninitialized, events, first) is Render,
    ensures
        state_after(LifecycleState::Uninitialized, events.take(later)).drawn() || state_after(
            LifecycleState::Uninitialized,
            events.take(later),
        ) is Destroyed,
    decreases later,
{
    let upto = events.take(later);
    assert(upto.drop_last() =~= events.take(later - 1));
    assert(upto.last() == events[later - 1]);
    if later - 1 > first {
        lemma_state_after_render(events, first, later - 1);
    }
}

/// An update is never asked for before the render: the event that makes the
/// host update comes after the one that made it render.
pub proof fn lemma_no_update_before_render(events: Seq<LifecycleEvent>, at: int) -> (render: int)
    requires
        0 <= at < events.len(),
        action_at(LifecycleState::Uninitialized, events, at).is_update(),
    ensures
        0 <= render < at,
        action_at(LifecycleState::Uninitialized, events, render) is Render,
{
    lemma_drawn_after_render(events, at)
}

/// A drawn chart was rendered by one of the events before.
pub proof fn lemma_drawn_after_render(events: Seq<LifecycleEvent>, upto: int) -> (render: int)
    requires
        0 <= upto <= events.len(),
        state_after(LifecycleState::Uninitialized, events.take(upto)).drawn(),
    ensures
        0 <= render < upto,
        action_at(LifecycleState::Uninitialized, events, render) is Render,
    decreases upto,
{
    let taken = events.take(upto);
    if upto == 0 {
        assert(taken.len() == 0);
        0
    } else {
        assert(taken.drop_last() =~= events.take(upto - 1));
        assert(taken.last() == events[upto - 1]);
        if state_after(LifecycleState::Uninitialized, events.take(upto - 1)).drawn() {
            lemma_drawn_after_render(events, upto - 1)
        } else {
            upto - 1
        }
    }
}

/// Changes of properties that arrive before the mount point is attached ask
/// for nothing and leave the chart waiting for its render.
pub proof fn lemma_changes_before_mount(changes: Seq<LifecycleEvent>)
    requires
        only_changes(changes),
    ensures
        state_after(LifecycleState::Uninitialized, seq![LifecycleEvent::Create] + changes)
            is Created,
        forall|i: int|
            1 <= i <= changes.len() ==> #[trigger] action_at(
                LifecycleState::Uninitialized,
                seq![LifecycleEvent::Create] + changes,
                i,
            ) is Nothing,
    decreases changes.len(),
{
    let events = seq![LifecycleEvent::Create] + changes;
    if changes.len() == 0 {
        assert(events.drop_last() =~= Seq::empty());
        assert(state_after(LifecycleState::Uninitialized, events.drop_last())
            is Uninitialized);
    } else {
        let earlier = changes.drop_last();
        let shorter = seq![LifecycleEvent::Create] + earlier;
        lemma_changes_before_mount(earlier);
        assert(events.drop_last() =~= shorter);
        assert(events.last() == changes.last());
        assert forall|i: int| 1 <= i <= changes.len() implies #[trigger] action_at(
            LifecycleState::Uninitialized,
            events,
            i,
        ) is Nothing by {
            assert(events[i] == changes[i - 1]);
            if i < changes.len() {
                assert(events.take(i) =~= shorter.take(i));
                assert(events[i] == shorter[i]);
                assert(action_at(LifecycleState::Uninitialized, shorter, i) is Nothing);
            } else {
                assert(events.take(i) =~= shorter);
            }
        }
    }
}

/// A chart is rendered exactly once, however many changes of properties
/// arrive before the mount point is attached and whatever happens after.
pub proof fn lemma_render_exactly_once(changes: Seq<LifecycleEvent>, rest: Seq<LifecycleEvent>)
    requires
        only_changes(changes),
    ensures
        renders(
            LifecycleState::Uninitialized,
            seq![LifecycleEvent::Create] + changes + seq![LifecycleEvent::MountReady] + rest,
        ) == 1,
        action_at(
            LifecycleState::Uninitialized,
            seq![LifecycleEvent::Create] + changes + seq![LifecycleEvent::MountReady] + rest,
            changes.len() as int + 1,
        ) is Render,
{
    let waiting = seq![LifecycleEvent::Create] + changes;
    let events = waiting + seq![LifecycleEvent::MountReady] + rest;
    let mount: int = changes.len() as int + 1;
    lemma_changes_before_mount(changes);
    assert(events.take(mount) =~= waiting);
    assert(events[mount] == LifecycleEvent::MountReady);
    lemma_renders_by_state(events);
    lemma_renders_count(events, mount);
}

/// A trace with an event that makes the host render counts at least one
/// render.
pub proof fn lemma_renders_count(events: Seq<LifecycleEvent>, at: int)
    requires
        0 <= at < events.len(),
        action_at(LifecycleState::Uninitialized, events, at) is Render,
    ensures
        renders(LifecycleState::Uninitialized, events) >= 1,
    decreases events.len(),
{
    let earlier = events.drop_last();
    if at < events.len() - 1 {
        assert(earlier.take(at) =~= events.take(at));
        assert(earlier[at] == events[at]);
        lemma_renders_count(earlier, at);
    }
}

/// After the handle is released no event asks for anything.
pub proof fn lemma_nothing_after_destroy(events: Seq<LifecycleEvent>, released: int, later: int)
    requires
        0 <= released < later < events.len(),
        state_after(LifecycleState::Uninitialized, events.take(released + 1)) is Destroyed,
    ensures
        action_at(LifecycleState::Uninitialized, events, later) is Nothing,
{
    lemma_destroyed_stays(events, released + 1, later);
}

/// A destroyed chart stays destroyed.
pub proof fn lemma_destroyed_stays(events: Seq<LifecycleEvent>, from: int, upto: int)
    requires
        0 <= from <= upto <= events.len(),
        state_after(LifecycleState::Uninitialized, events.take(from)) is Destroyed,
    ensures
        state_after(LifecycleState::Uninitialized, events.take(upto)) is Destroyed,
    decreases upto,
{
    if from < upto {
        lemma_destroyed_stays(events, from, upto - 1);
        let taken = events.take(upto);
        assert(taken.drop_last() =~= events.take(upto - 1));
    }
}

/// How far a chart has come: its state, and the events that brought it
/// there.
struct Progress {
    state: LifecycleState,
    history: Ghost<Seq<LifecycleEvent>>,
}

impl Progress {
    /// The state is the one that the events so far lead to.
    #[verifier::type_invariant]
    spec fn follows_history(&self) -> bool {
        self.state == state_after(LifecycleState::Uninitialized, self.history@)
    }
}

/// The part of a chart component that the library keeps: where the chart
/// stands in its life and the configuration text built last.
pub struct RenderLifecycle {
    progress: Progress,
    options: String,
}

/// The mathematical value of a [`RenderLifecycle`].
pub struct LifecycleModel {
    pub state: LifecycleState,
    pub options: Seq<char>,
    /// The events taken so far, oldest first.
    pub history: Seq<LifecycleEvent>,
}

impl View for RenderLifecycle {
    type V = LifecycleModel;

    closed spec fn view(&self) -> LifecycleModel {
        LifecycleModel {
            state: self.progress.state,
            options: self.options@,
            history: self.progress.history@,
        }
    }
}

impl RenderLifecycle {
    /// A chart of which nothing has been built yet.
    pub fn new() -> (fresh: RenderLifecycle)
        ensures
            fresh@.state is Uninitialized,
            fresh@.options == Seq::<char>::empty(),
            fresh@.history == Seq::<LifecycleEvent>::empty(),
    {
        RenderLifecycle {
            progress: Progress {
                state: LifecycleState::Uninitialized,
                history: Ghost(Seq::empty()),
            },
            options: String::new(),
        }
    }

    /// Where the chart stands in its life: where the events taken so far
    /// have led it.
    pub fn state(&self) -> (state: LifecycleState)
        ensures
            state == self@.state,
            state == state_after(LifecycleState::Uninitialized, self@.history),
    {
        proof {
            use_type_invariant(&self.progress);
        }
        self.progress.state
    }

    /// The configuration text built last.
    pub fn options(&self) -> (options: &String)
        ensures
            options@ == self@.options,
    {
        &self.options
    }

    /// Takes one event: moves to the next state and says what the host has
    /// to do. The configuration text stays as it is.
    ///
    /// Over the life of one chart the host is asked to render at most once,
    /// and only when it was never asked before; it is asked to update only
    /// after it was asked to render.
    pub fn handle(&mut self, event: LifecycleEvent) -> (action: LifecycleAction)
        ensures
            final(self)@.history == old(self)@.history.push(event),
            final(self)@.state == next_state(old(self)@.state, event),
            final(self)@.options == old(self)@.options,
            action == action_for(old(self)@.state, event),
            action == action_at(
                LifecycleState::Uninitialized,
                final(self)@.history,
                old(self)@.history.len() as int,
            ),
            action is Render ==> renders(LifecycleState::Uninitialized, old(self)@.history) == 0,
            action.is_update() ==> renders(LifecycleState::Uninitialized, old(self)@.history) == 1,
            renders(LifecycleState::Uninitialized, final(self)@.history) == renders(
                LifecycleState::Uninitialized,
                old(self)@.history,
            ) + if action is Render {
                1nat
            } else {
                0nat
            },
            renders(LifecycleState::Uninitialized, final(self)@.history) <= 1,
    {
        let (state, action) = step(self.progress.state, event);
        let ghost before = self.progress.history@;
        let ghost after = before.push(event);
        proof {
            use_type_invariant(&self.progress);
            assert(after.drop_last() =~= before);
            assert(after.take(before.len() as int) =~= before);
            lemma_renders_by_state(before);
            lemma_renders_by_state(after);
        }
        self.progress = Progress { state, history: Ghost(after) };
        action
    }

    /// Takes one message to the component. `DrawChart` is the mount point
    /// becoming ready. `OptionsUpdated` keeps the text for the next update
    /// and asks for nothing; a destroyed chart keeps no text.
    pub fn update(&mut self, msg: ApexChartComponentMsg) -> (action: LifecycleAction)
        ensures
            final(self)@ == after_message(old(self)@, msg),
            action == action_for_message(old(self)@.state, msg),
    {
        match msg {
            ApexChartComponentMsg::DrawChart => self.handle(LifecycleEvent::MountReady),
            ApexChartComponentMsg::OptionsUpdated(options) => {
                if self.progress.state != LifecycleState::Destroyed {
                    self.options = options;
                }
                LifecycleAction::Nothing
            },
        }
    }
}

/// The component after a message.
pub open spec fn after_message(before: LifecycleModel, msg: ApexChartComponentMsg) -> LifecycleModel {
    match msg {
        ApexChartComponentMsg::DrawChart => LifecycleModel {
            state: next_state(before.state, LifecycleEvent::MountReady),
            options: before.options,
            history: before.history.push(LifecycleEvent::MountReady),
        },
        ApexChartComponentMsg::OptionsUpdated(options) => LifecycleModel {
            state: before.state,
            options: if before.state is Destroyed {
                before.options
            } else {
                options@
            },
            history: before.history,
        },
    }
}

/// What the host has to do on a message to the component.
pub open spec fn action_for_message(
    state: LifecycleState,
    msg: ApexChartComponentMsg,
) -> LifecycleAction {
    match msg {
        ApexChartComponentMsg::DrawChart => action_for(state, LifecycleEvent::MountReady),
        ApexChartComponentMsg::OptionsUpdated(_) => LifecycleAction::Nothing,
    }
}

} // verus!
