//! The mathematical model of the coordination state and of every step
//! that changes it, together with the laws that hold of all histories.

use crate::caps::{watcher_for, ClientCaps, WatcherKind};
use crate::ident::selector_text;
use crate::listeners::{install_order, lemma_all_or_nothing, Binding, ListenerSet, Signal};
use vstd::prelude::*;

verus! {

/// The four operations of a control watcher.
#[derive(Clone, Copy, Debug, PartialEq, Eq, Structural)]
pub enum PointerOp {
    Down,
    Up,
    Moved,
    Left,
}

/// What the host observed when one of the global listeners fired. `E` is
/// the type of control events, which the coordinator passes on unread.
#[derive(Clone, Debug, PartialEq, Eq)]
pub enum HostSignal<E> {
    /// A pointer signal was handed to the control watcher's operation;
    /// carries the control event where the watcher yielded one.
    Pointer(PointerOp, Option<E>),
    /// The window was resized.
    Resize,
    /// The orientation changed; carries the capabilities detected anew.
    Orientation(ClientCaps),
}

/// What the host has to hand to every chart, in registry order.
#[derive(Clone, Debug, PartialEq, Eq)]
pub enum Broadcast<E> {
    /// Nothing: the watcher yielded no control event.
    Nothing,
    /// The control event, as the watcher yielded it.
    ControlEvent(E),
    /// A resize notification.
    Resize,
}

/// The coordination state as a mathematical value.
pub struct Model<C> {
    /// The selectors of the registered charts, oldest first.
    pub ids: Seq<Seq<char>>,
    /// The registered charts, in the same order.
    pub charts: Seq<C>,
    /// The global listeners that are attached.
    pub listeners: ListenerSet,
    /// The frame callback exists.
    pub frame_callback: bool,
    /// A frame is scheduled with the host and has not run yet.
    pub frame_pending: bool,
    /// The device class, fixed at construction.
    pub touch_device: bool,
    /// The family of the shared control watcher, fixed at construction.
    pub watcher: WatcherKind,
    /// The latest capabilities snapshot.
    pub caps: ClientCaps,
}

/// One step of a history.
pub enum Step<C, E> {
    /// A chart was prepared with this wrapper suffix and registered.
    Create(nat, C),
    /// Destruction was asked for this selector; the flag tells whether the
    /// wrapper element was still in the document.
    Destroy(Seq<char>, bool),
    /// A global listener fired.
    Signal(HostSignal<E>),
    /// A frame ran; carries what each chart's draw left pending.
    Frame(Seq<usize>),
}

/// The listener slot through which a signal arrives.
pub open spec fn slot_of<E>(signal: HostSignal<E>) -> Signal {
    match signal {
        HostSignal::Pointer(PointerOp::Down, _) => Signal::PointerDown,
        HostSignal::Pointer(PointerOp::Up, _) => Signal::PointerUp,
        HostSignal::Pointer(PointerOp::Moved, _) => Signal::PointerMove,
        HostSignal::Pointer(PointerOp::Left, _) => Signal::PointerLeave,
        HostSignal::Resize => Signal::Resize,
        HostSignal::Orientation(_) => Signal::Orientation,
    }
}

/// What a signal makes the host hand to the charts: the control event,
/// unchanged, where the watcher yielded one, and a resize for a resize or
/// orientation signal.
pub open spec fn broadcast_of<E>(signal: HostSignal<E>) -> Broadcast<E> {
    match signal {
        HostSignal::Pointer(_, Some(event)) => Broadcast::ControlEvent(event),
        HostSignal::Pointer(_, None) => Broadcast::Nothing,
        HostSignal::Resize => Broadcast::Resize,
        HostSignal::Orientation(_) => Broadcast::Resize,
    }
}

/// A signal asks for a frame exactly when it broadcasts something.
pub open spec fn requests_frame<E>(signal: HostSignal<E>) -> bool {
    !(broadcast_of(signal) is Nothing)
}

/// The sum of the pending actions that the charts report.
pub open spec fn total_pending(pending: Seq<usize>) -> nat
    decreases pending.len(),
{
    if pending.len() == 0 {
        0
    } else {
        total_pending(pending.drop_last()) + pending.last() as nat
    }
}

impl<C> Model<C> {
    /// The state of a fresh coordinator: nothing registered, nothing
    /// attached, nothing scheduled.
    pub open spec fn initial(touch_device: bool, caps: ClientCaps) -> Model<C> {
        Model {
            ids: Seq::empty(),
            charts: Seq::empty(),
            listeners: ListenerSet::absent(),
            frame_callback: false,
            frame_pending: false,
            touch_device,
            watcher: watcher_for(touch_device),
            caps,
        }
    }

    /// What holds between any two steps, whether or not listeners and
    /// registry agree yet.
    pub open spec fn coherent(self) -> bool {
        &&& self.ids.len() == self.charts.len()
        &&& self.ids.no_duplicates()
        &&& self.listeners.wf(self.touch_device)
        &&& self.listeners.installed() ==> self.frame_callback
        &&& self.frame_pending ==> self.frame_callback
        &&& self.watcher == watcher_for(self.touch_device)
    }

    /// The invariant of the coordinator: identifiers and charts correspond
    /// one to one, no identifier is registered twice, and the listener set
    /// is attached exactly while a chart is registered.
    pub open spec fn wf(self) -> bool {
        &&& self.coherent()
        &&& self.listeners.installed() <==> self.ids.len() > 0
    }

    /// The state after a frame was asked for.
    pub open spec fn request_frame(self) -> Model<C> {
        Model { frame_pending: true, ..self }
    }

    /// Asking for a frame reaches the host only when none is pending.
    pub open spec fn schedules_on_request(self) -> bool {
        !self.frame_pending
    }

    /// The state after the listeners were made sure of: untouched where the
    /// sentinel is attached; else the full set for the device class and the
    /// present capabilities, the frame callback, and a first frame.
    pub open spec fn ensure_listeners(self) -> Model<C> {
        if self.listeners.installed() {
            self
        } else {
            Model {
                listeners: ListenerSet::full(self.touch_device, self.caps.screen_orientation),
                frame_callback: true,
                frame_pending: true,
                ..self
            }
        }
    }

    /// The listeners that making sure attaches, in order.
    pub open spec fn setup_bindings(self) -> Seq<Binding> {
        if self.listeners.installed() {
            Seq::empty()
        } else {
            install_order(self.touch_device, self.caps.screen_orientation)
        }
    }

    /// Making sure creates the frame callback only once in a lifetime.
    pub open spec fn setup_installs_callback(self) -> bool {
        !self.listeners.installed() && !self.frame_callback
    }

    /// Making sure schedules a frame when it attached the set and none was
    /// pending.
    pub open spec fn setup_schedules(self) -> bool {
        !self.listeners.installed() && !self.frame_pending
    }

    /// No registered chart carries the selector of this suffix.
    pub open spec fn suffix_free(self, suffix: nat) -> bool {
        !self.ids.contains(selector_text(suffix))
    }

    /// The state after a chart with the given wrapper suffix was
    /// registered.
    pub open spec fn create(self, suffix: nat, chart: C) -> Model<C> {
        Model {
            ids: self.ids.push(selector_text(suffix)),
            charts: self.charts.push(chart),
            ..self
        }.ensure_listeners()
    }

    /// Where the chart with this selector stands.
    pub open spec fn position(self, id: Seq<char>) -> Option<int> {
        self.ids.index_of_first(id)
    }

    /// The state after the chart at `index` was removed: the others keep
    /// their order, and the listeners go with the last chart.
    pub open spec fn remove_at(self, index: int) -> Model<C> {
        Model {
            ids: self.ids.remove(index),
            charts: self.charts.remove(index),
            listeners: if self.ids.len() == 1 {
                ListenerSet::absent()
            } else {
                self.listeners
            },
            ..self
        }
    }

    /// Destruction succeeds when the selector is registered and its
    /// wrapper is still in the document.
    pub open spec fn can_destroy(self, id: Seq<char>, wrapper_present: bool) -> bool {
        self.position(id).is_some() && wrapper_present
    }

    /// The state after destruction was asked: changed only on success.
    pub open spec fn destroy(self, id: Seq<char>, wrapper_present: bool) -> Model<C> {
        if self.can_destroy(id, wrapper_present) {
            self.remove_at(self.position(id).unwrap())
        } else {
            self
        }
    }

    /// The state after a listener fired: an orientation signal replaces
    /// the capabilities snapshot, and whatever broadcasts asks for a frame.
    pub open spec fn dispatch<E>(self, signal: HostSignal<E>) -> Model<C> {
        let refreshed = match signal {
            HostSignal::Orientation(caps) => Model { caps, ..self },
            _ => self,
        };
        if requests_frame(signal) {
            refreshed.request_frame()
        } else {
            refreshed
        }
    }

    /// A dispatch schedules a frame with the host when the signal asks for
    /// one and none is pending.
    pub open spec fn dispatch_schedules<E>(self, signal: HostSignal<E>) -> bool {
        requests_frame(signal) && !self.frame_pending
    }

    /// The state when a frame starts: the pending mark is cleared before
    /// any chart draws.
    pub open spec fn begin_frame(self) -> Model<C> {
        Model { frame_pending: false, ..self }
    }

    /// The state when a frame ends: another frame is asked for exactly when
    /// work is left.
    pub open spec fn finish_frame(self, pending: Seq<usize>) -> Model<C> {
        if total_pending(pending) > 0 {
            self.request_frame()
        } else {
            self
        }
    }

    /// The end of a frame schedules the next one when work is left and no
    /// draw has asked for it already.
    pub open spec fn finish_schedules(self, pending: Seq<usize>) -> bool {
        total_pending(pending) > 0 && !self.frame_pending
    }

    /// The state after one step of a history. A creation counts only where
    /// the suffix is free, a signal only where a listener serves it, a
    /// frame only where the callback exists.
    pub open spec fn step<E>(self, step: Step<C, E>) -> Model<C> {
        match step {
            Step::Create(suffix, chart) => if self.suffix_free(suffix) {
                self.create(suffix, chart)
            } else {
                self
            },
            Step::Destroy(id, wrapper_present) => self.destroy(id, wrapper_present),
            Step::Signal(signal) => if self.listeners.slot(slot_of(signal)).is_some() {
                self.dispatch(signal)
            } else {
                self
            },
            Step::Frame(pending) => if self.frame_callback {
                self.begin_frame().finish_frame(pending)
            } else {
                self
            },
        }
    }

    /// The state after a whole history.
    pub open spec fn run<E>(self, steps: Seq<Step<C, E>>) -> Model<C>
        decreases steps.len(),
    {
        if steps.len() == 0 {
            self
        } else {
            self.run(steps.drop_last()).step(steps.last())
        }
    }

    /// How many frames a run of signals schedules with the host.
    pub open spec fn frames_scheduled<E>(self, signals: Seq<HostSignal<E>>) -> nat
        decreases signals.len(),
    {
        if signals.len() == 0 {
            0
        } else {
            let before = self.after_signals(signals.drop_last());
            self.frames_scheduled(signals.drop_last()) + if before.dispatch_schedules(
                signals.last(),
            ) {
                1nat
            } else {
                0nat
            }
        }
    }

    /// The state after a run of signals.
    pub open spec fn after_signals<E>(self, signals: Seq<HostSignal<E>>) -> Model<C>
        decreases signals.len(),
    {
        if signals.len() == 0 {
            self
        } else {
            self.after_signals(signals.drop_last()).dispatch(signals.last())
        }
    }
}

/// A fresh coordinator satisfies the invariant.
pub proof fn lemma_initial_wf<C>(touch_device: bool, caps: ClientCaps)
    ensures
        Model::<C>::initial(touch_device, caps).wf(),
{
}

/// Making sure of the listeners establishes the invariant on a non-empty
/// registry.
pub proof fn lemma_ensure_listeners_wf<C>(m: Model<C>)
    requires
        m.coherent(),
        m.ids.len() > 0,
    ensures
        m.ensure_listeners().wf(),
        m.ensure_listeners().listeners.installed(),
{
    let full = ListenerSet::full(m.touch_device, m.caps.screen_orientation);
    assert(full.is_full(m.touch_device, m.caps.screen_orientation));
}

/// Making sure of the listeners twice in a row attaches one set: the
/// second time changes nothing, attaches nothing and schedules nothing.
pub proof fn lemma_ensure_listeners_idempotent<C>(m: Model<C>)
    requires
        m.coherent(),
        m.ids.len() > 0,
    ensures
        m.ensure_listeners().ensure_listeners() == m.ensure_listeners(),
        m.ensure_listeners().setup_bindings() == Seq::<Binding>::empty(),
        !m.ensure_listeners().setup_installs_callback(),
        !m.ensure_listeners().setup_schedules(),
{
    lemma_ensure_listeners_wf(m);
}

/// Registration under a free suffix keeps the invariant, adds one chart at
/// the end under a selector that was not registered before, and leaves the
/// listeners attached.
pub proof fn lemma_create_wf<C>(m: Model<C>, suffix: nat, chart: C)
    requires
        m.wf(),
        m.suffix_free(suffix),
    ensures
        m.create(suffix, chart).wf(),
        m.create(suffix, chart).ids.no_duplicates(),
        m.create(suffix, chart).ids.last() == selector_text(suffix),
        m.create(suffix, chart).ids.len() == m.ids.len() + 1,
        m.create(suffix, chart).charts.len() == m.charts.len() + 1,
        m.create(suffix, chart).listeners.installed(),
        m.listeners.installed() ==> m.create(suffix, chart).listeners == m.listeners,
{
    let grown = Model {
        ids: m.ids.push(selector_text(suffix)),
        charts: m.charts.push(chart),
        ..m
    };
    assert forall|i: int, j: int|
        0 <= i < grown.ids.len() && 0 <= j < grown.ids.len() && i != j implies grown.ids[i]
        != grown.ids[j] by {
        if i < m.ids.len() {
            assert(m.ids.contains(m.ids[i]));
        }
        if j < m.ids.len() {
            assert(m.ids.contains(m.ids[j]));
        }
    }
    lemma_ensure_listeners_wf(grown);
}

/// Destruction keeps the invariant. On success it removes one chart and
/// leaves the listeners absent exactly when the registry is empty; on
/// failure nothing changes.
pub proof fn lemma_destroy_wf<C>(m: Model<C>, id: Seq<char>, wrapper_present: bool)
    requires
        m.wf(),
    ensures
        m.destroy(id, wrapper_present).wf(),
        m.can_destroy(id, wrapper_present) ==> m.destroy(id, wrapper_present).ids.len()
            == m.ids.len() - 1,
        !m.can_destroy(id, wrapper_present) ==> m.destroy(id, wrapper_present) == m,
        m.destroy(id, wrapper_present).ids.len() == 0 ==> m.destroy(
            id,
            wrapper_present,
        ).listeners == ListenerSet::absent(),
{
    m.ids.index_of_first_ensures(id);
    lemma_all_or_nothing(m.listeners, m.touch_device);
    if m.can_destroy(id, wrapper_present) {
        let index = m.position(id).unwrap();
        m.ids.remove_ensures(index);
        m.charts.remove_ensures(index);
        assert(ListenerSet::absent().is_absent());
        let rest = m.ids.remove(index);
        assert forall|i: int, j: int|
            0 <= i < rest.len() && 0 <= j < rest.len() && i != j implies rest[i] != rest[j] by {
            let from_i = if i < index { i } else { i + 1 };
            let from_j = if j < index { j } else { j + 1 };
            assert(rest[i] == m.ids[from_i]);
            assert(rest[j] == m.ids[from_j]);
        }
    }
}

/// Destroying the same selector twice fails the second time with nothing
/// found: once a chart is gone, its selector is registered no more.
pub proof fn lemma_destroy_twice<C>(m: Model<C>, id: Seq<char>)
    requires
        m.wf(),
        m.position(id).is_some(),
    ensures
        m.destroy(id, true).position(id).is_none(),
        !m.destroy(id, true).can_destroy(id, true),
        m.destroy(id, true).destroy(id, true) == m.destroy(id, true),
{
    m.ids.index_of_first_ensures(id);
    let index = m.position(id).unwrap();
    let rest = m.ids.remove(index);
    m.ids.remove_ensures(index);
    rest.index_of_first_ensures(id);
    if rest.contains(id) {
        let k = choose|k: int| 0 <= k < rest.len() && rest[k] == id;
        if k < index {
            assert(m.ids[k] == id);
        } else {
            assert(m.ids[k + 1] == id);
        }
    }
}

/// A signal or a frame keeps the invariant and leaves registry and
/// listeners alone.
pub proof fn lemma_dispatch_wf<C, E>(m: Model<C>, signal: HostSignal<E>)
    requires
        m.wf(),
        m.listeners.slot(slot_of(signal)).is_some(),
    ensures
        m.dispatch(signal).wf(),
        m.dispatch(signal).ids == m.ids,
        m.dispatch(signal).charts == m.charts,
        m.dispatch(signal).listeners == m.listeners,
{
    lemma_all_or_nothing(m.listeners, m.touch_device);
}

/// Whatever the history of creations, destructions, signals and frames, the
/// identifiers and the charts stay equal in number, and the listener set is
/// attached exactly while the registry is non-empty: with the last chart
/// gone, no listener is left.
pub proof fn lemma_history_keeps_invariant<C, E>(
    touch_device: bool,
    caps: ClientCaps,
    steps: Seq<Step<C, E>>,
)
    ensures
        Model::<C>::initial(touch_device, caps).run(steps).wf(),
        Model::<C>::initial(touch_device, caps).run(steps).ids.len() == Model::<C>::initial(
            touch_device,
            caps,
        ).run(steps).charts.len(),
        Model::<C>::initial(touch_device, caps).run(steps).ids.no_duplicates(),
        Model::<C>::initial(touch_device, caps).run(steps).listeners.installed() <==> Model::<
            C,
        >::initial(touch_device, caps).run(steps).ids.len() > 0,
        Model::<C>::initial(touch_device, caps).run(steps).ids.len() == 0 ==> Model::<C>::initial(
            touch_device,
            caps,
        ).run(steps).listeners == ListenerSet::absent(),
{
    let start = Model::<C>::initial(touch_device, caps);
    lemma_initial_wf::<C>(touch_device, caps);
    lemma_run_keeps_device(start, steps);
    lemma_all_or_nothing(start.run(steps).listeners, touch_device);
}

/// One step of a history keeps the invariant.
pub proof fn lemma_step_wf<C, E>(m: Model<C>, step: Step<C, E>)
    requires
        m.wf(),
    ensures
        m.step(step).wf(),
        m.step(step).touch_device == m.touch_device,
        m.step(step).watcher == m.watcher,
{
    match step {
        Step::Create(suffix, chart) => {
            if m.suffix_free(suffix) {
                lemma_create_wf(m, suffix, chart);
            }
        },
        Step::Destroy(id, wrapper_present) => {
            lemma_destroy_wf(m, id, wrapper_present);
        },
        Step::Signal(signal) => {
            if m.listeners.slot(slot_of(signal)).is_some() {
                lemma_dispatch_wf(m, signal);
            }
        },
        Step::Frame(pending) => {},
    }
}

/// The device class and the watcher family never change.
pub proof fn lemma_run_keeps_device<C, E>(m: Model<C>, steps: Seq<Step<C, E>>)
    requires
        m.wf(),
    ensures
        m.run(steps).wf(),
        m.run(steps).touch_device == m.touch_device,
        m.run(steps).watcher == m.watcher,
    decreases steps.len(),
{
    if steps.len() > 0 {
        lemma_run_keeps_device(m, steps.drop_last());
        lemma_step_wf(m.run(steps.drop_last()), steps.last());
    }
}

/// However many signals arrive before the next frame runs, the host is
/// asked for at most one frame: for exactly one when no frame was pending
/// and some signal broadcasts, for none otherwise. Afterwards a frame is
/// pending exactly when one was before or some signal broadcast.
pub proof fn lemma_signals_coalesce<C, E>(m: Model<C>, signals: Seq<HostSignal<E>>)
    ensures
        m.frames_scheduled(signals) == if !m.frame_pending && exists|i: int|
            0 <= i < signals.len() && requests_frame(#[trigger] signals[i]) {
            1nat
        } else {
            0nat
        },
        m.after_signals(signals).frame_pending == (m.frame_pending || exists|i: int|
            0 <= i < signals.len() && requests_frame(#[trigger] signals[i])),
    decreases signals.len(),
{
    if signals.len() > 0 {
        let front = signals.drop_last();
        lemma_signals_coalesce(m, front);
        let some_front = exists|i: int| 0 <= i < front.len() && requests_frame(#[trigger] front[i]);
        let some_all = exists|i: int|
            0 <= i < signals.len() && requests_frame(#[trigger] signals[i]);
        if some_front {
            let i = choose|i: int| 0 <= i < front.len() && requests_frame(#[trigger] front[i]);
            assert(requests_frame(signals[i]));
        }
        if requests_frame(signals.last()) {
            assert(requests_frame(signals[signals.len() - 1]));
        }
        if some_all {
            let i = choose|i: int| 0 <= i < signals.len() && requests_frame(#[trigger] signals[i]);
            if i < front.len() {
                assert(requests_frame(front[i]));
            }
        }
        assert(some_all == (some_front || requests_frame(signals.last())));
    }
}

/// A run of control events, each yielded by the watcher, schedules exactly
/// one frame when none was pending.
pub proof fn lemma_control_events_schedule_one_frame<C, E>(
    m: Model<C>,
    signals: Seq<HostSignal<E>>,
)
    requires
        !m.frame_pending,
        signals.len() > 0,
        forall|i: int| 0 <= i < signals.len() ==> requests_frame(#[trigger] signals[i]),
    ensures
        m.frames_scheduled(signals) == 1,
        m.after_signals(signals).frame_pending,
{
    lemma_signals_coalesce(m, signals);
    assert(requests_frame(signals[0]));
}

/// A frame re-arms itself exactly when its draw pass leaves work: with a
/// non-zero sum one further frame is scheduled and pending, with zero none
/// is, and the scheduler idles.
pub proof fn lemma_frame_rearms<C>(m: Model<C>, pending: Seq<usize>)
    ensures
        m.begin_frame().finish_schedules(pending) == (total_pending(pending) > 0),
        m.begin_frame().finish_frame(pending).frame_pending == (total_pending(pending) > 0),
{
}

/// The sum of pending actions is positive exactly when some chart reports
/// work.
pub proof fn lemma_total_pending_positive(pending: Seq<usize>)
    ensures
        total_pending(pending) > 0 <==> exists|i: int|
            0 <= i < pending.len() && #[trigger] pending[i] > 0,
    decreases pending.len(),
{
    if pending.len() > 0 {
        let front = pending.drop_last();
        lemma_total_pending_positive(front);
        if total_pending(front) > 0 {
            let i = choose|i: int| 0 <= i < front.len() && #[trigger] front[i] > 0;
            assert(pending[i] > 0);
        }
        if pending.last() > 0 {
            assert(pending[pending.len() - 1] > 0);
        }
        if exists|i: int| 0 <= i < pending.len() && #[trigger] pending[i] > 0 {
            let i = choose|i: int| 0 <= i < pending.len() && #[trigger] pending[i] > 0;
            if i < front.len() {
                assert(front[i] > 0);
            }
        }
    }
}

} // verus!
