//! The coordinator: registry of charts, global listeners and frame
//! scheduling behind one owner.
//!
//! The coordinator never touches the host. Each method takes what the host
//! observed and returns what the host has to do next: which listeners to
//! attach, what to hand to the charts, whether to schedule a frame.

use crate::caps::{select_watcher, ClientCaps, WatcherKind};
use crate::error::ChartError;
use crate::ident::{selector_text, wrapper_selector};
use crate::listeners::{lemma_full_attaches_install_order, Binding, ListenerSet, Signal};
use crate::model::{
    broadcast_of, lemma_create_wf, lemma_destroy_wf, lemma_dispatch_wf,
    lemma_ensure_listeners_wf, lemma_total_pending_positive, slot_of, total_pending, Broadcast,
    HostSignal, Model, PointerOp,
};
use vstd::prelude::*;
use vstd::string::StringExecFns;

verus! {

/// What the host found out while preparing a chart, before anything is
/// registered.
pub enum Preparation<C> {
    /// The configuration was rejected, with the validator's message.
    ConfigRejected(String),
    /// The parameters were rejected, with the validator's message.
    ParamsRejected(String),
    /// The container selector matched nothing.
    ContainerMissing,
    /// The wrapper element with this suffix is in place and the chart is
    /// built.
    Ready { suffix: usize, chart: C },
}

/// What the host has to do after the listeners were made sure of.
#[derive(Debug)]
pub struct Setup {
    /// The listeners to attach, in order; empty when they are attached
    /// already.
    pub bindings: Vec<Binding>,
    /// The frame callback has to be created.
    pub install_frame_callback: bool,
    /// A frame has to be scheduled with the host.
    pub schedule_frame: bool,
}

/// The outcome of a successful registration.
#[derive(Debug)]
pub struct Created {
    /// The selector by which the host refers to the chart from now on.
    pub selector: String,
    /// What the host has to attach and schedule.
    pub setup: Setup,
}

/// The outcome of a successful destruction.
#[derive(Debug)]
pub struct Destroyed<C> {
    /// The chart that left the registry.
    pub chart: C,
    /// Where it stood.
    pub index: usize,
    /// The registry became empty and the listener set was dropped.
    pub listeners_removed: bool,
}

/// What the host has to do after a listener fired.
#[derive(Clone, Debug, PartialEq, Eq)]
pub struct Reaction<E> {
    /// What every chart gets, in registry order.
    pub broadcast: Broadcast<E>,
    /// A frame has to be scheduled with the host.
    pub schedule_frame: bool,
}

/// The texts of a list of strings.
pub open spec fn texts(list: Seq<String>) -> Seq<Seq<char>> {
    Seq::new(list.len(), |i: int| list[i]@)
}

/// Owner of the chart registry, the global listener set and the frame
/// scheduler.
pub struct ChartManager<C> {
    listeners: ListenerSet,
    frame_callback: bool,
    animation_frame_requested: bool,
    charts: Vec<C>,
    chart_ids: Vec<String>,
    watcher: WatcherKind,
    touch_device: bool,
    client_caps: ClientCaps,
}

impl<C> View for ChartManager<C> {
    type V = Model<C>;

    closed spec fn view(&self) -> Model<C> {
        Model {
            ids: texts(self.chart_ids@),
            charts: self.charts@,
            listeners: self.listeners,
            frame_callback: self.frame_callback,
            frame_pending: self.animation_frame_requested,
            touch_device: self.touch_device,
            watcher: self.watcher,
            caps: self.client_caps,
        }
    }
}

/// The watcher operation that serves a listener slot, if it is a pointer
/// slot.
pub fn pointer_op(signal: Signal) -> (op: Option<PointerOp>)
    ensures
        match op {
            Some(op) => slot_of(HostSignal::<()>::Pointer(op, None)) == signal,
            None => signal == Signal::Resize || signal == Signal::Orientation,
        },
{
    match signal {
        Signal::PointerDown => Some(PointerOp::Down),
        Signal::PointerUp => Some(PointerOp::Up),
        Signal::PointerMove => Some(PointerOp::Moved),
        Signal::PointerLeave => Some(PointerOp::Left),
        Signal::Resize => None,
        Signal::Orientation => None,
    }
}

/// The listener slot through which a signal arrives.
pub fn slot_for<E>(signal: &HostSignal<E>) -> (slot: Signal)
    ensures
        slot == slot_of(*signal),
{
    match signal {
        HostSignal::Pointer(PointerOp::Down, _) => Signal::PointerDown,
        HostSignal::Pointer(PointerOp::Up, _) => Signal::PointerUp,
        HostSignal::Pointer(PointerOp::Moved, _) => Signal::PointerMove,
        HostSignal::Pointer(PointerOp::Left, _) => Signal::PointerLeave,
        HostSignal::Resize => Signal::Resize,
        HostSignal::Orientation(_) => Signal::Orientation,
    }
}

impl<C> ChartManager<C> {
    /// The invariant: see [`Model::wf`].
    pub open spec fn wf(&self) -> bool {
        self@.wf()
    }

    /// Creates a coordinator for a device class with nothing registered,
    /// attached or scheduled. The watcher family follows the device class
    /// and stays for the coordinator's lifetime.
    pub fn new(touch_device: bool, caps: ClientCaps) -> (manager: Self)
        ensures
            manager@ == Model::<C>::initial(touch_device, caps),
            manager.wf(),
    {
        let manager = ChartManager {
            listeners: ListenerSet::new(),
            frame_callback: false,
            animation_frame_requested: false,
            charts: Vec::new(),
            chart_ids: Vec::new(),
            watcher: select_watcher(touch_device),
            touch_device,
            client_caps: caps,
        };
        assert(manager@.ids =~= Seq::<Seq<char>>::empty());
        manager
    }

    /// Registers a prepared chart, or reports why the preparation failed.
    ///
    /// A failed preparation leaves the coordinator as it was. A ready chart
    /// goes to the end of the registry under the selector built from its
    /// wrapper suffix, and the listeners are made sure of. The suffix of a
    /// ready chart has to be free, so that the selector handed back names
    /// this chart and no other: see [`ChartManager::suffix_is_free`].
    pub fn create_main(&mut self, prepared: Preparation<C>) -> (outcome: Result<
        Created,
        ChartError,
    >)
        requires
            old(self).wf(),
            prepared matches Preparation::Ready { suffix, .. } ==> old(self)@.suffix_free(
                suffix as nat,
            ),
        ensures
            final(self).wf(),
            match prepared {
                Preparation::ConfigRejected(detail) => outcome == Err::<Created, ChartError>(
                    ChartError::ConfigInvalid(detail),
                ) && final(self)@ == old(self)@,
                Preparation::ParamsRejected(detail) => outcome == Err::<Created, ChartError>(
                    ChartError::ParamsInvalid(detail),
                ) && final(self)@ == old(self)@,
                Preparation::ContainerMissing => outcome == Err::<Created, ChartError>(
                    ChartError::ContainerNotFound,
                ) && final(self)@ == old(self)@,
                Preparation::Ready { suffix, chart } => {
                    &&& outcome is Ok
                    &&& final(self)@ == old(self)@.create(suffix as nat, chart)
                    &&& final(self)@.ids == old(self)@.ids.push(selector_text(suffix as nat))
                    &&& final(self)@.charts == old(self)@.charts.push(chart)
                    &&& final(self)@.listeners.installed()
                    &&& outcome->Ok_0.selector@ == selector_text(suffix as nat)
                    &&& !old(self)@.ids.contains(outcome->Ok_0.selector@)
                    &&& final(self)@.ids.no_duplicates()
                    &&& final(self)@.position(outcome->Ok_0.selector@) == Some(
                        old(self)@.ids.len() as int,
                    )
                    &&& outcome->Ok_0.setup.bindings@ == old(self)@.setup_bindings()
                    &&& outcome->Ok_0.setup.install_frame_callback
                        == old(self)@.setup_installs_callback()
                    &&& outcome->Ok_0.setup.schedule_frame == old(self)@.setup_schedules()
                },
            },
    {
        match prepared {
            Preparation::ConfigRejected(detail) => Err(ChartError::ConfigInvalid(detail)),
            Preparation::ParamsRejected(detail) => Err(ChartError::ParamsInvalid(detail)),
            Preparation::ContainerMissing => Err(ChartError::ContainerNotFound),
            Preparation::Ready { suffix, chart } => {
                let selector = wrapper_selector(suffix);
                self.chart_ids.push(selector.clone());
                self.charts.push(chart);
                proof {
                    assert(self@.ids =~= old(self)@.ids.push(selector_text(suffix as nat)));
                    lemma_create_wf(old(self)@, suffix as nat, chart);
                    let grown = old(self)@.create(suffix as nat, chart).ids;
                    grown.index_of_first_ensures(selector_text(suffix as nat));
                    assert(grown[old(self)@.ids.len() as int] == selector_text(suffix as nat));
                }
                let setup = self.ensure_global_listeners_are_set_up();
                Ok(Created { selector, setup })
            },
        }
    }

    /// Tells whether no registered chart carries the selector of this
    /// suffix.
    pub fn suffix_is_free(&self, suffix: usize) -> (free: bool)
        ensures
            free == self@.suffix_free(suffix as nat),
            free == !self@.ids.contains(selector_text(suffix as nat)),
    {
        let selector = wrapper_selector(suffix);
        match self.find_chart(selector.as_str()) {
            Ok(index) => {
                assert(self@.ids[index as int] == selector_text(suffix as nat));
                false
            },
            Err(_) => true,
        }
    }

    /// Finds the registered chart with this selector.
    pub fn find_chart(&self, chart_id: &str) -> (found: Result<usize, ChartError>)
        ensures
            match found {
                Ok(index) => {
                    &&& index < self@.ids.len()
                    &&& self@.position(chart_id@) == Some(index as int)
                    &&& self@.ids[index as int] == chart_id@
                    &&& forall|j: int| 0 <= j < index ==> self@.ids[j] != chart_id@
                },
                Err(error) => {
                    &&& error is NotFound
                    &&& self@.position(chart_id@).is_none()
                    &&& forall|j: int| 0 <= j < self@.ids.len() ==> self@.ids[j] != chart_id@
                },
            },
    {
        let needle = String::from_str(chart_id);
        let mut i: usize = 0;
        while i < self.chart_ids.len()
            invariant
                i <= self.chart_ids@.len(),
                needle@ == chart_id@,
                forall|j: int| 0 <= j < i ==> self@.ids[j] != chart_id@,
            decreases self.chart_ids@.len() - i,
        {
            if self.chart_ids[i] == needle {
                proof {
                    assert(self@.ids[i as int] == chart_id@);
                    self@.ids.index_of_first_ensures(chart_id@);
                }
                return Ok(i);
            }
            i += 1;
        }
        proof {
            self@.ids.index_of_first_ensures(chart_id@);
        }
        Err(ChartError::NotFound)
    }

    /// Removes a chart from the registry.
    ///
    /// Fails with `NotFound` where no chart has the selector, and with
    /// `DomMissing` where one has but its wrapper element is gone; either
    /// way nothing changes. Otherwise the chart with the selector leaves,
    /// the others keep their order, and the listener set is dropped as a
    /// whole when the registry becomes empty.
    pub fn destroy_main(&mut self, chart_id: &str, wrapper_present: bool) -> (outcome: Result<
        Destroyed<C>,
        ChartError,
    >)
        requires
            old(self).wf(),
        ensures
            final(self).wf(),
            final(self)@ == old(self)@.destroy(chart_id@, wrapper_present),
            match outcome {
                Ok(gone) => {
                    &&& old(self)@.can_destroy(chart_id@, wrapper_present)
                    &&& old(self)@.position(chart_id@) == Some(gone.index as int)
                    &&& gone.chart == old(self)@.charts[gone.index as int]
                    &&& final(self)@.ids == old(self)@.ids.remove(gone.index as int)
                    &&& final(self)@.charts == old(self)@.charts.remove(gone.index as int)
                    &&& gone.listeners_removed == (old(self)@.ids.len() == 1)
                    &&& gone.listeners_removed == !final(self)@.listeners.installed()
                },
                Err(error) => {
                    &&& !old(self)@.can_destroy(chart_id@, wrapper_present)
                    &&& final(self)@ == old(self)@
                    &&& error is NotFound <==> old(self)@.position(chart_id@).is_none()
                    &&& error is DomMissing <==> old(self)@.position(chart_id@).is_some()
                },
            },
    {
        proof {
            lemma_destroy_wf(old(self)@, chart_id@, wrapper_present);
        }
        let index = match self.find_chart(chart_id) {
            Ok(index) => index,
            Err(error) => {
                return Err(error);
            },
        };
        if !wrapper_present {
            return Err(ChartError::DomMissing);
        }
        let _ = self.chart_ids.remove(index);
        let chart = self.charts.remove(index);
        let listeners_removed = self.charts.len() == 0;
        if listeners_removed {
            self.uninstall_listeners();
        }
        proof {
            old(self)@.ids.remove_ensures(index as int);
            assert(self@.ids =~= old(self)@.ids.remove(index as int));
        }
        Ok(Destroyed { chart, index, listeners_removed })
    }

    fn uninstall_listeners(&mut self)
        ensures
            final(self)@ == (Model { listeners: ListenerSet::absent(), ..old(self)@ }),
    {
        self.listeners = ListenerSet::new();
    }

    /// Makes sure that the global listeners are attached.
    ///
    /// Where the sentinel listener is there, nothing happens and nothing is
    /// left for the host to do. Otherwise the full set for the device class
    /// and the present capabilities is recorded, the frame callback too,
    /// and a first frame is asked for.
    pub fn ensure_global_listeners_are_set_up(&mut self) -> (setup: Setup)
        requires
            old(self)@.coherent(),
            old(self)@.ids.len() > 0,
        ensures
            final(self)@ == old(self)@.ensure_listeners(),
            final(self).wf(),
            setup.bindings@ == old(self)@.setup_bindings(),
            setup.install_frame_callback == old(self)@.setup_installs_callback(),
            setup.schedule_frame == old(self)@.setup_schedules(),
    {
        proof {
            lemma_ensure_listeners_wf(old(self)@);
            lemma_full_attaches_install_order(
                self.touch_device,
                self.client_caps.screen_orientation,
            );
        }
        if self.listeners.is_installed() {
            return Setup {
                bindings: Vec::new(),
                install_frame_callback: false,
                schedule_frame: false,
            };
        }
        let install_frame_callback = !self.frame_callback;
        self.listeners = ListenerSet::install(self.touch_device, self.client_caps);
        self.frame_callback = true;
        let schedule_frame = self.request_animation_frame();
        let bindings = self.listeners.bindings();
        Setup { bindings, install_frame_callback, schedule_frame }
    }

    /// Asks for a frame. Returns whether the host has to schedule one: only
    /// where none is pending. Afterwards one is pending.
    pub fn request_animation_frame(&mut self) -> (schedule: bool)
        requires
            old(self)@.frame_callback,
        ensures
            final(self)@ == old(self)@.request_frame(),
            schedule == old(self)@.schedules_on_request(),
            old(self).wf() ==> final(self).wf(),
    {
        if !self.animation_frame_requested {
            self.animation_frame_requested = true;
            true
        } else {
            false
        }
    }

    /// Takes in what a global listener observed and says what the charts
    /// get and whether the host has to schedule a frame.
    ///
    /// A pointer signal broadcasts the watcher's control event, unchanged,
    /// exactly when the watcher yielded one; resize and orientation always
    /// broadcast a resize, and an orientation signal first replaces the
    /// capabilities snapshot. A frame is asked for after every broadcast.
    pub fn dispatch<E>(&mut self, signal: HostSignal<E>) -> (reaction: Reaction<E>)
        requires
            old(self).wf(),
            old(self)@.listeners.slot(slot_of(signal)).is_some(),
        ensures
            final(self).wf(),
            final(self)@ == old(self)@.dispatch(signal),
            reaction.broadcast == broadcast_of(signal),
            reaction.schedule_frame == old(self)@.dispatch_schedules(signal),
    {
        proof {
            lemma_dispatch_wf(old(self)@, signal);
        }
        let broadcast = match signal {
            HostSignal::Pointer(_, Some(event)) => Broadcast::ControlEvent(event),
            HostSignal::Pointer(_, None) => Broadcast::Nothing,
            HostSignal::Resize => Broadcast::Resize,
            HostSignal::Orientation(caps) => {
                self.client_caps = caps;
                Broadcast::Resize
            },
        };
        let schedule_frame = match &broadcast {
            Broadcast::Nothing => false,
            _ => self.request_animation_frame(),
        };
        Reaction { broadcast, schedule_frame }
    }

    /// Starts a frame: the pending mark is cleared before any chart draws,
    /// so that a request made during the draw pass is not swallowed.
    pub fn begin_frame(&mut self)
        requires
            old(self).wf(),
        ensures
            final(self).wf(),
            final(self)@ == old(self)@.begin_frame(),
    {
        self.animation_frame_requested = false;
    }

    /// Ends a frame with what each chart's draw left pending. Returns
    /// whether the host has to schedule another frame: exactly when the
    /// sum is positive and no frame is pending yet.
    pub fn finish_frame(&mut self, pending: &Vec<usize>) -> (schedule: bool)
        requires
            old(self).wf(),
            old(self)@.frame_callback,
        ensures
            final(self).wf(),
            final(self)@ == old(self)@.finish_frame(pending@),
            schedule == old(self)@.finish_schedules(pending@),
    {
        if work_left(pending) {
            self.request_animation_frame()
        } else {
            false
        }
    }

    /// The number of registered charts.
    pub fn len(&self) -> (n: usize)
        ensures
            n == self@.ids.len(),
    {
        self.chart_ids.len()
    }

    /// The selectors of the registered charts, oldest first.
    pub fn chart_ids(&self) -> (ids: &Vec<String>)
        ensures
            texts(ids@) == self@.ids,
    {
        &self.chart_ids
    }

    /// The registered charts, in the order of their selectors.
    pub fn charts(&self) -> (charts: &Vec<C>)
        ensures
            charts@ == self@.charts,
    {
        &self.charts
    }

    /// The listeners that are attached.
    pub fn listeners(&self) -> (set: ListenerSet)
        ensures
            set == self@.listeners,
    {
        self.listeners
    }

    /// Whether the global listener set is attached.
    pub fn listeners_installed(&self) -> (yes: bool)
        ensures
            yes == self@.listeners.installed(),
    {
        self.listeners.is_installed()
    }

    /// Whether a listener serves `signal`.
    pub fn listens_to(&self, signal: Signal) -> (yes: bool)
        ensures
            yes == self@.listeners.slot(signal).is_some(),
    {
        self.listeners.listens_to(signal)
    }

    /// Whether the frame callback exists.
    pub fn frame_callback_installed(&self) -> (yes: bool)
        ensures
            yes == self@.frame_callback,
    {
        self.frame_callback
    }

    /// Whether a frame is scheduled and has not run yet.
    pub fn frame_pending(&self) -> (yes: bool)
        ensures
            yes == self@.frame_pending,
    {
        self.animation_frame_requested
    }

    /// The device class.
    pub fn touch_device(&self) -> (yes: bool)
        ensures
            yes == self@.touch_device,
    {
        self.touch_device
    }

    /// The family of the shared control watcher.
    pub fn watcher(&self) -> (kind: WatcherKind)
        ensures
            kind == self@.watcher,
    {
        self.watcher
    }

    /// The latest capabilities snapshot.
    pub fn client_caps(&self) -> (caps: ClientCaps)
        ensures
            caps == self@.caps,
    {
        self.client_caps
    }
}

/// The place where the handle of the one coordinator of a page is kept.
pub struct HandleSlot {
    addr: Option<u32>,
}

impl View for HandleSlot {
    type V = Option<u32>;

    closed spec fn view(&self) -> Option<u32> {
        self.addr
    }
}

impl HandleSlot {
    /// A slot in which no handle is recorded yet.
    pub fn new() -> (slot: HandleSlot)
        ensures
            slot@ is None,
    {
        HandleSlot { addr: None }
    }

    /// The recorded handle, if the coordinator exists.
    pub fn addr(&self) -> (addr: Option<u32>)
        ensures
            addr == self@,
    {
        self.addr
    }
}

/// Returns the handle of the one coordinator, creating the coordinator on
/// first access.
///
/// Where a handle is recorded it is returned and `create` is not called;
/// otherwise `create` runs once and what it returns is recorded for good.
pub fn get_or_create_manager_addr<F: FnOnce() -> u32>(slot: &mut HandleSlot, create: F) -> (addr:
    u32)
    requires
        old(slot)@ is None ==> call_requires(create, ()),
    ensures
        final(slot)@ == Some(addr),
        old(slot)@ is Some ==> old(slot)@ == Some(addr),
        old(slot)@ is None ==> call_ensures(create, (), addr),
{
    match slot.addr {
        Some(addr) => addr,
        None => {
            let addr = create();
            slot.addr = Some(addr);
            addr
        },
    }
}

/// Tells whether a draw pass left work: whether the pending actions sum to
/// more than zero.
pub fn work_left(pending: &Vec<usize>) -> (yes: bool)
    ensures
        yes == (total_pending(pending@) > 0),
{
    let mut i: usize = 0;
    while i < pending.len()
        invariant
            i <= pending@.len(),
            forall|j: int| 0 <= j < i ==> pending@[j] == 0,
        decreases pending@.len() - i,
    {
        if pending[i] > 0 {
            proof {
                lemma_total_pending_positive(pending@);
            }
            return true;
        }
        i += 1;
    }
    proof {
        lemma_total_pending_positive(pending@);
    }
    false
}

} // verus!
