//! The global listener set: one listener per physical signal, shared by
//! every chart.

use crate::caps::ClientCaps;
use vstd::prelude::*;

verus! {

/// The physical signals the coordination layer listens to.
#[derive(Clone, Copy, Debug, PartialEq, Eq, Structural)]
pub enum Signal {
    PointerDown,
    PointerUp,
    PointerMove,
    PointerLeave,
    Resize,
    Orientation,
}

/// The host object a listener is attached to.
#[derive(Clone, Copy, Debug, PartialEq, Eq, Structural)]
pub enum Source {
    Window,
    ScreenOrientation,
}

/// The host event a listener subscribes to.
#[derive(Clone, Copy, Debug, PartialEq, Eq, Structural)]
pub enum HostEvent {
    TouchStart,
    MouseDown,
    TouchEnd,
    MouseUp,
    TouchMove,
    MouseMove,
    TouchCancel,
    Resize,
    Change,
    OrientationChange,
}

/// One installed listener: which signal it serves, on which host object,
/// under which event name.
#[derive(Clone, Copy, Debug, PartialEq, Eq, Structural)]
pub struct Binding {
    pub signal: Signal,
    pub source: Source,
    pub event: HostEvent,
}

/// The name under which the host knows an event.
pub open spec fn event_name(event: HostEvent) -> Seq<char> {
    match event {
        HostEvent::TouchStart => "touchstart"@,
        HostEvent::MouseDown => "mousedown"@,
        HostEvent::TouchEnd => "touchend"@,
        HostEvent::MouseUp => "mouseup"@,
        HostEvent::TouchMove => "touchmove"@,
        HostEvent::MouseMove => "mousemove"@,
        HostEvent::TouchCancel => "touchcancel"@,
        HostEvent::Resize => "resize"@,
        HostEvent::Change => "change"@,
        HostEvent::OrientationChange => "orientationchange"@,
    }
}

/// The listener that serves `signal` on a device of the given class, if the
/// signal is listened to at all. Pointer signals come from the touch or the
/// mouse family, never both; leaving is only reported by touch devices; the
/// orientation signal comes from the native orientation object where the
/// host has one and from the window otherwise.
pub open spec fn binding_for(signal: Signal, touch: bool, native_orientation: bool) -> Option<
    Binding,
> {
    match signal {
        Signal::PointerDown => Some(
            Binding {
                signal,
                source: Source::Window,
                event: if touch {
                    HostEvent::TouchStart
                } else {
                    HostEvent::MouseDown
                },
            },
        ),
        Signal::PointerUp => Some(
            Binding {
                signal,
                source: Source::Window,
                event: if touch {
                    HostEvent::TouchEnd
                } else {
                    HostEvent::MouseUp
                },
            },
        ),
        Signal::PointerMove => Some(
            Binding {
                signal,
                source: Source::Window,
                event: if touch {
                    HostEvent::TouchMove
                } else {
                    HostEvent::MouseMove
                },
            },
        ),
        Signal::PointerLeave => if touch {
            Some(Binding { signal, source: Source::Window, event: HostEvent::TouchCancel })
        } else {
            None
        },
        Signal::Resize => Some(
            Binding { signal, source: Source::Window, event: HostEvent::Resize },
        ),
        Signal::Orientation => if native_orientation {
            Some(Binding { signal, source: Source::ScreenOrientation, event: HostEvent::Change })
        } else {
            Some(Binding { signal, source: Source::Window, event: HostEvent::OrientationChange })
        },
    }
}

/// The bindings of a full installation, in the order in which they are
/// attached.
pub open spec fn install_order(touch: bool, native_orientation: bool) -> Seq<Binding> {
    let pointer = seq![
        binding_for(Signal::PointerDown, touch, native_orientation).unwrap(),
        binding_for(Signal::PointerUp, touch, native_orientation).unwrap(),
        binding_for(Signal::PointerMove, touch, native_orientation).unwrap(),
    ];
    let leave = if touch {
        seq![binding_for(Signal::PointerLeave, touch, native_orientation).unwrap()]
    } else {
        Seq::<Binding>::empty()
    };
    let environment = seq![
        binding_for(Signal::Resize, touch, native_orientation).unwrap(),
        binding_for(Signal::Orientation, touch, native_orientation).unwrap(),
    ];
    pointer + leave + environment
}

/// The listeners currently attached, one slot per signal.
#[derive(Clone, Copy, Debug, PartialEq, Eq, Structural)]
pub struct ListenerSet {
    pub pointer_move: Option<Binding>,
    pub pointer_out: Option<Binding>,
    pub pointer_down: Option<Binding>,
    pub pointer_up: Option<Binding>,
    pub window_resize: Option<Binding>,
    pub orientation_change: Option<Binding>,
}

impl HostEvent {
    /// The event's name as the host spells it.
    pub fn name(&self) -> (text: &'static str)
        ensures
            text@ == event_name(*self),
    {
        match self {
            HostEvent::TouchStart => "touchstart",
            HostEvent::MouseDown => "mousedown",
            HostEvent::TouchEnd => "touchend",
            HostEvent::MouseUp => "mouseup",
            HostEvent::TouchMove => "touchmove",
            HostEvent::MouseMove => "mousemove",
            HostEvent::TouchCancel => "touchcancel",
            HostEvent::Resize => "resize",
            HostEvent::Change => "change",
            HostEvent::OrientationChange => "orientationchange",
        }
    }
}

impl ListenerSet {
    /// The slot that serves `signal`.
    pub open spec fn slot(self, signal: Signal) -> Option<Binding> {
        match signal {
            Signal::PointerDown => self.pointer_down,
            Signal::PointerUp => self.pointer_up,
            Signal::PointerMove => self.pointer_move,
            Signal::PointerLeave => self.pointer_out,
            Signal::Resize => self.window_resize,
            Signal::Orientation => self.orientation_change,
        }
    }

    /// No listener is attached.
    pub open spec fn is_absent(self) -> bool {
        forall|signal: Signal| (#[trigger] self.slot(signal)).is_none()
    }

    /// Every slot holds exactly the listener that a device of this class
    /// needs.
    pub open spec fn is_full(self, touch: bool, native_orientation: bool) -> bool {
        forall|signal: Signal| #[trigger]
            self.slot(signal) == binding_for(signal, touch, native_orientation)
    }

    /// The set is all there or not there at all.
    pub open spec fn wf(self, touch: bool) -> bool {
        self.is_absent() || self.is_full(touch, true) || self.is_full(touch, false)
    }

    /// The sentinel slot tells whether the set is attached.
    pub open spec fn installed(self) -> bool {
        self.pointer_move.is_some()
    }

    /// The set with nothing attached.
    pub open spec fn absent() -> ListenerSet {
        ListenerSet {
            pointer_move: None,
            pointer_out: None,
            pointer_down: None,
            pointer_up: None,
            window_resize: None,
            orientation_change: None,
        }
    }

    /// The complete set for a device class.
    pub open spec fn full(touch: bool, native_orientation: bool) -> ListenerSet {
        ListenerSet {
            pointer_move: binding_for(Signal::PointerMove, touch, native_orientation),
            pointer_out: binding_for(Signal::PointerLeave, touch, native_orientation),
            pointer_down: binding_for(Signal::PointerDown, touch, native_orientation),
            pointer_up: binding_for(Signal::PointerUp, touch, native_orientation),
            window_resize: binding_for(Signal::Resize, touch, native_orientation),
            orientation_change: binding_for(Signal::Orientation, touch, native_orientation),
        }
    }

    /// The attached listeners in the order of attachment.
    pub open spec fn attached(self) -> Seq<Binding> {
        occupant(self.pointer_down) + occupant(self.pointer_up) + occupant(self.pointer_move)
            + occupant(self.pointer_out) + occupant(self.window_resize) + occupant(
            self.orientation_change,
        )
    }

    /// A set with nothing attached.
    pub fn new() -> (set: ListenerSet)
        ensures
            set == ListenerSet::absent(),
            set.is_absent(),
            !set.installed(),
    {
        ListenerSet {
            pointer_move: None,
            pointer_out: None,
            pointer_down: None,
            pointer_up: None,
            window_resize: None,
            orientation_change: None,
        }
    }

    /// Builds the complete set for a device class and the capabilities seen
    /// at this moment.
    pub fn install(touch: bool, caps: ClientCaps) -> (set: ListenerSet)
        ensures
            set == ListenerSet::full(touch, caps.screen_orientation),
            set.is_full(touch, caps.screen_orientation),
            set.installed(),
            set.wf(touch),
    {
        let window = Source::Window;
        let pointer_down = Binding {
            signal: Signal::PointerDown,
            source: window,
            event: if touch { HostEvent::TouchStart } else { HostEvent::MouseDown },
        };
        let pointer_up = Binding {
            signal: Signal::PointerUp,
            source: window,
            event: if touch { HostEvent::TouchEnd } else { HostEvent::MouseUp },
        };
        let pointer_move = Binding {
            signal: Signal::PointerMove,
            source: window,
            event: if touch { HostEvent::TouchMove } else { HostEvent::MouseMove },
        };
        let pointer_out = if touch {
            Some(Binding { signal: Signal::PointerLeave, source: window, event: HostEvent::TouchCancel })
        } else {
            None
        };
        let window_resize = Binding { signal: Signal::Resize, source: window, event: HostEvent::Resize };
        let orientation_change = if caps.screen_orientation {
            Binding { signal: Signal::Orientation, source: Source::ScreenOrientation, event: HostEvent::Change }
        } else {
            Binding { signal: Signal::Orientation, source: window, event: HostEvent::OrientationChange }
        };
        ListenerSet {
            pointer_move: Some(pointer_move),
            pointer_out,
            pointer_down: Some(pointer_down),
            pointer_up: Some(pointer_up),
            window_resize: Some(window_resize),
            orientation_change: Some(orientation_change),
        }
    }

    /// Tells whether the set is attached, by its sentinel slot.
    pub fn is_installed(&self) -> (yes: bool)
        ensures
            yes == self.installed(),
    {
        self.pointer_move.is_some()
    }

    /// Tells whether a listener serves `signal`.
    pub fn listens_to(&self, signal: Signal) -> (yes: bool)
        ensures
            yes == self.slot(signal).is_some(),
    {
        match signal {
            Signal::PointerDown => self.pointer_down.is_some(),
            Signal::PointerUp => self.pointer_up.is_some(),
            Signal::PointerMove => self.pointer_move.is_some(),
            Signal::PointerLeave => self.pointer_out.is_some(),
            Signal::Resize => self.window_resize.is_some(),
            Signal::Orientation => self.orientation_change.is_some(),
        }
    }

    /// Lists the attached listeners in the order of attachment.
    pub fn bindings(&self) -> (list: Vec<Binding>)
        ensures
            list@ == self.attached(),
    {
        let mut list: Vec<Binding> = Vec::new();
        push_occupant(&mut list, self.pointer_down);
        push_occupant(&mut list, self.pointer_up);
        push_occupant(&mut list, self.pointer_move);
        push_occupant(&mut list, self.pointer_out);
        push_occupant(&mut list, self.window_resize);
        push_occupant(&mut list, self.orientation_change);
        assert(list@ =~= self.attached());
        list
    }
}

/// What a slot contributes to the list of attached listeners.
pub open spec fn occupant(slot: Option<Binding>) -> Seq<Binding> {
    match slot {
        Some(binding) => seq![binding],
        None => Seq::<Binding>::empty(),
    }
}

fn push_occupant(list: &mut Vec<Binding>, slot: Option<Binding>)
    ensures
        final(list)@ == old(list)@ + occupant(slot),
{
    match slot {
        Some(binding) => {
            list.push(binding);
        },
        None => {},
    }
    assert(final(list)@ =~= old(list)@ + occupant(slot));
}

/// A full set attaches exactly the listeners of the installation order.
pub proof fn lemma_full_attaches_install_order(touch: bool, native_orientation: bool)
    ensures
        ListenerSet::full(touch, native_orientation).attached() == install_order(
            touch,
            native_orientation,
        ),
        ListenerSet::full(touch, native_orientation).is_full(touch, native_orientation),
        ListenerSet::full(touch, native_orientation).installed(),
        ListenerSet::absent().is_absent(),
        ListenerSet::absent().attached() == Seq::<Binding>::empty(),
{
    assert(ListenerSet::full(touch, native_orientation).attached() =~= install_order(
        touch,
        native_orientation,
    ));
    assert(ListenerSet::absent().attached() =~= Seq::<Binding>::empty());
}

/// A well-formed set is never partly attached: either every slot that the
/// device class calls for is filled, or none is.
pub proof fn lemma_all_or_nothing(set: ListenerSet, touch: bool)
    requires
        set.wf(touch),
    ensures
        set.installed() <==> !set.is_absent(),
        set.installed() ==> forall|signal: Signal|
            (#[trigger] set.slot(signal)).is_some() == !(signal == Signal::PointerLeave && !touch),
        !set.installed() ==> set == ListenerSet::absent(),
{
    assert(set.slot(Signal::PointerMove) == set.pointer_move);
    assert(set.slot(Signal::PointerDown) == set.pointer_down);
    assert(set.slot(Signal::PointerUp) == set.pointer_up);
    assert(set.slot(Signal::PointerLeave) == set.pointer_out);
    assert(set.slot(Signal::Resize) == set.window_resize);
    assert(set.slot(Signal::Orientation) == set.orientation_change);
}

} // verus!
