//! Coordination core of an in-page charting runtime.
//!
//! The crate keeps the registry of live charts, decides which global
//! listeners the host has to bind and when they are torn down, and
//! coalesces redraw requests into at most one pending animation frame.
//! Every function is host-agnostic: it takes plain values describing what
//! the host observed and answers with the actions the host has to perform.

pub mod caps;
pub mod error;
pub mod ident;
pub mod listeners;
pub mod manager;
pub mod model;
pub mod scale;

pub use caps::{is_touch_device, ClientCaps, WatcherKind};
pub use error::ChartError;
pub use listeners::{Binding, HostEvent, ListenerSet, Signal, Source};
pub use manager::{
    get_or_create_manager_addr, ChartManager, Created, Destroyed, HandleSlot, Preparation, Reaction,
    Setup,
};
pub use model::{Broadcast, HostSignal, Model, PointerOp};
pub use scale::{ScaleKind, ScalePair};
