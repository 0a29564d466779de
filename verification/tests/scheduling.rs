use chart_manager::manager::{pointer_op, slot_for, work_left};
use chart_manager::{
    Broadcast, ChartManager, ClientCaps, HostSignal, PointerOp, Preparation, Reaction, Signal,
};

type Sig = HostSignal<&'static str>;

fn running(touch: bool) -> ChartManager<u32> {
    let mut m: ChartManager<u32> = ChartManager::new(touch, ClientCaps { screen_orientation: false });
    m.create_main(Preparation::Ready { suffix: 1, chart: 1 }).unwrap();
    m.create_main(Preparation::Ready { suffix: 2, chart: 2 }).unwrap();
    m
}

#[test]
fn creation_leaves_a_frame_pending() {
    let m = running(false);
    assert!(m.frame_pending());
    assert!(m.frame_callback_installed());
}

#[test]
fn many_control_events_schedule_one_frame() {
    let mut m = running(false);
    m.begin_frame();
    assert!(!m.finish_frame(&vec![0, 0]));
    assert!(!m.frame_pending());
    let mut scheduled = 0;
    let mut broadcasts = 0;
    let ops = [PointerOp::Down, PointerOp::Moved, PointerOp::Moved, PointerOp::Up, PointerOp::Moved];
    for op in ops {
        let r = m.dispatch(Sig::Pointer(op, Some("drag")));
        assert_eq!(r.broadcast, Broadcast::ControlEvent("drag"));
        broadcasts += 1;
        if r.schedule_frame {
            scheduled += 1;
        }
    }
    assert_eq!(broadcasts, 5);
    assert_eq!(scheduled, 1);
    assert!(m.frame_pending());
}

#[test]
fn first_event_schedules_and_later_ones_do_not() {
    let mut m = running(false);
    m.begin_frame();
    assert_eq!(
        m.dispatch(Sig::Pointer(PointerOp::Down, Some("press"))),
        Reaction { broadcast: Broadcast::ControlEvent("press"), schedule_frame: true }
    );
    assert_eq!(
        m.dispatch(Sig::Resize),
        Reaction { broadcast: Broadcast::Resize, schedule_frame: false }
    );
    assert_eq!(
        m.dispatch(Sig::Pointer(PointerOp::Up, Some("release"))).broadcast,
        Broadcast::ControlEvent("release")
    );
}

#[test]
fn silent_watcher_broadcasts_and_schedules_nothing() {
    let mut m = running(false);
    m.begin_frame();
    let r = m.dispatch(Sig::Pointer(PointerOp::Moved, None));
    assert_eq!(r, Reaction { broadcast: Broadcast::Nothing, schedule_frame: false });
    assert!(!m.frame_pending());
}

#[test]
fn resize_and_orientation_broadcast_resize() {
    let mut m = running(true);
    m.begin_frame();
    let r = m.dispatch(Sig::Resize);
    assert_eq!(r, Reaction { broadcast: Broadcast::Resize, schedule_frame: true });
    m.begin_frame();
    let r = m.dispatch(Sig::Orientation(ClientCaps { screen_orientation: true }));
    assert_eq!(r, Reaction { broadcast: Broadcast::Resize, schedule_frame: true });
    assert_eq!(m.client_caps(), ClientCaps { screen_orientation: true });
    assert!(m.frame_pending());
}

#[test]
fn touch_leave_is_dispatched_on_touch_devices() {
    let mut m = running(true);
    m.begin_frame();
    assert!(m.listens_to(slot_for(&Sig::Pointer(PointerOp::Left, Some("gone")))));
    let r = m.dispatch(Sig::Pointer(PointerOp::Left, Some("gone")));
    assert_eq!(r, Reaction { broadcast: Broadcast::ControlEvent("gone"), schedule_frame: true });
}

#[test]
fn frame_with_pending_work_rearms_once() {
    let mut m = running(false);
    m.begin_frame();
    assert!(!m.frame_pending());
    assert!(m.finish_frame(&vec![0, 3]));
    assert!(m.frame_pending());
    assert!(!m.request_animation_frame());
    m.begin_frame();
    assert!(m.finish_frame(&vec![1, 0]));
    m.begin_frame();
    assert!(!m.finish_frame(&vec![0, 0]));
    assert!(!m.frame_pending());
    assert!(m.dispatch(Sig::Resize).schedule_frame);
}

#[test]
fn request_during_draw_is_not_scheduled_twice() {
    let mut m = running(false);
    m.begin_frame();
    assert!(m.request_animation_frame());
    assert!(!m.finish_frame(&vec![2, 2]));
    assert!(m.frame_pending());
}

#[test]
fn frame_after_last_chart_left_goes_idle() {
    let mut m = running(false);
    m.destroy_main("#ac-1", true).unwrap();
    m.destroy_main("#ac-2", true).unwrap();
    assert!(m.frame_pending());
    m.begin_frame();
    assert!(!m.finish_frame(&Vec::new()));
    assert!(!m.frame_pending());
    assert!(m.frame_callback_installed());
}

#[test]
fn work_left_tells_positive_sums() {
    assert!(!work_left(&vec![]));
    assert!(!work_left(&vec![0, 0, 0]));
    assert!(work_left(&vec![0, 0, 1]));
    assert!(work_left(&vec![usize::MAX, usize::MAX]));
}

#[test]
fn slots_and_operations_correspond() {
    assert_eq!(slot_for(&Sig::Pointer(PointerOp::Down, None)), Signal::PointerDown);
    assert_eq!(slot_for(&Sig::Pointer(PointerOp::Up, Some("x"))), Signal::PointerUp);
    assert_eq!(slot_for(&Sig::Pointer(PointerOp::Moved, Some("x"))), Signal::PointerMove);
    assert_eq!(slot_for(&Sig::Pointer(PointerOp::Left, Some("x"))), Signal::PointerLeave);
    assert_eq!(slot_for(&Sig::Resize), Signal::Resize);
    assert_eq!(
        slot_for(&Sig::Orientation(ClientCaps { screen_orientation: false })),
        Signal::Orientation
    );
    assert_eq!(pointer_op(Signal::PointerDown), Some(PointerOp::Down));
    assert_eq!(pointer_op(Signal::PointerUp), Some(PointerOp::Up));
    assert_eq!(pointer_op(Signal::PointerMove), Some(PointerOp::Moved));
    assert_eq!(pointer_op(Signal::PointerLeave), Some(PointerOp::Left));
    assert_eq!(pointer_op(Signal::Resize), None);
    assert_eq!(pointer_op(Signal::Orientation), None);
}
