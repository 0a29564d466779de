use chart_manager::{
    Binding, ChartError, ChartManager, ClientCaps, HostEvent, ListenerSet, Preparation, Signal,
    Source, WatcherKind,
};

fn caps(native: bool) -> ClientCaps {
    ClientCaps { screen_orientation: native }
}

fn ready(suffix: usize, chart: u32) -> Preparation<u32> {
    Preparation::Ready { suffix, chart }
}

#[test]
fn new_manager_is_idle() {
    let m: ChartManager<u32> = ChartManager::new(false, caps(true));
    assert_eq!(m.len(), 0);
    assert!(m.chart_ids().is_empty());
    assert!(m.charts().is_empty());
    assert!(!m.listeners_installed());
    assert!(!m.frame_callback_installed());
    assert!(!m.frame_pending());
    assert!(!m.touch_device());
    assert_eq!(m.watcher(), WatcherKind::Mouse);
    assert_eq!(m.client_caps(), caps(true));
    assert_eq!(m.listeners(), ListenerSet::new());
}

#[test]
fn touch_manager_uses_touch_watcher() {
    let m: ChartManager<u32> = ChartManager::new(true, caps(false));
    assert!(m.touch_device());
    assert_eq!(m.watcher(), WatcherKind::Touch);
}

#[test]
fn first_creation_installs_everything() {
    let mut m: ChartManager<u32> = ChartManager::new(false, caps(false));
    let created = m.create_main(ready(123456, 7)).unwrap();
    assert_eq!(created.selector, "#ac-123456");
    assert_eq!(m.chart_ids(), &vec!["#ac-123456".to_string()]);
    assert_eq!(m.charts(), &vec![7]);
    assert!(m.listeners_installed());
    assert!(m.frame_callback_installed());
    assert!(m.frame_pending());
    assert!(created.setup.install_frame_callback);
    assert!(created.setup.schedule_frame);
    let w = Source::Window;
    assert_eq!(
        created.setup.bindings,
        vec![
            Binding { signal: Signal::PointerDown, source: w, event: HostEvent::MouseDown },
            Binding { signal: Signal::PointerUp, source: w, event: HostEvent::MouseUp },
            Binding { signal: Signal::PointerMove, source: w, event: HostEvent::MouseMove },
            Binding { signal: Signal::Resize, source: w, event: HostEvent::Resize },
            Binding { signal: Signal::Orientation, source: w, event: HostEvent::OrientationChange },
        ]
    );
    assert!(!m.listens_to(Signal::PointerLeave));
    assert!(m.listens_to(Signal::PointerMove));
}

#[test]
fn touch_creation_binds_touch_events_and_native_orientation() {
    let mut m: ChartManager<u32> = ChartManager::new(true, caps(true));
    let created = m.create_main(ready(1, 1)).unwrap();
    let w = Source::Window;
    assert_eq!(
        created.setup.bindings,
        vec![
            Binding { signal: Signal::PointerDown, source: w, event: HostEvent::TouchStart },
            Binding { signal: Signal::PointerUp, source: w, event: HostEvent::TouchEnd },
            Binding { signal: Signal::PointerMove, source: w, event: HostEvent::TouchMove },
            Binding { signal: Signal::PointerLeave, source: w, event: HostEvent::TouchCancel },
            Binding { signal: Signal::Resize, source: w, event: HostEvent::Resize },
            Binding {
                signal: Signal::Orientation,
                source: Source::ScreenOrientation,
                event: HostEvent::Change
            },
        ]
    );
    assert_eq!(m.listeners().bindings(), created.setup.bindings);
    assert!(m.listens_to(Signal::PointerLeave));
}

#[test]
fn second_creation_installs_nothing() {
    let mut m: ChartManager<u32> = ChartManager::new(false, caps(false));
    m.create_main(ready(1, 10)).unwrap();
    let before = m.listeners();
    let second = m.create_main(ready(2, 20)).unwrap();
    assert_eq!(second.selector, "#ac-2");
    assert!(second.setup.bindings.is_empty());
    assert!(!second.setup.install_frame_callback);
    assert!(!second.setup.schedule_frame);
    assert_eq!(m.listeners(), before);
    assert_eq!(m.len(), 2);
    assert_eq!(m.chart_ids().len(), m.charts().len());
}

#[test]
fn ensuring_listeners_twice_installs_one_set() {
    let mut m: ChartManager<u32> = ChartManager::new(true, caps(false));
    let created = m.create_main(ready(5, 50)).unwrap();
    assert_eq!(created.setup.bindings.len(), 6);
    let installed = m.listeners();
    let again = m.ensure_global_listeners_are_set_up();
    assert!(again.bindings.is_empty());
    assert!(!again.install_frame_callback);
    assert!(!again.schedule_frame);
    let once_more = m.ensure_global_listeners_are_set_up();
    assert!(once_more.bindings.is_empty());
    assert_eq!(m.listeners(), installed);
    assert_eq!(m.listeners().bindings().len(), 6);
}

#[test]
fn failed_preparation_registers_nothing() {
    let mut m: ChartManager<u32> = ChartManager::new(false, caps(false));
    let e = m.create_main(Preparation::ConfigRejected("bad colour".to_string())).unwrap_err();
    assert_eq!(e, ChartError::ConfigInvalid("bad colour".to_string()));
    assert_eq!(e.message(), "config: bad colour");
    let e = m.create_main(Preparation::ParamsRejected("no data".to_string())).unwrap_err();
    assert_eq!(e, ChartError::ParamsInvalid("no data".to_string()));
    assert_eq!(e.message(), "params: no data");
    let e = m.create_main(Preparation::ContainerMissing).unwrap_err();
    assert_eq!(e, ChartError::ContainerNotFound);
    assert_eq!(e.message(), "container not found");
    assert_eq!(m.len(), 0);
    assert!(m.charts().is_empty());
    assert!(!m.listeners_installed());
    assert!(!m.frame_pending());
    assert!(!m.frame_callback_installed());
}

#[test]
fn failed_preparation_keeps_existing_charts() {
    let mut m: ChartManager<u32> = ChartManager::new(false, caps(false));
    m.create_main(ready(9, 90)).unwrap();
    m.begin_frame();
    assert!(m.create_main(Preparation::ContainerMissing).is_err());
    assert_eq!(m.chart_ids(), &vec!["#ac-9".to_string()]);
    assert_eq!(m.charts(), &vec![90]);
    assert!(m.listeners_installed());
    assert!(!m.frame_pending());
}

#[test]
fn destroy_missing_is_not_found() {
    let mut m: ChartManager<u32> = ChartManager::new(false, caps(false));
    assert_eq!(m.destroy_main("#missing", true).unwrap_err(), ChartError::NotFound);
    m.create_main(ready(3, 30)).unwrap();
    assert_eq!(m.destroy_main("#missing", true).unwrap_err(), ChartError::NotFound);
    assert_eq!(m.destroy_main("#missing", false).unwrap_err(), ChartError::NotFound);
    assert_eq!(m.destroy_main("ac-3", true).unwrap_err(), ChartError::NotFound);
    assert_eq!(m.find_chart("#missing").unwrap_err(), ChartError::NotFound);
    assert_eq!(m.len(), 1);
    assert_eq!(ChartError::NotFound.message(), "chart not found by id");
}

#[test]
fn destroy_twice_is_not_found_the_second_time() {
    let mut m: ChartManager<u32> = ChartManager::new(false, caps(false));
    let id = m.create_main(ready(77, 1)).unwrap().selector;
    let gone = m.destroy_main(&id, true).unwrap();
    assert_eq!(gone.chart, 1);
    assert_eq!(gone.index, 0);
    assert!(gone.listeners_removed);
    assert_eq!(m.destroy_main(&id, true).unwrap_err(), ChartError::NotFound);
    assert_eq!(m.len(), 0);
}

#[test]
fn destroy_without_wrapper_is_dom_missing_and_changes_nothing() {
    let mut m: ChartManager<u32> = ChartManager::new(false, caps(false));
    let id = m.create_main(ready(8, 80)).unwrap().selector;
    let e = m.destroy_main(&id, false).unwrap_err();
    assert_eq!(e, ChartError::DomMissing);
    assert_eq!(e.message(), "chart wrapper not found in dom");
    assert_eq!(m.len(), 1);
    assert_eq!(m.charts(), &vec![80]);
    assert!(m.listeners_installed());
    assert_eq!(m.find_chart(&id), Ok(0));
}

#[test]
fn destroy_keeps_order_of_the_rest() {
    let mut m: ChartManager<u32> = ChartManager::new(false, caps(false));
    m.create_main(ready(1, 10)).unwrap();
    m.create_main(ready(2, 20)).unwrap();
    m.create_main(ready(3, 30)).unwrap();
    assert_eq!(m.find_chart("#ac-2"), Ok(1));
    let gone = m.destroy_main("#ac-2", true).unwrap();
    assert_eq!(gone.chart, 20);
    assert_eq!(gone.index, 1);
    assert!(!gone.listeners_removed);
    assert_eq!(m.chart_ids(), &vec!["#ac-1".to_string(), "#ac-3".to_string()]);
    assert_eq!(m.charts(), &vec![10, 30]);
    assert_eq!(m.find_chart("#ac-3"), Ok(1));
}

#[test]
fn suffix_is_free_until_registered_and_again_after_destruction() {
    let mut m: ChartManager<u32> = ChartManager::new(false, caps(false));
    assert!(m.suffix_is_free(4));
    assert!(m.suffix_is_free(0));
    m.create_main(ready(4, 1)).unwrap();
    assert!(!m.suffix_is_free(4));
    assert!(m.suffix_is_free(40));
    assert!(m.suffix_is_free(5));
    m.create_main(ready(5, 2)).unwrap();
    assert!(!m.suffix_is_free(4));
    assert!(!m.suffix_is_free(5));
    m.destroy_main("#ac-4", true).unwrap();
    assert!(m.suffix_is_free(4));
    assert!(!m.suffix_is_free(5));
    assert_eq!(m.destroy_main("#ac-4", true).unwrap_err(), ChartError::NotFound);
}

#[test]
fn registered_selectors_stay_distinct() {
    let mut m: ChartManager<u32> = ChartManager::new(false, caps(false));
    let draws = [3usize, 3, 1, 3, 1, 0, 2, 2];
    for (chart, drawn) in draws.into_iter().enumerate() {
        let mut suffix = drawn;
        while !m.suffix_is_free(suffix) {
            suffix += 1;
        }
        let created = m.create_main(ready(suffix, chart as u32)).unwrap();
        assert_eq!(m.chart_ids().last(), Some(&created.selector));
        assert_eq!(m.find_chart(&created.selector), Ok(chart));
    }
    let ids = m.chart_ids();
    assert_eq!(ids.len(), 8);
    for i in 0..ids.len() {
        for j in 0..i {
            assert_ne!(ids[i], ids[j]);
        }
    }
    assert_eq!(ids[1], "#ac-4");
    assert_eq!(ids[3], "#ac-5");
    assert_eq!(ids[4], "#ac-2");
}

#[test]
fn end_to_end_two_charts() {
    let mut m: ChartManager<&'static str> = ChartManager::new(false, caps(false));
    let a = m.create_main(Preparation::Ready { suffix: 100, chart: "A" }).unwrap();
    assert!(!a.setup.bindings.is_empty());
    let b = m.create_main(Preparation::Ready { suffix: 200, chart: "B" }).unwrap();
    assert!(b.setup.bindings.is_empty());
    assert_eq!(m.len(), 2);
    assert!(m.listeners_installed());

    let gone = m.destroy_main(&a.selector, true).unwrap();
    assert_eq!(gone.chart, "A");
    assert!(!gone.listeners_removed);
    assert_eq!(m.len(), 1);
    assert!(m.listeners_installed());
    assert_eq!(m.chart_ids(), &vec![b.selector.clone()]);
    assert_eq!(b.selector, "#ac-200");

    let gone = m.destroy_main(&b.selector, true).unwrap();
    assert_eq!(gone.chart, "B");
    assert!(gone.listeners_removed);
    assert_eq!(m.len(), 0);
    assert!(!m.listeners_installed());
    assert_eq!(m.listeners(), ListenerSet::new());
    assert!(m.listeners().bindings().is_empty());
}

#[test]
fn lengths_agree_and_listeners_follow_registry_through_a_history() {
    let mut m: ChartManager<u32> = ChartManager::new(true, caps(true));
    let mut check = |m: &ChartManager<u32>| {
        assert_eq!(m.chart_ids().len(), m.charts().len());
        assert_eq!(m.listeners_installed(), m.len() > 0);
    };
    check(&m);
    for n in 0..5 {
        m.create_main(ready(n, n as u32)).unwrap();
        check(&m);
    }
    let _ = m.destroy_main("#ac-9", true);
    check(&m);
    let _ = m.destroy_main("#ac-3", false);
    check(&m);
    for n in [3usize, 0, 4, 1, 2] {
        let selector = format!("#ac-{}", n);
        m.destroy_main(&selector, true).unwrap();
        check(&m);
    }
    assert_eq!(m.len(), 0);
    let again = m.create_main(ready(6, 6)).unwrap();
    check(&m);
    assert_eq!(again.setup.bindings.len(), 6);
    assert!(!again.setup.install_frame_callback);
}

#[test]
fn reinstallation_uses_refreshed_capabilities() {
    let mut m: ChartManager<u32> = ChartManager::new(false, caps(false));
    m.create_main(ready(1, 1)).unwrap();
    m.dispatch(chart_manager::HostSignal::<u8>::Orientation(caps(true)));
    assert_eq!(m.client_caps(), caps(true));
    assert_eq!(
        m.listeners().orientation_change,
        Some(Binding {
            signal: Signal::Orientation,
            source: Source::Window,
            event: HostEvent::OrientationChange
        })
    );
    m.destroy_main("#ac-1", true).unwrap();
    let created = m.create_main(ready(2, 2)).unwrap();
    assert_eq!(
        created.setup.bindings.last(),
        Some(&Binding {
            signal: Signal::Orientation,
            source: Source::ScreenOrientation,
            event: HostEvent::Change
        })
    );
}
