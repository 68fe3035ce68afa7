use gpui3::app::{AppContext, Effect, ObserverId, Window, WindowId};
use gpui3::entity::{EntityError, EntityId, Handle};

fn assert_send<T: Send>() {}

#[test]
fn test_app_context_send_sync() {
    assert_send::<AppContext<u32>>();
}

#[test]
fn handle_and_clone_share_entity() {
    let mut cx: AppContext<i32> = AppContext::new();
    let h = cx.entity(10);
    let c = h.clone();
    assert_eq!(h.id, c.id);
    let r = c.update(&mut cx, |v| (v + 5, v * 2));
    assert_eq!(r, Ok(20));
    assert_eq!(cx.read_entity(h.id), Some(&15));
    h.update(&mut cx, |v| (v - 1, ())).unwrap();
    assert_eq!(cx.read_entity(c.id), Some(&14));
}

#[test]
fn update_queues_one_notification() {
    let mut cx: AppContext<i32> = AppContext::new();
    let h = cx.entity(1);
    h.update(&mut cx, |v| (v, ())).unwrap();
    assert_eq!(cx.pending_updates(), 0);
    assert_eq!(cx.pop_effect(), Some(Effect::Notify(h.id)));
    assert_eq!(cx.pop_effect(), None);
}

#[test]
fn nested_updates_flush_after_outermost_in_order() {
    let mut cx: AppContext<i32> = AppContext::new();
    let a = cx.entity(1);
    let b = cx.entity(2);
    let c = cx.entity(3);
    let va = cx.begin_update(a.id).unwrap();
    let vb = cx.begin_update(b.id).unwrap();
    let vc = cx.begin_update(c.id).unwrap();
    assert_eq!(cx.pending_updates(), 3);
    cx.end_update(c.id, vc + 10).unwrap();
    assert_eq!(cx.pop_effect(), None);
    cx.end_update(b.id, vb + 10).unwrap();
    assert_eq!(cx.pop_effect(), None);
    assert_eq!(cx.pending_effect_count(), 2);
    cx.end_update(a.id, va + 10).unwrap();
    assert_eq!(cx.pending_updates(), 0);
    assert_eq!(cx.pop_effect(), Some(Effect::Notify(c.id)));
    assert_eq!(cx.pop_effect(), Some(Effect::Notify(b.id)));
    assert_eq!(cx.pop_effect(), Some(Effect::Notify(a.id)));
    assert_eq!(cx.pop_effect(), None);
    assert_eq!(cx.read_entity(b.id), Some(&12));
}

#[test]
fn reentrant_update_of_same_entity_fails() {
    let mut cx: AppContext<i32> = AppContext::new();
    let a = cx.entity(1);
    let v = cx.begin_update(a.id).unwrap();
    assert_eq!(cx.begin_update(a.id), Err(EntityError::AlreadyLeased));
    assert_eq!(a.update(&mut cx, |v| (v, ())), Err(EntityError::AlreadyLeased));
    assert_eq!(cx.read_entity(a.id), None);
    cx.end_update(a.id, v).unwrap();
    assert_eq!(cx.end_update(a.id, v), Err(EntityError::NotLeased));
}

#[test]
fn unknown_entity_is_not_found() {
    let mut cx: AppContext<i32> = AppContext::new();
    let ghost: Handle<i32> = Handle::new(EntityId { index: 7 });
    assert_eq!(ghost.update(&mut cx, |v| (v, ())), Err(EntityError::NotFound));
}

#[test]
fn weak_handle_after_release() {
    let mut cx: AppContext<i32> = AppContext::new();
    let h = cx.entity(4);
    let w = h.downgrade();
    assert_eq!(w.upgrade(&cx).map(|s| s.id), Some(h.id));
    assert_eq!(w.update(&mut cx, |v| (v + 1, v)), Ok(4));
    assert_eq!(cx.release_entity(h.id), Some(5));
    assert!(w.upgrade(&cx).is_none());
    assert_eq!(w.update(&mut cx, |v| (v, ())), Err(EntityError::Released));
}

#[test]
fn reserved_entity_is_installed() {
    let mut cx: AppContext<i32> = AppContext::new();
    let h = cx.reserve_entity();
    assert_eq!(cx.read_entity(h.id), None);
    assert_eq!(cx.install_entity(h.id, 9), Ok(()));
    assert_eq!(cx.read_entity(h.id), Some(&9));
    assert_eq!(cx.install_entity(h.id, 9), Err(EntityError::NotLeased));
}

#[test]
fn observer_returning_false_is_dropped() {
    let mut cx: AppContext<i32> = AppContext::new();
    let e = cx.entity(0);
    let o1 = cx.observe(e.id).unwrap();
    let o2 = cx.observe(e.id).unwrap();
    let o3 = cx.observe(e.id).unwrap();
    let list = cx.begin_notify(e.id).unwrap();
    assert_eq!(list, vec![o1, o2, o3]);
    cx.finish_notify(e.id, list, &vec![true, true, false]);
    let again = cx.begin_notify(e.id).unwrap();
    assert_eq!(again, vec![o1, o2]);
}

#[test]
fn observer_added_during_notify_runs_next_time() {
    let mut cx: AppContext<i32> = AppContext::new();
    let e = cx.entity(0);
    let o1 = cx.observe(e.id).unwrap();
    let list = cx.begin_notify(e.id).unwrap();
    assert_eq!(list, vec![o1]);
    let added = cx.observe(e.id).unwrap();
    assert_ne!(added, o1);
    cx.finish_notify(e.id, list, &vec![true]);
    assert_eq!(cx.begin_notify(e.id).unwrap(), vec![o1, added]);
}

#[test]
fn observe_unknown_entity_fails() {
    let mut cx: AppContext<i32> = AppContext::new();
    assert_eq!(cx.observe(EntityId { index: 3 }), Err(EntityError::NotFound));
    assert_eq!(cx.begin_notify(EntityId { index: 3 }), None);
}

#[test]
fn observer_ids_are_distinct() {
    let mut cx: AppContext<i32> = AppContext::new();
    let e = cx.entity(0);
    let a = cx.observe(e.id).unwrap();
    let b = cx.observe(e.id).unwrap();
    assert_eq!(a, ObserverId { value: 0 });
    assert_eq!(b, ObserverId { value: 1 });
}

fn open(cx: &mut AppContext<i32>) -> WindowId {
    let id = cx.reserve_window();
    cx.install_window(id, None).unwrap();
    id
}

#[test]
fn removed_window_is_not_found() {
    let mut cx: AppContext<i32> = AppContext::new();
    let id = open(&mut cx);
    assert!(cx.remove_window(id).is_some());
    assert_eq!(cx.update_window(id, |w| (w, 1)), Err(EntityError::NotFound));
    assert_eq!(cx.pending_updates(), 0);
    assert_eq!(cx.update_window(WindowId { index: 40 }, |w| (w, 1)), Err(EntityError::NotFound));
}

#[test]
fn window_update_marks_dirty() {
    let mut cx: AppContext<i32> = AppContext::new();
    let id = open(&mut cx);
    let clean = |w: &Window| true;
    cx.redraw_dirty_windows(&clean);
    assert!(!cx.window(id).unwrap().dirty);
    let root = cx.entity(3);
    let r = cx.update_window(id, |w| (Window { root_view: Some(root.id), ..w }, 8));
    assert_eq!(r, Ok(8));
    let w = cx.window(id).unwrap();
    assert!(w.dirty);
    assert_eq!(w.root_view, Some(root.id));
}

#[test]
fn failed_redraw_does_not_stop_others() {
    let mut cx: AppContext<i32> = AppContext::new();
    let a = open(&mut cx);
    let b = open(&mut cx);
    let c = open(&mut cx);
    cx.redraw_dirty_windows(&|_w: &Window| true);
    cx.update_window(a, |w| (w, ())).unwrap();
    cx.update_window(c, |w| (w, ())).unwrap();
    let failing = a;
    let outcomes = cx.redraw_dirty_windows(&|w: &Window| w.id != failing);
    assert_eq!(outcomes, vec![(a, false), (c, true)]);
    assert!(!cx.window(a).unwrap().dirty);
    assert!(!cx.window(b).unwrap().dirty);
    assert!(!cx.window(c).unwrap().dirty);
    assert!(cx.dirty_windows().is_empty());
}

#[test]
fn dirty_windows_in_slot_order() {
    let mut cx: AppContext<i32> = AppContext::new();
    let a = open(&mut cx);
    let b = open(&mut cx);
    let pending = cx.reserve_window();
    assert_eq!(cx.dirty_windows(), vec![a, b]);
    assert_eq!(cx.begin_window_update(pending), Err(EntityError::NotFound));
}
