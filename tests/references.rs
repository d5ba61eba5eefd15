use jni::env::{JNIEnv, RefKind};
use jni::errors::Error;
use jni::global_ref::GlobalRef;
use jni::objects::JObject;
use jni::release::{
    release_action, release_report, ContextSource, ReleaseAction, ReleaseReport,
};

fn fresh_env<'e>() -> JNIEnv<'e> {
    JNIEnv::new(1024)
}

#[test]
fn global_clone_outlives_dropped_original() {
    let mut env = fresh_env();
    let x = env.new_object();
    let g1 = env.new_global_ref(x);
    let g2 = g1.share(&mut env);
    let report = g1.release(&mut env, ContextSource::Current);
    assert_eq!(
        report,
        ReleaseReport { deleted: false, warned: false, logged: None }
    );
    env.delete_local_ref(x);
    env.collect_garbage();
    let borrowed = g2.as_obj();
    assert!(env.is_valid_ref(borrowed));
    assert!(!env.is_same_object(borrowed, JObject::null()));
    let local = env.new_local_ref(borrowed);
    assert!(!local.is_null());
    assert!(env.is_same_object(local, borrowed));
}

#[test]
fn global_deleted_once_after_last_clone() {
    let mut env = fresh_env();
    let x = env.new_object();
    let g1 = env.new_global_ref(x);
    let g2 = g1.share(&mut env);
    let g3 = g2.share(&mut env);
    let raw = JObject::from_raw(g1.as_obj().into_raw());
    assert!(!g1.release(&mut env, ContextSource::Current).deleted);
    assert!(env.is_valid_ref(raw));
    assert!(!g3.release(&mut env, ContextSource::Current).deleted);
    assert!(env.is_valid_ref(raw));
    let last = g2.release(&mut env, ContextSource::Current);
    assert!(last.deleted);
    assert!(!env.is_valid_ref(raw));
}

#[test]
fn weak_clone_deleted_once_after_last_clone() {
    let mut env = fresh_env();
    let x = env.new_object();
    let w1 = env.new_weak_ref(x).unwrap();
    let w2 = w1.share(&mut env);
    let raw = JObject::from_raw(w1.as_raw());
    assert_eq!(w2.as_raw(), w1.as_raw());
    assert!(!w1.release(&mut env, ContextSource::Current).deleted);
    assert!(env.is_valid_ref(raw));
    assert!(w2.release(&mut env, ContextSource::Current).deleted);
    assert!(!env.is_valid_ref(raw));
}

#[test]
fn weak_upgrade_local_after_collection_is_empty() {
    let mut env = fresh_env();
    let x = env.new_object();
    let w = env.new_weak_ref(x).unwrap();
    env.delete_local_ref(x);
    env.collect_garbage();
    assert_eq!(w.upgrade_local(&mut env), Ok(None));
}

#[test]
fn weak_upgrade_local_while_reachable() {
    let mut env = fresh_env();
    let x = env.new_object();
    let w = env.new_weak_ref(x).unwrap();
    env.collect_garbage();
    let up = w.upgrade_local(&mut env).unwrap().unwrap();
    assert!(env.is_valid_ref(up));
    assert!(env.is_same_object(up, x));
    // The upgraded local pins the object once the original local is gone.
    env.delete_local_ref(x);
    env.collect_garbage();
    assert!(!env.is_same_object(up, JObject::null()));
}

#[test]
fn weak_upgrade_global_after_collection_is_empty() {
    let mut env = fresh_env();
    let x = env.new_object();
    let w = env.new_weak_ref(x).unwrap();
    env.delete_local_ref(x);
    env.collect_garbage();
    let up = w.upgrade_global(&mut env);
    assert!(matches!(up, Ok(None)));
    // The global reference created on the way was released again.
    assert!(!env.is_valid_ref(JObject::from_raw(w.as_raw() + 2)));
}

#[test]
fn weak_upgrade_global_while_reachable() {
    let mut env = fresh_env();
    let x = env.new_object();
    let w = env.new_weak_ref(x).unwrap();
    let g: GlobalRef = w.upgrade_global(&mut env).unwrap().unwrap();
    assert!(env.is_same_object(g.as_obj(), x));
    env.delete_local_ref(x);
    env.collect_garbage();
    assert!(!env.is_same_object(g.as_obj(), JObject::null()));
    assert!(w.upgrade_local(&mut env).unwrap().is_some());
}

#[test]
fn weak_upgrade_with_pending_exception_succeeds() {
    let mut env = fresh_env();
    let x = env.new_object();
    let w = env.new_weak_ref(x).unwrap();
    env.throw();
    let local = w.upgrade_local(&mut env).unwrap().unwrap();
    assert!(env.is_same_object(local, x));
    let global = w.upgrade_global(&mut env).unwrap().unwrap();
    assert!(env.is_same_object(global.as_obj(), x));
    assert!(env.exception_check());
    env.delete_local_ref(x);
    env.delete_local_ref(local);
    global.release(&mut env, ContextSource::Current);
    env.collect_garbage();
    assert_eq!(w.upgrade_local(&mut env), Ok(None));
    assert!(matches!(w.upgrade_global(&mut env), Ok(None)));
    assert!(env.exception_check());
}

#[test]
fn new_weak_ref_of_null_is_none() {
    let mut env = fresh_env();
    assert!(env.new_weak_ref(JObject::null()).is_none());
}

#[test]
fn pop_keeps_only_the_kept_local() {
    let mut env = fresh_env();
    env.push_local_frame(16).unwrap();
    let mut locals = Vec::new();
    for _ in 0..20 {
        locals.push(env.new_object());
    }
    let kept = env.pop_local_frame(locals[5]);
    assert_eq!(env.frame_depth(), 0);
    for l in &locals {
        assert!(!env.is_valid_ref(*l));
    }
    assert!(env.is_valid_ref(kept));
    assert_eq!(kept.into_raw(), 21);
    let again = env.new_local_ref(kept);
    assert!(env.is_same_object(again, kept));
}

#[test]
fn pop_leaves_outer_locals() {
    let mut env = fresh_env();
    let outer = env.new_object();
    env.push_local_frame(4).unwrap();
    let inner = env.new_object();
    let kept = env.pop_local_frame(JObject::null());
    assert!(kept.is_null());
    assert!(env.is_valid_ref(outer));
    assert!(!env.is_valid_ref(inner));
}

#[test]
fn nested_frames_pop_in_order() {
    let mut env = fresh_env();
    env.push_local_frame(4).unwrap();
    let a = env.new_object();
    env.push_local_frame(4).unwrap();
    let b = env.new_object();
    assert_eq!(env.frame_depth(), 2);
    let b2 = env.pop_local_frame(b);
    assert!(env.is_valid_ref(a));
    assert!(env.is_valid_ref(b2));
    assert!(!env.is_valid_ref(b));
    env.pop_local_frame(JObject::null());
    assert!(!env.is_valid_ref(a));
    assert!(!env.is_valid_ref(b2));
    assert_eq!(env.frame_depth(), 0);
}

#[test]
fn with_local_frame_body_error_releases_locals() {
    let mut env = fresh_env();
    let mut made = Vec::new();
    let r = env.with_local_frame(8, |mut e| {
        made.push(e.new_object());
        made.push(e.new_object());
        (e, Err(Error::JavaException))
    });
    assert_eq!(r, Err(Error::JavaException));
    assert_eq!(made.len(), 2);
    for l in &made {
        assert!(!env.is_valid_ref(*l));
    }
    assert_eq!(env.frame_depth(), 0);
}

#[test]
fn with_local_frame_refused_capacity_runs_nothing() {
    let mut env = fresh_env();
    let mut ran = false;
    let r = env.with_local_frame(2048, |e| {
        ran = true;
        (e, Ok(JObject::null()))
    });
    assert_eq!(r, Err(Error::ResourceExhausted));
    assert!(!ran);
    assert_eq!(env.frame_depth(), 0);
}

#[test]
fn push_frame_at_limit_and_above() {
    let mut env = fresh_env();
    assert_eq!(env.push_local_frame(1025), Err(Error::ResourceExhausted));
    assert_eq!(env.frame_depth(), 0);
    assert_eq!(env.push_local_frame(1024), Ok(()));
    assert_eq!(env.frame_depth(), 1);
    assert_eq!(env.push_local_frame(0), Ok(()));
    assert_eq!(env.frame_depth(), 2);
}

#[test]
fn push_frame_negative_capacity() {
    let mut env = fresh_env();
    assert_eq!(env.push_local_frame(-1), Err(Error::InvalidCapacity));
    assert_eq!(env.frame_depth(), 0);
}

#[test]
fn release_from_detached_thread_with_pending_exception() {
    let mut env = fresh_env();
    let x = env.new_object();
    let g = env.new_global_ref(x);
    let w = env.new_weak_ref(x).unwrap();
    let graw = JObject::from_raw(g.as_obj().into_raw());
    let wraw = JObject::from_raw(w.as_raw());
    env.throw();
    let gr = g.release(&mut env, ContextSource::Attached);
    assert_eq!(
        gr,
        ReleaseReport { deleted: true, warned: false, logged: Some(Error::JavaException) }
    );
    let wr = w.release(&mut env, ContextSource::Attached);
    assert_eq!(wr, ReleaseReport { deleted: true, warned: true, logged: None });
    assert!(!env.is_valid_ref(graw));
    assert!(!env.is_valid_ref(wraw));
    // The pending exception was reported, not cleared.
    assert!(env.exception_check());
}

#[test]
fn release_when_attach_fails_leaves_entry() {
    let mut env = fresh_env();
    let x = env.new_object();
    let g = env.new_global_ref(x);
    let graw = JObject::from_raw(g.as_obj().into_raw());
    let r = g.release(&mut env, ContextSource::AttachFailed);
    assert_eq!(
        r,
        ReleaseReport { deleted: false, warned: false, logged: Some(Error::AttachFailed) }
    );
    assert!(env.is_valid_ref(graw));
}

#[test]
fn release_null_global_does_nothing() {
    let mut env = fresh_env();
    let g = env.new_global_ref(JObject::null());
    let r = g.release(&mut env, ContextSource::Current);
    assert_eq!(r, ReleaseReport { deleted: false, warned: false, logged: None });
}

#[test]
fn release_action_cases() {
    assert_eq!(release_action(3, ContextSource::AttachFailed), ReleaseAction::Keep);
    assert_eq!(release_action(2, ContextSource::Current), ReleaseAction::Keep);
    assert_eq!(release_action(1, ContextSource::Current), ReleaseAction::Delete);
    assert_eq!(release_action(1, ContextSource::Attached), ReleaseAction::Delete);
    assert_eq!(release_action(1, ContextSource::AttachFailed), ReleaseAction::Leak);
}

#[test]
fn release_report_cases() {
    assert_eq!(
        release_report(RefKind::Weak, ContextSource::Current, ReleaseAction::Delete, true),
        ReleaseReport { deleted: true, warned: false, logged: None }
    );
    assert_eq!(
        release_report(RefKind::Weak, ContextSource::AttachFailed, ReleaseAction::Leak, false),
        ReleaseReport { deleted: false, warned: true, logged: Some(Error::AttachFailed) }
    );
    assert_eq!(
        release_report(RefKind::Weak, ContextSource::Attached, ReleaseAction::Keep, false),
        ReleaseReport { deleted: false, warned: false, logged: None }
    );
    assert_eq!(
        release_report(RefKind::Global, ContextSource::Current, ReleaseAction::Delete, false),
        ReleaseReport { deleted: true, warned: false, logged: None }
    );
}

#[test]
fn is_same_object_cases() {
    let mut env = fresh_env();
    let x = env.new_object();
    let y = env.new_object();
    assert!(!env.is_same_object(x, y));
    assert!(env.is_same_object(x, x));
    assert!(env.is_same_object(JObject::null(), JObject::null()));
    env.throw();
    assert!(!env.is_same_object(x, y));
    assert!(env.is_same_object(y, y));
}

#[test]
fn global_ref_to_collected_referent_is_same_as_null() {
    let mut env = fresh_env();
    let x = env.new_object();
    let w = env.new_weak_ref(x).unwrap();
    env.delete_local_ref(x);
    env.collect_garbage();
    let g = env.new_global_ref(JObject::from_raw(w.as_raw()));
    assert!(!g.as_obj().is_null());
    assert!(env.is_same_object(g.as_obj(), JObject::null()));
}

#[test]
fn new_references_with_pending_exception() {
    let mut env = fresh_env();
    let x = env.new_object();
    env.throw();
    let local = env.new_local_ref(x);
    assert!(!local.is_null());
    assert!(env.is_same_object(local, x));
    let global = env.new_global_ref(x);
    assert!(env.is_valid_ref(global.as_obj()));
    assert!(env.new_weak_ref(x).is_some());
    assert!(env.exception_check());
}

#[test]
fn object_handles_round_trip() {
    let o = JObject::from_raw(42);
    assert_eq!(o.into_raw(), 42);
    assert!(!o.is_null());
    assert!(JObject::null().is_null());
    assert_eq!(JObject::null().into_raw(), 0);
}
