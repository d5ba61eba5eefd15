use jni::env::JNIEnv;
use jni::errors::Error;
use jni::objects::JObject;

fn attach_current_thread<'e>() -> JNIEnv<'e> {
    JNIEnv::new(65536)
}

#[test]
pub fn pop_local_frame_pending_exception() {
    let mut env = attach_current_thread();

    env.push_local_frame(16).unwrap();

    env.throw();

    // Pop the local frame with a pending exception
    let kept = env.pop_local_frame(JObject::null());
    assert!(kept.is_null(), "JNIEnv#pop_local_frame must work in case of pending exception");
    assert_eq!(env.frame_depth(), 0);

    env.exception_clear();
    assert!(!env.exception_check());
}

#[test]
pub fn push_local_frame_pending_exception() {
    let mut env = attach_current_thread();

    env.throw();

    // Push a new local frame with a pending exception
    env.push_local_frame(16)
        .expect("JNIEnv#push_local_frame must work in case of pending exception");

    env.exception_clear();

    env.pop_local_frame(JObject::null());
    assert_eq!(env.frame_depth(), 0);
}

#[test]
pub fn push_local_frame_too_many_refs() {
    let mut env = attach_current_thread();

    // Try to push a new local frame with a ridiculous size
    let frame_size = i32::max_value();
    let err = env
        .push_local_frame(frame_size)
        .expect_err("push_local_frame(2B) must Err");
    assert_eq!(err, Error::ResourceExhausted);

    // No frame was entered, so none is owed a pop.
    assert_eq!(env.frame_depth(), 0);
}

#[test]
pub fn with_local_frame() {
    let mut env = attach_current_thread();

    let s = env
        .with_local_frame(16, |mut e| {
            let res = e.new_object();
            (e, Ok(res))
        })
        .unwrap();

    assert!(
        env.is_valid_ref(s),
        "The object returned from the local frame must remain valid"
    );
    assert!(!env.is_same_object(s, JObject::null()));
    assert_eq!(env.frame_depth(), 0);
}

#[test]
pub fn with_local_frame_pending_exception() {
    let mut env = attach_current_thread();

    env.throw();

    // Try to allocate a frame of locals
    let r = env
        .with_local_frame(16, |e| (e, Ok(JObject::null())))
        .expect("JNIEnv#with_local_frame must work in case of pending exception");
    assert!(r.is_null());

    env.exception_clear();
    assert_eq!(env.frame_depth(), 0);
}

#[test]
fn local_ref_null() {
    let mut env = attach_current_thread();
    let null_obj = JObject::null();

    let result = env.new_local_ref(null_obj);
    assert!(result.is_null());

    // try to delete null reference
    env.delete_local_ref(null_obj);
    assert!(null_obj.is_null());
}

#[test]
fn new_global_ref_null() {
    let mut env = attach_current_thread();
    let null_obj = JObject::null();
    let result = env.new_global_ref(null_obj);
    assert!(result.as_obj().is_null());
}
