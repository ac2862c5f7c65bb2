use acv::log::{d, e, i, message, priority_for_level, v, w, Level, LogPriority};

#[test]
fn short_calls_pick_priorities() {
    assert_eq!(v("t", "m").priority, LogPriority::Unknown);
    assert_eq!(d("t", "m").priority, LogPriority::Debug);
    assert_eq!(i("t", "m").priority, LogPriority::Info);
    assert_eq!(w("t", "m").priority, LogPriority::Warn);
    assert_eq!(e("t", "m").priority, LogPriority::Error);
}

#[test]
fn messages_keep_tag_and_text() {
    let m = w("MyApp", "Don't log sensitive information!");
    assert_eq!(m.tag, "MyApp");
    assert_eq!(m.msg, "Don't log sensitive information!");
    let m = message(LogPriority::Verbose, "", "x");
    assert_eq!(m.priority, LogPriority::Verbose);
    assert_eq!(m.tag, "");
    assert_eq!(m.msg, "x");
}

#[test]
fn priority_codes_follow_android() {
    assert_eq!(LogPriority::Unknown.code(), 0);
    assert_eq!(LogPriority::Verbose.code(), 2);
    assert_eq!(LogPriority::Debug.code(), 3);
    assert_eq!(LogPriority::Info.code(), 4);
    assert_eq!(LogPriority::Warn.code(), 5);
    assert_eq!(LogPriority::Error.code(), 6);
}

#[test]
fn levels_map_to_priorities() {
    assert_eq!(priority_for_level(Level::Error), LogPriority::Error);
    assert_eq!(priority_for_level(Level::Warn), LogPriority::Warn);
    assert_eq!(priority_for_level(Level::Info), LogPriority::Info);
    assert_eq!(priority_for_level(Level::Debug), LogPriority::Debug);
    assert_eq!(priority_for_level(Level::Trace), LogPriority::Verbose);
}
