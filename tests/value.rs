use artichoke_backend::error::ArtichokeError;
use artichoke_backend::interp::Artichoke;
use artichoke_backend::value::{Value, ValueLike};

#[test]
fn to_s_true() {
    let mut interp = Artichoke::new();

    let value = Value::from_bool(true);
    let result = value.to_s(&mut interp);
    assert_eq!(result, r#"true"#);
}

#[test]
fn debug_true() {
    let mut interp = Artichoke::new();

    let value = Value::from_bool(true);
    let result = value.to_s_debug(&mut interp);
    assert_eq!(result, r#"Boolean<true>"#);
}

#[test]
fn inspect_true() {
    let mut interp = Artichoke::new();

    let value = Value::from_bool(true);
    let result = value.inspect(&mut interp);
    assert_eq!(result, r#"true"#);
}

#[test]
fn to_s_false() {
    let mut interp = Artichoke::new();

    let value = Value::from_bool(false);
    let result = value.to_s(&mut interp);
    assert_eq!(result, r#"false"#);
}

#[test]
fn debug_false() {
    let mut interp = Artichoke::new();

    let value = Value::from_bool(false);
    let result = value.to_s_debug(&mut interp);
    assert_eq!(result, r#"Boolean<false>"#);
}

#[test]
fn inspect_false() {
    let mut interp = Artichoke::new();

    let value = Value::from_bool(false);
    let result = value.inspect(&mut interp);
    assert_eq!(result, r#"false"#);
}

#[test]
fn to_s_nil() {
    let mut interp = Artichoke::new();

    let value = Value::from_option(None);
    let result = value.to_s(&mut interp);
    assert_eq!(result, r#""#);
}

#[test]
fn debug_nil() {
    let mut interp = Artichoke::new();

    let value = Value::from_option(None);
    let result = value.to_s_debug(&mut interp);
    assert_eq!(result, r#"NilClass<nil>"#);
}

#[test]
fn inspect_nil() {
    let mut interp = Artichoke::new();

    let value = Value::from_option(None);
    let result = value.inspect(&mut interp);
    assert_eq!(result, r#"nil"#);
}

#[test]
fn to_s_fixnum() {
    let mut interp = Artichoke::new();

    let value = Value::from_int(255);
    let result = value.to_s(&mut interp);
    assert_eq!(result, r#"255"#);
}

#[test]
fn debug_fixnum() {
    let mut interp = Artichoke::new();

    let value = Value::from_int(255);
    let result = value.to_s_debug(&mut interp);
    assert_eq!(result, r#"Fixnum<255>"#);
}

#[test]
fn inspect_fixnum() {
    let mut interp = Artichoke::new();

    let value = Value::from_int(255);
    let result = value.inspect(&mut interp);
    assert_eq!(result, r#"255"#);
}

#[test]
fn to_s_string() {
    let mut interp = Artichoke::new();

    let value = Value::try_from_mrb(&mut interp, "interstate").expect("convert");
    let result = value.to_s(&mut interp);
    assert_eq!(result, r#"interstate"#);
}

#[test]
fn debug_string() {
    let mut interp = Artichoke::new();

    let value = Value::try_from_mrb(&mut interp, "interstate").expect("convert");
    let result = value.to_s_debug(&mut interp);
    assert_eq!(result, r#"String<"interstate">"#);
}

#[test]
fn inspect_string() {
    let mut interp = Artichoke::new();

    let value = Value::try_from_mrb(&mut interp, "interstate").expect("convert");
    let result = value.inspect(&mut interp);
    assert_eq!(result, r#""interstate""#);
}

#[test]
fn to_s_empty_string() {
    let mut interp = Artichoke::new();

    let value = Value::try_from_mrb(&mut interp, "").expect("convert");
    let result = value.to_s(&mut interp);
    assert_eq!(result, r#""#);
}

#[test]
fn debug_empty_string() {
    let mut interp = Artichoke::new();

    let value = Value::try_from_mrb(&mut interp, "").expect("convert");
    let result = value.to_s_debug(&mut interp);
    assert_eq!(result, r#"String<"">"#);
}

#[test]
fn inspect_empty_string() {
    let mut interp = Artichoke::new();

    let value = Value::try_from_mrb(&mut interp, "").expect("convert");
    let result = value.inspect(&mut interp);
    assert_eq!(result, r#""""#);
}

#[test]
fn funcall() {
    let mut interp = Artichoke::new();
    let nil = Value::from_option(None);
    assert!(nil.funcall::<bool>(&mut interp, "nil?", &[]).expect("nil?"));
    let s = Value::try_from_mrb(&mut interp, "foo").expect("convert");
    assert!(!s.funcall::<bool>(&mut interp, "nil?", &[]).expect("nil?"));
    let delim = Value::try_from_mrb(&mut interp, "").expect("convert");
    let split = s
        .funcall::<Vec<String>>(&mut interp, "split", &[delim])
        .expect("split");
    assert_eq!(split, vec!["f".to_owned(), "o".to_owned(), "o".to_owned()])
}

#[test]
fn funcall_different_types() {
    let mut interp = Artichoke::new();
    let nil = Value::from_option(None);
    let s = Value::try_from_mrb(&mut interp, "foo").expect("convert");
    let eql = nil.funcall::<bool>(&mut interp, "==", &[s]);
    assert_eq!(eql, Ok(false));
}

#[test]
fn funcall_type_error() {
    let mut interp = Artichoke::new();
    let nil = Value::from_option(None);
    let s = Value::try_from_mrb(&mut interp, "foo").expect("convert");
    let result = s.funcall::<String>(&mut interp, "+", &[nil]);
    assert_eq!(
        result,
        Err(ArtichokeError::Exec(
            "TypeError: nil cannot be converted to String".to_owned()
        ))
    );
}

#[test]
fn funcall_method_not_exists() {
    let mut interp = Artichoke::new();
    let nil = Value::from_option(None);
    let s = Value::try_from_mrb(&mut interp, "foo").expect("convert");
    let result = nil.funcall::<bool>(&mut interp, "garbage_method_name", &[s]);
    assert_eq!(
        result,
        Err(ArtichokeError::Exec(
            "NoMethodError: undefined method 'garbage_method_name'".to_owned()
        ))
    );
}

#[test]
fn immediate_is_dead() {
    let mut interp = Artichoke::new();
    let arena = interp.create_arena_savepoint();
    let live = Value::from_int(27);
    assert!(!live.is_dead(&interp));
    let immediate = live;
    let live = Value::from_int(64);
    arena.restore(&mut interp);
    interp.full_gc();
    // immediate objects are never dead
    assert!(!immediate.is_dead(&interp));
    assert!(!live.is_dead(&interp));
    // Fixnums are immediate even if they are created directly without an
    // interpreter.
    let fixnum = Value::from_int(99);
    assert!(!fixnum.is_dead(&interp));
}
