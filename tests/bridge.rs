use artichoke_backend::error::{ArtichokeError, ConvertError};
use artichoke_backend::interp::{Artichoke, MrbValue};
use artichoke_backend::types::{Ruby, Rust};
use artichoke_backend::value::{Value, ValueLike};

#[test]
fn too_many_args_fails_before_the_guest_runs() {
    let mut interp = Artichoke::new();
    let args: Vec<Value> = (0..17).map(Value::from_int).collect();
    let heap_before = interp.heap.len();
    let result = Value::nil().funcall::<bool>(&mut interp, "nil?", &args);
    assert_eq!(result, Err(ArtichokeError::TooManyArgs { given: 17, max: 16 }));
    assert_eq!(interp.heap.len(), heap_before);
    assert!(interp.symbols.is_empty());
}

#[test]
fn sixteen_args_reach_the_guest() {
    let mut interp = Artichoke::new();
    let args: Vec<Value> = (0..16).map(Value::from_int).collect();
    let result = Value::nil().funcall::<bool>(&mut interp, "itself", &args);
    assert_eq!(
        result,
        Err(ArtichokeError::Exec(
            "ArgumentError: wrong number of arguments (given 16, expected 0)".to_owned()
        ))
    );
}

#[test]
fn too_many_args_with_block() {
    let mut interp = Artichoke::new();
    let args: Vec<Value> = (0..20).map(Value::from_int).collect();
    let result = Value::nil().funcall_with_block::<bool>(&mut interp, "nil?", &args, Value::nil());
    assert_eq!(result, Err(ArtichokeError::TooManyArgs { given: 20, max: 16 }));
}

#[test]
fn funcall_with_block_answers_as_funcall() {
    let mut interp = Artichoke::new();
    let result = Value::nil().funcall_with_block::<bool>(&mut interp, "nil?", &[], Value::nil());
    assert_eq!(result, Ok(true));
}

#[test]
fn string_round_trip() {
    let mut interp = Artichoke::new();
    for text in ["", "interstate", "h\u{e9}llo w\u{f6}rld", "tab\tand \"quote\""] {
        let value = Value::try_from_mrb(&mut interp, text).expect("convert");
        assert_eq!(value.ruby_type(), Ruby::String);
        let back = value.try_into::<String>(&interp);
        assert_eq!(back, Ok(text.to_owned()));
    }
}

#[test]
fn interior_nul_is_refused() {
    let mut interp = Artichoke::new();
    let heap_before = interp.heap.len();
    let result = Value::try_from_mrb(&mut interp, "a\0b");
    assert!(matches!(
        result,
        Err(ConvertError::ToRuby { from: Rust::String, to: Ruby::String })
    ));
    assert_eq!(interp.heap.len(), heap_before);
    assert!(interp.arena.is_empty());
}

#[test]
fn nested_savepoints_restore_depth() {
    let mut interp = Artichoke::new();
    let _kept = Value::try_from_mrb(&mut interp, "kept").expect("convert");
    let depth = interp.arena.len();
    let outer = interp.create_arena_savepoint();
    let _a = Value::try_from_mrb(&mut interp, "a").expect("convert");
    let inner = interp.create_arena_savepoint();
    let _b = Value::try_from_mrb(&mut interp, "b").expect("convert");
    let _c = Value::try_from_mrb(&mut interp, "c").expect("convert");
    inner.restore(&mut interp);
    assert_eq!(interp.arena.len(), depth + 1);
    outer.restore(&mut interp);
    assert_eq!(interp.arena.len(), depth);
}

#[test]
fn restored_object_is_dead_after_full_gc() {
    let mut interp = Artichoke::new();
    let live = Value::try_from_mrb(&mut interp, "live").expect("convert");
    let arena = interp.create_arena_savepoint();
    let dead = Value::try_from_mrb(&mut interp, "dead").expect("convert");
    assert!(!dead.is_dead(&interp));
    arena.restore(&mut interp);
    interp.full_gc();
    assert!(dead.is_dead(&interp));
    assert!(!live.is_dead(&interp));
    assert!(!Value::from_int(99).is_dead(&interp));
}

#[test]
fn array_roots_its_elements() {
    let mut interp = Artichoke::new();
    let s = Value::try_from_mrb(&mut interp, "ab").expect("convert");
    let delim = Value::try_from_mrb(&mut interp, "").expect("convert");
    let arena = interp.create_arena_savepoint();
    let parts = s.funcall::<Value>(&mut interp, "split", &[delim]).expect("split");
    parts.protect(&mut interp);
    interp.full_gc();
    assert!(!parts.is_dead(&interp));
    let elements = parts.itself::<Vec<String>>(&interp).expect("strings");
    assert_eq!(elements, vec!["a".to_owned(), "b".to_owned()]);
    arena.restore(&mut interp);
    interp.full_gc();
    assert!(parts.is_dead(&interp));
}

#[test]
fn clone_keeps_type() {
    let mut interp = Artichoke::new();
    let s = Value::try_from_mrb(&mut interp, "foo").expect("convert");
    let copy = s.clone();
    assert_eq!(copy.ruby_type(), s.ruby_type());
    assert_eq!(copy.to_s(&mut interp), "foo");
    let n = Value::from_int(-3);
    assert_eq!(n.clone().ruby_type(), Ruby::Fixnum);
}

#[test]
fn negative_and_extreme_integers() {
    let mut interp = Artichoke::new();
    assert_eq!(Value::from_int(-42).to_s(&mut interp), "-42");
    assert_eq!(Value::from_int(0).inspect(&mut interp), "0");
    assert_eq!(Value::from_int(i64::MIN).to_s(&mut interp), "-9223372036854775808");
    assert_eq!(Value::from_int(i64::MAX).to_s(&mut interp), "9223372036854775807");
}

#[test]
fn inspect_escapes_quotes_and_backslashes() {
    let mut interp = Artichoke::new();
    let s = Value::try_from_mrb(&mut interp, "a\"b\\c\n").expect("convert");
    assert_eq!(s.inspect(&mut interp), r#""a\"b\\c\n""#);
}

#[test]
fn string_concatenation() {
    let mut interp = Artichoke::new();
    let a = Value::try_from_mrb(&mut interp, "foo").expect("convert");
    let b = Value::try_from_mrb(&mut interp, "bar").expect("convert");
    assert_eq!(a.funcall::<String>(&mut interp, "+", &[b]), Ok("foobar".to_owned()));
    let n = Value::from_int(1);
    assert_eq!(
        a.funcall::<String>(&mut interp, "+", &[n]),
        Err(ArtichokeError::Exec("TypeError: Integer cannot be converted to String".to_owned()))
    );
}

#[test]
fn string_equality_compares_text() {
    let mut interp = Artichoke::new();
    let a = Value::try_from_mrb(&mut interp, "same").expect("convert");
    let b = Value::try_from_mrb(&mut interp, "same").expect("convert");
    let c = Value::try_from_mrb(&mut interp, "other").expect("convert");
    assert_eq!(a.funcall::<bool>(&mut interp, "==", &[b]), Ok(true));
    assert_eq!(a.funcall::<bool>(&mut interp, "==", &[c]), Ok(false));
    assert_eq!(
        Value::from_int(5).funcall::<bool>(&mut interp, "==", &[Value::from_int(5)]),
        Ok(true)
    );
}

#[test]
fn wrong_arity() {
    let mut interp = Artichoke::new();
    assert_eq!(
        Value::nil().funcall::<bool>(&mut interp, "==", &[]),
        Err(ArtichokeError::Exec(
            "ArgumentError: wrong number of arguments (given 0, expected 1)".to_owned()
        ))
    );
}

#[test]
fn split_on_a_separator_is_not_supported() {
    let mut interp = Artichoke::new();
    let s = Value::try_from_mrb(&mut interp, "a,b").expect("convert");
    let sep = Value::try_from_mrb(&mut interp, ",").expect("convert");
    assert_eq!(
        s.funcall::<Vec<String>>(&mut interp, "split", &[sep]),
        Err(ArtichokeError::Exec(
            "NotImplementedError: split supports only the empty separator".to_owned()
        ))
    );
}

#[test]
fn conversion_mismatch() {
    let mut interp = Artichoke::new();
    let b = Value::from_bool(true);
    assert_eq!(
        b.try_into::<String>(&interp),
        Err(ArtichokeError::ConvertToRust { from: Ruby::Bool, to: Rust::String })
    );
    let s = Value::try_from_mrb(&mut interp, "x").expect("convert");
    assert_eq!(
        s.funcall::<i64>(&mut interp, "itself", &[]),
        Err(ArtichokeError::ConvertToRust { from: Ruby::String, to: Rust::Fixnum })
    );
    assert_eq!(Value::from_int(7).itself::<i64>(&interp), Ok(7));
}

#[test]
fn unreachable_result_is_refused() {
    let mut interp = Artichoke::new();
    let undef = Value::new(MrbValue::Undef);
    assert!(undef.is_unreachable());
    assert_eq!(
        undef.funcall::<bool>(&mut interp, "itself", &[]),
        Err(ArtichokeError::UnreachableValue(Ruby::Unreachable))
    );
    assert_eq!(undef.to_s(&mut interp), "<unknown>");
}

#[test]
fn respond_to_core_methods() {
    let mut interp = Artichoke::new();
    let s = Value::try_from_mrb(&mut interp, "foo").expect("convert");
    assert_eq!(s.respond_to(&mut interp, "split"), Ok(true));
    assert_eq!(Value::nil().respond_to(&mut interp, "split"), Ok(false));
    assert_eq!(Value::nil().respond_to(&mut interp, "to_s"), Ok(true));
    assert_eq!(
        Value::nil().respond_to(&mut interp, "a\0b"),
        Err(ArtichokeError::ConvertToRuby { from: Rust::String, to: Ruby::String })
    );
}

#[test]
fn freeze_returns_the_receiver() {
    let mut interp = Artichoke::new();
    let s = Value::try_from_mrb(&mut interp, "ice").expect("convert");
    let frozen = s.freeze(&mut interp).expect("freeze");
    assert_eq!(frozen.ruby_type(), Ruby::String);
    assert_eq!(frozen.to_s(&mut interp), "ice");
}

#[test]
fn interning_is_idempotent() {
    let mut interp = Artichoke::new();
    let a = interp.sym_intern("to_s");
    let b = interp.sym_intern("inspect");
    let c = interp.sym_intern("to_s");
    assert_eq!(a, c);
    assert_ne!(a, b);
    assert_eq!(interp.symbols.len(), 2);
}

#[test]
fn debug_of_an_array() {
    let mut interp = Artichoke::new();
    let s = Value::try_from_mrb(&mut interp, "xy").expect("convert");
    let delim = Value::try_from_mrb(&mut interp, "").expect("convert");
    let parts = s.funcall::<Value>(&mut interp, "split", &[delim]).expect("split");
    assert_eq!(parts.to_s_debug(&mut interp), "Array<#<Array>>");
}
