use std::sync::Arc;

use minijinja::error::{Error, ErrorKind};
use minijinja::text::{bytes_eq, push_decimal, str_eq};
use minijinja::utils::AutoEscape;
use minijinja::value::map::ValueMap;
use minijinja::value::object::{Enumeration, NoObject, Object, ObjectEq, ObjectRepr};
use minijinja::value::protocol::{object_is_true, object_kind, ValueKind};
use minijinja::value::{intern, value_optimization, Value, ValueRepr};
use minijinja::vm::loop_object::Loop;
use minijinja::vm::macro_object::Macro;
use minijinja::vm::state::State;

type V = Value<NoObject>;

fn sample_map() -> ValueMap<NoObject> {
    let mut map = ValueMap::new();
    map.insert("a".to_string(), V::from_u64(1));
    map.insert("b".to_string(), V::from_str("two"));
    map
}

fn sample_macro(closure: V) -> Macro<NoObject> {
    Macro {
        name: intern("m"),
        arg_spec: vec![intern("a")],
        macro_ref_id: 0,
        state_id: 1,
        closure,
        caller_reference: false,
    }
}

fn samples() -> Vec<V> {
    vec![
        V::undefined(),
        V::none(),
        V::from_bool(true),
        V::from_u64(42),
        V::from_i64(-42),
        V::from_str("text"),
        V::from_safe_string("<b>".to_string()),
        V::from_bytes(vec![1, 2, 3]),
        V::from_seq(vec![V::from_u64(1), V::from_str("x")]),
        V::from_map(sample_map()),
        V::from_kwargs(sample_map()),
        V::from_loop(Arc::new(Loop::new(Some(3), 0))),
        V::from_macro(Arc::new(sample_macro(V::from_u64(1)))),
    ]
}

#[test]
fn a_clone_equals_the_value_it_was_made_from() {
    for v in samples() {
        let copy = v.clone();
        assert!(copy.equals(&v));
        assert!(v.equals(&copy));
        assert_eq!(copy.kind(), v.kind());
    }
}

#[test]
fn a_clone_shares_the_data_of_the_value_it_was_made_from() {
    let v = V::from_seq(vec![V::from_u64(1); 1000]);
    let copy = v.clone();
    match (&v.0, &copy.0) {
        (ValueRepr::Sequence(a), ValueRepr::Sequence(b)) => assert!(Arc::ptr_eq(a, b)),
        _ => panic!("a sequence was expected"),
    }
    let v = V::from_str("shared");
    let copy = v.clone();
    match (&v.0, &copy.0) {
        (ValueRepr::String(a, _), ValueRepr::String(b, _)) => assert!(Arc::ptr_eq(a, b)),
        _ => panic!("a string was expected"),
    }
    let v = V::from_map(sample_map());
    let copy = v.clone();
    match (&v.0, &copy.0) {
        (ValueRepr::Mapping(a, _), ValueRepr::Mapping(b, _)) => assert!(Arc::ptr_eq(a, b)),
        _ => panic!("a map was expected"),
    }
}

#[test]
fn distinct_samples_differ() {
    let all = samples();
    for (i, a) in all.iter().enumerate() {
        for (j, b) in all.iter().enumerate() {
            assert_eq!(a.equals(b), i == j, "{i} and {j}");
        }
    }
}

#[test]
fn integers_compare_by_value() {
    assert!(V::from_u64(7).equals(&V::from_i64(7)));
    assert!(V::from_i64(7).equals(&V::from_u64(7)));
    assert!(V::from_usize(7).equals(&V::from_u64(7)));
    assert!(!V::from_i64(-1).equals(&V::from_u64(u64::MAX)));
    assert!(!V::from_u64(u64::MAX).equals(&V::from_i64(-1)));
    assert!(!V::from_u64(1).equals(&V::from_bool(true)));
    assert!(!V::from_u64(0).equals(&V::none()));
}

#[test]
fn strings_compare_by_text_and_type() {
    assert!(V::from_str("a").equals(&V::from_string("a".to_string())));
    assert!(V::from_str("a").equals(&V::from_arc_str(intern("a"))));
    assert!(!V::from_str("a").equals(&V::from_str("b")));
    assert!(!V::from_str("a").equals(&V::from_str("ab")));
    assert!(!V::from_str("a").equals(&V::from_safe_string("a".to_string())));
    assert!(!V::from_str("a").equals(&V::from_bytes(vec![b'a'])));
    assert!(V::from_str("é∑").equals(&V::from_str("é∑")));
}

#[test]
fn sequences_compare_item_by_item() {
    let a = V::from_seq(vec![V::from_u64(1), V::from_seq(vec![V::from_str("x")])]);
    let b = V::from_seq(vec![V::from_u64(1), V::from_seq(vec![V::from_str("x")])]);
    let c = V::from_seq(vec![V::from_u64(1), V::from_seq(vec![V::from_str("y")])]);
    let d = V::from_seq(vec![V::from_u64(1)]);
    assert!(a.equals(&b));
    assert!(!a.equals(&c));
    assert!(!a.equals(&d));
    assert!(!d.equals(&a));
    assert!(V::from_seq(vec![]).equals(&V::from_seq(vec![])));
}

#[test]
fn maps_compare_entry_by_entry() {
    let a = V::from_map(sample_map());
    let mut other = sample_map();
    other.insert("b".to_string(), V::from_str("three"));
    assert!(a.equals(&V::from_map(sample_map())));
    assert!(!a.equals(&V::from_map(other)));
    let mut longer = sample_map();
    longer.insert("c".to_string(), V::none());
    assert!(!a.equals(&V::from_map(longer)));
    assert!(!a.equals(&V::from_kwargs(sample_map())));
}

#[test]
fn macros_compare_field_by_field() {
    let a = V::from_macro(Arc::new(sample_macro(V::from_u64(1))));
    let b = V::from_macro(Arc::new(sample_macro(V::from_u64(1))));
    let c = V::from_macro(Arc::new(sample_macro(V::from_u64(2))));
    assert!(a.equals(&b));
    assert!(!a.equals(&c));
    let mut renamed = sample_macro(V::from_u64(1));
    renamed.arg_spec = vec![intern("b")];
    assert!(!a.equals(&V::from_macro(Arc::new(renamed))));
}

#[test]
fn loops_compare_by_what_never_changes() {
    let a = V::from_loop(Arc::new(Loop::new(Some(3), 0)));
    assert!(!a.equals(&V::from_loop(Arc::new(Loop::with_adjacent_items(Some(3), 0, None)))));
    let advanced = Loop::new(Some(3), 0);
    advanced.advance();
    assert!(a.equals(&V::from_loop(Arc::new(advanced))));
    assert!(a.equals(&V::from_loop(Arc::new(Loop::new(Some(3), 0)))));
    assert!(!a.equals(&V::from_loop(Arc::new(Loop::new(Some(4), 0)))));
    assert!(!a.equals(&V::from_loop(Arc::new(Loop::new(Some(3), 1)))));
    assert!(!a.equals(&V::from_loop(Arc::new(Loop::new(None, 0)))));
}

#[test]
fn an_object_equals_itself_and_its_clones() {
    let v = V::from_object(Arc::new(NoObject));
    assert!(v.equals(&v));
    assert!(v.clone().equals(&v));
    assert!(v.equals(&v.clone()));
    assert!(v.equals(&V::from_object(Arc::new(NoObject))));
    assert!(!v.equals(&V::none()));
    assert!(!V::none().equals(&v));
    let inside = V::from_seq(vec![V::from_u64(1), v.clone()]);
    assert!(inside.equals(&inside.clone()));
    assert!(!inside.equals(&V::from_seq(vec![V::from_u64(2), v])));
}

#[test]
fn inspectors() {
    assert!(V::undefined().is_undefined());
    assert!(!V::none().is_undefined());
    assert!(V::none().is_none());
    assert!(!V::undefined().is_none());
    assert!(V::from_safe_string("x".to_string()).is_safe());
    assert!(!V::from_str("x").is_safe());
    assert!(V::from_kwargs(sample_map()).is_kwargs());
    assert!(!V::from_map(sample_map()).is_kwargs());
    assert_eq!(V::from_str("x").as_str(), Some("x"));
    assert_eq!(V::from_u64(1).as_str(), None);
}

#[test]
fn kinds() {
    let expected = [
        ValueKind::Undefined,
        ValueKind::Null,
        ValueKind::Bool,
        ValueKind::Number,
        ValueKind::Number,
        ValueKind::String,
        ValueKind::String,
        ValueKind::Bytes,
        ValueKind::Sequence,
        ValueKind::Mapping,
        ValueKind::Mapping,
        ValueKind::Mapping,
        ValueKind::Mapping,
    ];
    for (v, kind) in samples().iter().zip(expected) {
        assert_eq!(v.kind(), kind);
    }
    assert_eq!(V::from_object(Arc::new(NoObject)).kind(), ValueKind::Plain);
}

#[test]
fn interned_strings_keep_their_text() {
    assert_eq!(&*intern("key"), "key");
    assert_eq!(&*intern(""), "");
    assert_eq!(&*intern("käse"), "käse");
}

#[test]
fn value_optimization_is_inert() {
    let guard = value_optimization();
    assert!(!guard.is_interning());
}

#[test]
fn map_keeps_insertion_order_and_unique_keys() {
    let mut map: ValueMap<NoObject> = ValueMap::new();
    assert_eq!(map.len(), 0);
    map.insert("b".to_string(), V::from_u64(1));
    map.insert("a".to_string(), V::from_u64(2));
    map.insert("b".to_string(), V::from_u64(3));
    assert_eq!(map.len(), 2);
    assert_eq!(map.entries[0].0, "b");
    assert_eq!(map.entries[1].0, "a");
    assert!(map.get("b").unwrap().equals(&V::from_u64(3)));
    assert!(map.get("a").unwrap().equals(&V::from_u64(2)));
    assert!(map.get("c").is_none());
    assert_eq!(map.position("a"), Some(1));
    assert_eq!(map.position("c"), None);
}

#[test]
fn lookup_in_sequences_and_maps() {
    let seq = V::from_seq(vec![V::from_str("a"), V::from_str("b")]);
    assert_eq!(seq.get_value(&V::from_u64(1)).unwrap().as_str(), Some("b"));
    assert_eq!(seq.get_value(&V::from_i64(0)).unwrap().as_str(), Some("a"));
    assert!(seq.get_value(&V::from_u64(2)).is_none());
    assert!(seq.get_value(&V::from_i64(-1)).is_none());
    assert!(seq.get_value(&V::from_str("0")).is_none());
    assert!(seq.get_attr("length").is_none());
    let map = V::from_map(sample_map());
    assert_eq!(map.get_attr("b").unwrap().as_str(), Some("two"));
    assert!(map.get_value(&V::from_str("a")).unwrap().equals(&V::from_u64(1)));
    assert!(map.get_attr("c").is_none());
    assert!(map.get_value(&V::from_u64(0)).is_none());
    assert!(V::from_str("text").get_value(&V::from_u64(0)).is_none());
    assert!(V::undefined().get_attr("a").is_none());
}

#[test]
fn enumeration_of_values() {
    let seq = V::from_seq(vec![V::from_str("a"), V::from_str("b")]);
    match seq.enumeration() {
        Enumeration::Sequential(n) => assert_eq!(n, 2),
        _ => panic!("a sequence enumerates its indices"),
    }
    match V::from_map(sample_map()).enumeration() {
        Enumeration::Values(keys) => {
            assert_eq!(keys.len(), 2);
            assert_eq!(keys[0].as_str(), Some("a"));
            assert_eq!(keys[1].as_str(), Some("b"));
        }
        _ => panic!("a map enumerates its keys"),
    }
    assert!(matches!(V::from_u64(1).enumeration(), Enumeration::NonEnumerable));
    assert!(matches!(V::from_str("ab").enumeration(), Enumeration::NonEnumerable));
    assert_eq!(V::from_u64(1).enumeration().len(), None);
    assert_eq!(seq.enumeration().len(), Some(2));
    let empty: Enumeration<NoObject> = Enumeration::Empty;
    assert_eq!(empty.len(), Some(0));
    assert_eq!(
        V::from_macro(Arc::new(sample_macro(V::none()))).enumeration().len(),
        Some(3)
    );
}

fn refused(v: &V, method: Option<&str>) -> Error {
    match v.call(&State::new(1, AutoEscape::Disabled, 100), method, &[]) {
        Err(err) => err,
        Ok(_) => panic!("the call went through"),
    }
}

#[test]
fn data_takes_no_calls() {
    for v in samples().iter().take(11) {
        let err = refused(v, None);
        assert_eq!(err.kind(), ErrorKind::InvalidOperation);
        assert_eq!(err.detail(), Some("value is not callable"));
        let err = refused(v, Some("upper"));
        assert_eq!(err.kind(), ErrorKind::UnknownMethod);
        assert_eq!(err.detail(), Some("object has no method named upper"));
    }
}

#[test]
fn an_object_without_capabilities() {
    let object = NoObject;
    assert_eq!(object.repr(), ObjectRepr::Plain);
    assert!(object.get_value(&V::from_str("a")).is_none());
    assert!(matches!(object.enumeration(), Enumeration::NonEnumerable));
    assert_eq!(object.render(), "<object>");
    let v = V::from_object(Arc::new(NoObject));
    assert_eq!(refused(&v, None).kind(), ErrorKind::InvalidOperation);
    assert_eq!(refused(&v, Some("f")).kind(), ErrorKind::UnknownMethod);
    assert!(v.get_attr("a").is_none());
}

#[test]
fn errors_carry_kind_and_detail() {
    let err = Error::new(ErrorKind::UnknownMethod, "no such method".to_string());
    assert_eq!(err.kind(), ErrorKind::UnknownMethod);
    assert_eq!(err.detail(), Some("no such method"));
    let err = Error::from_kind(ErrorKind::TooManyArguments);
    assert_eq!(err.kind(), ErrorKind::TooManyArguments);
    assert_eq!(err.detail(), None);
}

#[test]
fn state_accessors() {
    let state = State::new(-3, AutoEscape::Json, 100);
    assert_eq!(state.id(), -3);
    assert_eq!(state.auto_escape(), AutoEscape::Json);
    assert_eq!(state.depth, 0);
    assert_eq!(state.recursion_limit, 100);
}

#[test]
fn nested_evaluations_stop_at_the_limit() {
    let mut state = State::new(9, AutoEscape::Html, 3);
    for depth in 1..=3usize {
        state = match state.enter() {
            Ok(nested) => nested,
            Err(err) => panic!("entering level {depth} failed: {err:?}"),
        };
        assert_eq!(state.depth, depth);
        assert_eq!(state.id(), 9);
        assert_eq!(state.auto_escape(), AutoEscape::Html);
        assert_eq!(state.recursion_limit, 3);
    }
    let err = state.enter().unwrap_err();
    assert_eq!(err.kind(), ErrorKind::InvalidOperation);
    assert_eq!(err.detail(), Some("recursion limit exceeded"));
    let none = State::new(9, AutoEscape::Html, 0);
    assert_eq!(none.enter().unwrap_err().kind(), ErrorKind::InvalidOperation);
}

#[test]
fn text_comparison() {
    assert!(str_eq("", ""));
    assert!(str_eq("loop", "loop"));
    assert!(!str_eq("loop", "loops"));
    assert!(!str_eq("loop", "loom"));
    assert!(!str_eq("a", ""));
    assert!(bytes_eq(&[1, 2], &[1, 2]));
    assert!(!bytes_eq(&[1, 2], &[2, 1]));
    assert!(!bytes_eq(&[1, 2], &[1]));
}

#[test]
fn decimal_forms() {
    for n in [0u64, 7, 9, 10, 11, 99, 100, 1234567890, u64::MAX] {
        let mut out = String::from("n=");
        push_decimal(&mut out, n);
        assert_eq!(out, format!("n={n}"));
    }
}

#[test]
fn string_forms_of_scalars() {
    assert_eq!(V::undefined().render(), "");
    assert_eq!(V::none().render(), "none");
    assert_eq!(V::from_bool(true).render(), "true");
    assert_eq!(V::from_bool(false).render(), "false");
    assert_eq!(V::from_u64(0).render(), "0");
    assert_eq!(V::from_u64(u64::MAX).render(), "18446744073709551615");
    assert_eq!(V::from_i64(-42).render(), "-42");
    assert_eq!(V::from_i64(42).render(), "42");
    assert_eq!(V::from_i64(i64::MIN).render(), "-9223372036854775808");
    assert_eq!(V::from_i64(i64::MAX).render(), "9223372036854775807");
    assert_eq!(V::from_str("text").render(), "text");
    assert_eq!(V::from_safe_string("<b>".to_string()).render(), "<b>");
}

#[test]
fn string_form_of_bytes() {
    assert_eq!(V::from_bytes(b"caf\xc3\xa9".to_vec()).render(), "café");
    assert_eq!(V::from_bytes(vec![b'a', 0xff, b'b']).render(), "a\u{fffd}b");
    assert_eq!(V::from_bytes(vec![]).render(), "");
}

#[test]
fn string_forms_of_containers() {
    assert_eq!(V::from_seq(vec![]).render(), "[]");
    assert_eq!(V::from_seq(vec![V::from_u64(1)]).render(), "[1]");
    let nested = V::from_seq(vec![
        V::from_u64(1),
        V::from_str("a"),
        V::from_seq(vec![V::none(), V::from_bool(true)]),
    ]);
    assert_eq!(nested.render(), "[1, a, [none, true]]");
    assert_eq!(V::from_map(ValueMap::new()).render(), "{}");
    assert_eq!(V::from_map(sample_map()).render(), "{a: 1, b: two}");
    let mut outer = ValueMap::new();
    outer.insert("inner".to_string(), V::from_map(sample_map()));
    outer.insert("list".to_string(), V::from_seq(vec![V::from_i64(-1)]));
    assert_eq!(
        V::from_kwargs(outer).render(),
        "{inner: {a: 1, b: two}, list: [-1]}"
    );
}

#[test]
fn string_forms_of_objects() {
    let l = Arc::new(Loop::new(Some(3), 0));
    l.advance();
    let v = V::from_loop(l);
    assert_eq!(v.render(), "<loop 0/3>");
    let m = V::from_macro(Arc::new(sample_macro(V::none())));
    assert_eq!(m.render(), "<macro m>");
    assert_eq!(V::from_object(Arc::new(NoObject)).render(), "<object>");
    assert_eq!(
        V::from_seq(vec![v, m]).render(),
        "[<loop 0/3>, <macro m>]"
    );
    let mut out = String::from("x = ");
    V::from_u64(5).render_into(&mut out);
    assert_eq!(out, "x = 5");
}

#[test]
fn truthiness() {
    let falsy = [
        V::undefined(),
        V::none(),
        V::from_bool(false),
        V::from_u64(0),
        V::from_i64(0),
        V::from_str(""),
        V::from_bytes(vec![]),
        V::from_seq(vec![]),
        V::from_map(ValueMap::new()),
    ];
    for v in &falsy {
        assert!(!v.is_true());
    }
    for v in samples().iter().skip(2) {
        assert!(v.is_true());
    }
    assert!(V::from_i64(-1).is_true());
    assert!(V::from_object(Arc::new(NoObject)).is_true());
}

#[test]
fn lengths() {
    assert_eq!(V::from_str("héllo").len(), Some(5));
    assert_eq!(V::from_str("").len(), Some(0));
    assert_eq!(V::from_bytes(vec![1, 2, 3]).len(), Some(3));
    assert_eq!(V::from_seq(vec![V::none(), V::none()]).len(), Some(2));
    assert_eq!(V::from_map(sample_map()).len(), Some(2));
    assert_eq!(V::from_loop(Arc::new(Loop::new(None, 0))).len(), Some(9));
    assert_eq!(
        V::from_loop(Arc::new(Loop::with_adjacent_items(None, 0, None))).len(),
        Some(11)
    );
    assert_eq!(V::from_macro(Arc::new(sample_macro(V::none()))).len(), Some(3));
    assert_eq!(V::from_u64(3).len(), None);
    assert_eq!(V::undefined().len(), None);
    assert_eq!(V::from_object(Arc::new(NoObject)).len(), None);
}

#[test]
fn the_equality_operator_follows_equals() {
    assert!(V::from_u64(7) == V::from_i64(7));
    assert!(V::from_str("a") != V::from_str("b"));
    assert!(V::from_seq(vec![V::none()]) == V::from_seq(vec![V::none()]));
    let object = V::from_object(Arc::new(NoObject));
    assert!(object == object.clone());
    assert!(object != V::undefined());
}

#[test]
fn conversions_into_values() {
    assert!(V::from(true).equals(&V::from_bool(true)));
    assert!(V::from(7u64).equals(&V::from_u64(7)));
    assert!(V::from(-7i64).equals(&V::from_i64(-7)));
    assert!(V::from(7usize).equals(&V::from_usize(7)));
    assert!(V::from(()).is_none());
    assert_eq!(V::from(intern("name")).as_str(), Some("name"));
}

#[test]
fn unique_keys_are_recognised() {
    assert!(ValueMap::<NoObject>::new().has_unique_keys());
    assert!(sample_map().has_unique_keys());
    let twice: ValueMap<NoObject> = ValueMap {
        entries: vec![
            ("a".to_string(), V::from_u64(1)),
            ("b".to_string(), V::from_u64(2)),
            ("a".to_string(), V::from_u64(3)),
        ],
    };
    assert!(!twice.has_unique_keys());
    let at_once: ValueMap<NoObject> = ValueMap {
        entries: vec![("a".to_string(), V::none()), ("a".to_string(), V::none())],
    };
    assert!(!at_once.has_unique_keys());
}

#[test]
fn an_object_has_the_kind_of_its_representation() {
    assert_eq!(object_kind(ObjectRepr::Plain), ValueKind::Plain);
    assert_eq!(object_kind(ObjectRepr::Mapping), ValueKind::Mapping);
    assert_eq!(object_kind(ObjectRepr::Sequence), ValueKind::Sequence);
}

#[test]
fn an_object_is_true_unless_it_enumerates_nothing() {
    let nothing: Enumeration<NoObject> = Enumeration::Empty;
    assert!(nothing.is_empty());
    assert!(!object_is_true(&nothing));
    let none: Enumeration<NoObject> = Enumeration::Sequential(0);
    assert!(none.is_empty());
    assert!(!object_is_true(&none));
    let no_names: Enumeration<NoObject> = Enumeration::Static(&[]);
    assert!(!object_is_true(&no_names));
    let no_keys: Enumeration<NoObject> = Enumeration::Values(vec![]);
    assert!(!object_is_true(&no_keys));
    let opaque: Enumeration<NoObject> = Enumeration::NonEnumerable;
    assert!(!opaque.is_empty());
    assert!(object_is_true(&opaque));
    let some: Enumeration<NoObject> = Enumeration::Sequential(2);
    assert!(object_is_true(&some));
    let names: Enumeration<NoObject> = Enumeration::Static(&["a"]);
    assert!(object_is_true(&names));
}

#[test]
fn the_one_object_without_capabilities_is_the_same_as_itself() {
    assert!(NoObject.same(&NoObject));
}
