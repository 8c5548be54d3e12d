use std::sync::Arc;

use minijinja::error::ErrorKind;
use minijinja::utils::AutoEscape;
use minijinja::value::Value;
use minijinja::value::object::{CallOutcome, Enumeration, NoObject, Object, ObjectRepr};
use minijinja::vm::loop_object::Loop;
use minijinja::vm::state::State;

type V = Value<NoObject>;

fn state() -> State {
    State::new(1, AutoEscape::Html, 100)
}

fn started(len: Option<usize>, depth: usize, idx: usize) -> Loop<NoObject> {
    let l = Loop::new(len, depth);
    for _ in 0..=idx {
        l.advance();
    }
    l
}

fn attr(l: &Loop<NoObject>, key: &str) -> V {
    l.get(key).unwrap()
}

fn returned(outcome: CallOutcome<NoObject>) -> V {
    match outcome {
        CallOutcome::Return(v) => v,
        CallOutcome::Evaluate(_) => panic!("a loop method asked for an evaluation"),
    }
}

fn call(l: &Loop<NoObject>, method: &str, args: &[V]) -> V {
    returned(l.call(&state(), Some(method), args).unwrap())
}

#[test]
fn attributes_of_a_loop_of_five() {
    let l: Loop<NoObject> = Loop::new(Some(5), 0);
    for index in 0..5usize {
        l.advance();
        assert_eq!(l.current_index(), index);
        assert!(attr(&l, "index0").equals(&V::from_usize(index)));
        assert!(attr(&l, "index").equals(&V::from_usize(index + 1)));
        assert!(attr(&l, "length").equals(&V::from_usize(5)));
        assert!(attr(&l, "first").equals(&V::from_bool(index == 0)));
        assert!(attr(&l, "last").equals(&V::from_bool(index == 4)));
        assert!(attr(&l, "revindex").equals(&V::from_usize(5 - index)));
        assert!(attr(&l, "revindex0").equals(&V::from_usize(4 - index)));
    }
}

#[test]
fn attributes_that_need_the_length_are_undefined_without_it() {
    let l: Loop<NoObject> = Loop::new(None, 0);
    for index in 0..4usize {
        l.advance();
        for key in ["length", "revindex", "revindex0", "last"] {
            assert!(attr(&l, key).is_undefined(), "{key} at {index}");
        }
        assert!(attr(&l, "index0").equals(&V::from_usize(index)));
        assert!(attr(&l, "index").equals(&V::from_usize(index + 1)));
        assert!(attr(&l, "first").equals(&V::from_bool(index == 0)));
    }
}

#[test]
fn every_name_is_undefined_before_the_first_iteration() {
    let l: Loop<NoObject> = Loop::new(Some(5), 0);
    assert_eq!(l.current_index(), usize::MAX);
    for key in l.keys() {
        assert!(attr(&l, key).is_undefined(), "{key}");
    }
    assert!(attr(&l, "no_such_attribute").is_undefined());
}

#[test]
fn unknown_attribute_of_a_running_loop() {
    let l = started(Some(5), 0, 0);
    assert!(l.get("no_such_attribute").is_none());
    assert!(l.get("").is_none());
    assert!(l.get("Index").is_none());
}

#[test]
fn depth_counts_enclosing_loops() {
    let l = started(Some(1), 2, 0);
    assert!(attr(&l, "depth0").equals(&V::from_usize(2)));
    assert!(attr(&l, "depth").equals(&V::from_usize(3)));
    assert_eq!(l.depth(), 2);
    assert_eq!(l.len(), Some(1));
}

#[test]
fn last_of_an_empty_loop() {
    let l = started(Some(0), 0, 0);
    assert!(attr(&l, "last").equals(&V::from_bool(true)));
    assert!(attr(&l, "revindex").equals(&V::from_usize(0)));
    assert!(attr(&l, "revindex0").equals(&V::from_usize(0)));
}

#[test]
fn revindex_stops_at_zero_past_the_end() {
    let l = started(Some(2), 0, 3);
    assert!(attr(&l, "revindex").equals(&V::from_usize(0)));
    assert!(attr(&l, "revindex0").equals(&V::from_usize(0)));
    assert!(attr(&l, "last").equals(&V::from_bool(false)));
}

#[test]
fn attr_at_is_a_function_of_its_arguments() {
    let v: Option<V> = Loop::attr_at(Some(10), 3, 1, None, "revindex");
    assert!(v.unwrap().equals(&V::from_usize(7)));
    let v: Option<V> = Loop::attr_at(Some(10), 3, 1, None, "revindex0");
    assert!(v.unwrap().equals(&V::from_usize(6)));
    let v: Option<V> = Loop::attr_at(None, 3, 1, None, "last");
    assert!(v.unwrap().is_undefined());
    let v: Option<V> = Loop::attr_at(Some(10), usize::MAX, 1, None, "index");
    assert!(v.unwrap().is_undefined());
    let v: Option<V> = Loop::attr_at(Some(10), 3, 1, None, "nothing");
    assert!(v.is_none());
    let v: Option<V> = Loop::attr_at(Some(10), 3, 1, None, "previtem");
    assert!(v.is_none());
    let items = (Some(V::from_str("p")), Some(V::from_str("c")), None);
    let v: Option<V> = Loop::attr_at(Some(10), 3, 1, Some(&items), "previtem");
    assert_eq!(v.unwrap().as_str(), Some("p"));
    let v: Option<V> = Loop::attr_at(Some(10), 3, 1, Some(&items), "nextitem");
    assert!(v.unwrap().is_undefined());
    let v: Option<V> = Loop::attr_at(Some(10), 3, 1, Some(&items), "index");
    assert!(v.unwrap().equals(&V::from_usize(4)));
    let v: Option<V> = Loop::attr_at(Some(10), 3, 1, Some(&items), "curitem");
    assert!(v.is_none());
    let v: Option<V> = Loop::attr_at(Some(10), usize::MAX, 1, Some(&items), "previtem");
    assert!(v.unwrap().is_undefined());
}

#[test]
fn keys_in_order() {
    let l: Loop<NoObject> = Loop::new(None, 0);
    assert_eq!(
        l.keys(),
        &[
            "index0",
            "index",
            "length",
            "revindex",
            "revindex0",
            "first",
            "last",
            "depth",
            "depth0"
        ]
    );
}

#[test]
fn cycle_walks_its_arguments() {
    let l: Loop<NoObject> = Loop::new(Some(4), 0);
    let args = [V::from_str("a"), V::from_str("b"), V::from_str("c")];
    for expected in ["a", "b", "c", "a"] {
        l.advance();
        let v = call(&l, "cycle", &args);
        assert_eq!(v.as_str(), Some(expected));
    }
}

#[test]
fn cycle_without_arguments_is_undefined() {
    let l = started(Some(4), 0, 2);
    assert!(call(&l, "cycle", &[]).is_undefined());
}

#[test]
fn cycle_at_picks_by_remainder() {
    let args = [V::from_u64(10), V::from_u64(20)];
    assert!(Loop::cycle_at(5, &args).equals(&V::from_u64(20)));
    assert!(Loop::cycle_at(6, &args).equals(&V::from_u64(10)));
    let empty: [V; 0] = [];
    assert!(Loop::cycle_at(6, &empty).is_undefined());
}

#[test]
fn changed_compares_with_the_last_call() {
    let l = started(Some(3), 0, 0);
    let x = [V::from_str("x")];
    let y = [V::from_str("y")];
    assert!(call(&l, "changed", &x).equals(&V::from_bool(true)));
    assert!(call(&l, "changed", &x).equals(&V::from_bool(false)));
    assert!(call(&l, "changed", &x).equals(&V::from_bool(false)));
    assert!(call(&l, "changed", &y).equals(&V::from_bool(true)));
    assert!(call(&l, "changed", &y).equals(&V::from_bool(false)));
    assert!(call(&l, "changed", &x).equals(&V::from_bool(true)));
}

#[test]
fn changed_compares_whole_tuples() {
    let l = started(Some(3), 0, 0);
    let one = [V::from_u64(1), V::from_str("a")];
    let other = [V::from_u64(1), V::from_str("b")];
    let longer = [V::from_u64(1), V::from_str("b"), V::none()];
    assert!(call(&l, "changed", &[]).equals(&V::from_bool(true)));
    assert!(call(&l, "changed", &[]).equals(&V::from_bool(false)));
    assert!(call(&l, "changed", &one).equals(&V::from_bool(true)));
    assert!(call(&l, "changed", &one).equals(&V::from_bool(false)));
    assert!(call(&l, "changed", &other).equals(&V::from_bool(true)));
    assert!(call(&l, "changed", &longer).equals(&V::from_bool(true)));
    assert!(call(&l, "changed", &longer).equals(&V::from_bool(false)));
}

#[test]
fn changed_step_hands_back_the_tuple_to_store() {
    let x = [V::from_u64(1)];
    let (stored, changed) = Loop::changed_step(None, &x);
    assert!(changed);
    let stored = stored.unwrap();
    assert_eq!(stored.len(), 1);
    assert!(stored[0].equals(&V::from_u64(1)));
    let (stored, changed) = Loop::changed_step(Some(stored), &x);
    assert!(!changed);
    let (stored, changed) = Loop::changed_step(stored, &[V::from_u64(2)]);
    assert!(changed);
    assert!(stored.unwrap()[0].equals(&V::from_u64(2)));
}

#[test]
fn a_tuple_with_an_object_is_compared_like_any_other() {
    let l = started(Some(3), 0, 0);
    let x = [V::from_object(Arc::new(NoObject)), V::from_u64(1)];
    let y = [V::from_object(Arc::new(NoObject)), V::from_u64(2)];
    assert!(call(&l, "changed", &x).equals(&V::from_bool(true)));
    assert!(call(&l, "changed", &x).equals(&V::from_bool(false)));
    assert!(call(&l, "changed", &y).equals(&V::from_bool(true)));
    assert!(call(&l, "changed", &y).equals(&V::from_bool(false)));
}

#[test]
fn cycle_hands_back_a_value_equal_to_the_argument() {
    let l = started(Some(3), 0, 1);
    let args = [
        V::from_str("a"),
        V::from_object(Arc::new(NoObject)),
        V::from_safe_string("<b>".to_string()),
    ];
    let picked = call(&l, "cycle", &args);
    assert!(picked == args[1]);
    assert!(args[1] == picked);
    l.advance();
    let picked = call(&l, "cycle", &args);
    assert!(picked == args[2]);
    assert!(picked.is_safe());
}

#[test]
fn a_loop_is_not_callable_itself() {
    let l = started(Some(3), 0, 0);
    let err = match l.call(&state(), None, &[]) {
        Err(err) => err,
        Ok(_) => panic!("the call went through"),
    };
    assert_eq!(err.kind(), ErrorKind::InvalidOperation);
    assert_eq!(
        err.detail(),
        Some("loop cannot be called if reassigned to different variable")
    );
}

#[test]
fn a_loop_has_two_methods_only() {
    let l = started(Some(3), 0, 0);
    let err = match l.call(&state(), Some("reverse"), &[]) {
        Err(err) => err,
        Ok(_) => panic!("the call went through"),
    };
    assert_eq!(err.kind(), ErrorKind::UnknownMethod);
    assert_eq!(err.detail(), Some("loop object has no method named reverse"));
}

#[test]
fn loop_renders_index_and_length() {
    let l = started(Some(5), 0, 2);
    assert_eq!(l.render(), "<loop 2/5>");
    let l = started(None, 0, 0);
    assert_eq!(l.render(), "<loop 0/?>");
    let l: Loop<NoObject> = Loop::new(Some(12), 0);
    assert_eq!(l.render(), format!("<loop {}/12>", usize::MAX));
    assert_eq!(Loop::<NoObject>::render_at(Some(1000), 999), "<loop 999/1000>");
}

#[test]
fn loop_fields_list_every_attribute() {
    let l = started(Some(5), 1, 4);
    let fields = l.fields();
    let names: Vec<&str> = fields.iter().map(|f| f.0).collect();
    assert_eq!(names, l.keys());
    assert!(fields[0].1.equals(&V::from_usize(4)));
    assert!(fields[1].1.equals(&V::from_usize(5)));
    assert!(fields[2].1.equals(&V::from_usize(5)));
    assert!(fields[3].1.equals(&V::from_usize(1)));
    assert!(fields[4].1.equals(&V::from_usize(0)));
    assert!(fields[5].1.equals(&V::from_bool(false)));
    assert!(fields[6].1.equals(&V::from_bool(true)));
    assert!(fields[7].1.equals(&V::from_usize(2)));
    assert!(fields[8].1.equals(&V::from_usize(1)));
}

#[test]
fn loop_object_protocol() {
    let l = started(Some(5), 0, 1);
    assert_eq!(l.repr(), ObjectRepr::Mapping);
    assert!(l.get_value(&V::from_str("index")).unwrap().equals(&V::from_usize(2)));
    assert!(l.get_value(&V::from_u64(0)).is_none());
    assert!(l.get_value(&V::from_str("nothing")).is_none());
    match l.enumeration() {
        Enumeration::Static(names) => assert_eq!(names, l.keys()),
        _ => panic!("a loop enumerates its attribute names"),
    }
    assert_eq!(l.enumeration().len(), Some(9));
}

#[test]
fn a_loop_value_shares_the_loop() {
    let l = Arc::new(started(Some(5), 0, 0));
    let v = V::from_loop(l.clone());
    let copy = v.clone();
    assert!(copy.get_attr("index0").unwrap().equals(&V::from_usize(0)));
    l.advance();
    assert!(v.get_attr("index0").unwrap().equals(&V::from_usize(1)));
    assert!(copy.get_attr("index0").unwrap().equals(&V::from_usize(1)));
    let args = [V::from_str("odd"), V::from_str("even")];
    let picked = returned(v.call(&state(), Some("cycle"), &args).unwrap());
    assert_eq!(picked.as_str(), Some("even"));
    let err = match v.call(&state(), None, &[]) {
        Err(err) => err,
        Ok(_) => panic!("the call went through"),
    };
    assert_eq!(err.kind(), ErrorKind::InvalidOperation);
}

#[test]
fn adjacent_items_follow_the_iteration() {
    let items = ["a", "b", "c"];
    let l: Loop<NoObject> = Loop::with_adjacent_items(Some(3), 0, Some(V::from_str(items[0])));
    assert!(l.tracks_adjacent_items());
    assert!(attr(&l, "previtem").is_undefined());
    assert!(attr(&l, "nextitem").is_undefined());
    for index in 0..3usize {
        l.advance();
        let upcoming = items.get(index + 1).map(|s| V::from_str(s));
        let current = l.shift_items(upcoming);
        assert_eq!(current.unwrap().as_str(), Some(items[index]));
        let previous = attr(&l, "previtem");
        let next = attr(&l, "nextitem");
        if index == 0 {
            assert!(previous.is_undefined());
        } else {
            assert_eq!(previous.as_str(), Some(items[index - 1]));
        }
        if index == 2 {
            assert!(next.is_undefined());
        } else {
            assert_eq!(next.as_str(), Some(items[index + 1]));
        }
        assert!(attr(&l, "index0").equals(&V::from_usize(index)));
    }
    assert!(l.shift_items(None).is_none());
}

#[test]
fn adjacent_items_are_attributes_only_where_the_loop_keeps_them() {
    let plain = started(Some(3), 0, 0);
    assert!(!plain.tracks_adjacent_items());
    assert!(plain.get("previtem").is_none());
    assert!(plain.get("nextitem").is_none());
    assert_eq!(plain.keys().len(), 9);
    let l: Loop<NoObject> = Loop::with_adjacent_items(None, 1, None);
    l.advance();
    assert_eq!(
        l.keys(),
        &[
            "index0",
            "index",
            "length",
            "revindex",
            "revindex0",
            "first",
            "last",
            "depth",
            "depth0",
            "previtem",
            "nextitem"
        ]
    );
    assert_eq!(l.enumeration().len(), Some(11));
    let fields = l.fields();
    assert_eq!(fields.len(), 11);
    assert_eq!(fields[9].0, "previtem");
    assert!(fields[9].1.is_undefined());
    assert_eq!(fields[10].0, "nextitem");
    assert!(fields[10].1.is_undefined());
    assert!(l.get("curitem").is_none());
}

#[test]
fn shift_step_moves_the_items_on() {
    let items = (Some(V::from_u64(1)), Some(V::from_u64(2)), Some(V::from_u64(3)));
    let ((previous, current, next), started) = Loop::shift_step(items, Some(V::from_u64(4)));
    assert!(previous.unwrap().equals(&V::from_u64(2)));
    assert!(current.unwrap().equals(&V::from_u64(3)));
    assert!(next.unwrap().equals(&V::from_u64(4)));
    assert!(started.unwrap().equals(&V::from_u64(3)));
    let ((previous, current, next), started): ((Option<V>, Option<V>, Option<V>), Option<V>) =
        Loop::shift_step((None, None, Some(V::from_u64(1))), None);
    assert!(previous.is_none());
    assert!(current.unwrap().equals(&V::from_u64(1)));
    assert!(next.is_none());
    assert!(started.unwrap().equals(&V::from_u64(1)));
    let ((previous, current, next), started): ((Option<V>, Option<V>, Option<V>), Option<V>) =
        Loop::shift_step((Some(V::from_u64(1)), None, None), None);
    assert!(previous.is_none());
    assert!(current.is_none());
    assert!(next.is_none());
    assert!(started.is_none());
}
