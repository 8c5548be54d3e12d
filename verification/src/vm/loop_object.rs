//! The loop object: the state of one running `for` loop.
//!
//! Every attribute of a loop is a function of a few values: the index of the
//! current iteration, the length of what is iterated, the nesting depth and,
//! for a loop that tracks them, the items next to the current one. The index
//! lives in an atomic counter that the evaluator advances once per iteration
//! while the loop body reads it; the adjacent items and the tuple that
//! `changed` compares against live behind locks. What a read of any of them
//! yields is not known statically, so the functions that decide,
//! [`Loop::attr_at`], [`Loop::cycle_at`], [`Loop::changed_step`] and
//! [`Loop::shift_step`], take it as an argument.

use vstd::prelude::*;
use vstd::rwlock::{RwLock, RwLockPredicate};
use vstd::string::StringExecFns;
use std::sync::atomic::{AtomicUsize, Ordering};
use crate::error::{Error, ErrorKind, ErrorView};
use crate::text::{decimal, push_decimal, str_eq};
use crate::value::object::{
    call_view, method_view, static_names, CallOutcome, CallOutcomeView, Enumeration, Object,
    ObjectEq, ObjectRepr,
};
use crate::value::{option_view, seq_view, LoopView, Value, ValueView};
use crate::vm::state::State;

verus! {

/// The item before the current one, the current item and the item after
/// it; `None` where there is no such item.
pub type ItemTriple<X> = (Option<Value<X>>, Option<Value<X>>, Option<Value<X>>);

/// The views of the items of an [`ItemTriple`].
pub type ItemViews<X> = (Option<ValueView<X>>, Option<ValueView<X>>, Option<ValueView<X>>);

/// The views of the items of a triple.
pub open spec fn triple_view<X>(items: ItemTriple<X>) -> ItemViews<X> {
    (option_view(items.0), option_view(items.1), option_view(items.2))
}

/// The predicate of the locks of a loop: anything may be stored.
pub struct Unconstrained;

impl<X> RwLockPredicate<Option<Vec<Value<X>>>> for Unconstrained {
    open spec fn inv(self, v: Option<Vec<Value<X>>>) -> bool {
        true
    }
}

impl<X> RwLockPredicate<ItemTriple<X>> for Unconstrained {
    open spec fn inv(self, v: ItemTriple<X>) -> bool {
        true
    }
}

/// The state of one running `for` loop, bound to the name `loop` in the
/// loop's body.
pub struct Loop<X> {
    /// The number of items, where it is known up front.
    len: Option<usize>,
    /// The index of the current iteration; `usize::MAX` until the first
    /// iteration starts.
    idx: AtomicUsize,
    /// How many loops enclose this one.
    depth: usize,
    /// Whether the loop offers `previtem` and `nextitem`.
    adjacent_loop_items: bool,
    /// The items around the current iteration.
    value_triple: RwLock<ItemTriple<X>, Unconstrained>,
    /// The tuple that `changed` was last called with.
    last_changed_value: RwLock<Option<Vec<Value<X>>>, Unconstrained>,
}

/// The value of the attribute `key` of a loop of length `len` and nesting
/// depth `depth` whose current index is `idx`; `None` where `key` is none of
/// the names of [`loop_keys`].
///
/// A loop that never iterated (`idx` is `usize::MAX`) reads as undefined
/// under every name. An attribute that depends on a length that is not known
/// reads as undefined.
pub open spec fn loop_attr<X>(len: Option<usize>, idx: usize, depth: usize, key: Seq<char>) -> Option<
    ValueView<X>,
> {
    if idx == usize::MAX {
        Some(ValueView::Undefined)
    } else if key == "index0"@ {
        Some(ValueView::Int(idx as int))
    } else if key == "index"@ {
        Some(ValueView::Int(idx + 1))
    } else if key == "length"@ {
        Some(
            match len {
                Some(n) => ValueView::Int(n as int),
                None => ValueView::Undefined,
            },
        )
    } else if key == "revindex"@ {
        Some(
            match len {
                Some(n) => ValueView::Int(
                    if n >= idx {
                        n - idx
                    } else {
                        0
                    },
                ),
                None => ValueView::Undefined,
            },
        )
    } else if key == "revindex0"@ {
        Some(
            match len {
                Some(n) => ValueView::Int(
                    if n > idx {
                        n - idx - 1
                    } else {
                        0
                    },
                ),
                None => ValueView::Undefined,
            },
        )
    } else if key == "first"@ {
        Some(ValueView::Bool(idx == 0))
    } else if key == "last"@ {
        Some(
            match len {
                Some(n) => ValueView::Bool(n == 0 || idx == n - 1),
                None => ValueView::Undefined,
            },
        )
    } else if key == "depth"@ {
        Some(ValueView::Int(depth + 1))
    } else if key == "depth0"@ {
        Some(ValueView::Int(depth as int))
    } else {
        None
    }
}

/// An item next to the current one as an attribute shows it: undefined
/// where there is no such item.
pub open spec fn item_or_undefined<X>(item: Option<ValueView<X>>) -> ValueView<X> {
    match item {
        Some(v) => v,
        None => ValueView::Undefined,
    }
}

/// The value of the attribute `key` among those that look at the adjacent
/// items: `previtem` is the item before the current one, `nextitem` the item
/// after it.
pub open spec fn adjacent_attr<X>(items: ItemViews<X>, key: Seq<char>) -> Option<ValueView<X>> {
    if key == "previtem"@ {
        Some(item_or_undefined(items.0))
    } else if key == "nextitem"@ {
        Some(item_or_undefined(items.2))
    } else {
        None
    }
}

/// The value of the attribute `key` of a loop at index `idx`: one of the
/// attributes of [`loop_attr`] or, in a loop that tracks the adjacent items
/// `items`, one of [`adjacent_attr`]; `None` where the loop has no such
/// attribute.
pub open spec fn loop_value<X>(
    len: Option<usize>,
    idx: usize,
    depth: usize,
    items: Option<ItemViews<X>>,
    key: Seq<char>,
) -> Option<ValueView<X>> {
    match loop_attr(len, idx, depth, key) {
        Some(v) => Some(v),
        None => match items {
            Some(triple) => adjacent_attr(triple, key),
            None => None,
        },
    }
}

/// The adjacent items as the attributes of a loop see them: `items` in a
/// loop that tracks adjacent items, nothing in any other.
pub open spec fn offered_items<X>(adjacent_items: bool, items: ItemViews<X>) -> Option<
    ItemViews<X>,
> {
    if adjacent_items {
        Some(items)
    } else {
        None
    }
}

/// Whether `r` is what a lookup of `key` finds in the loop `l` in some
/// state of the loop: at some index and, where the loop tracks them, with
/// some adjacent items.
pub open spec fn is_loop_value<X>(l: LoopView, key: Seq<char>, r: Option<ValueView<X>>) -> bool {
    exists|idx: usize, items: ItemViews<X>|
        r == #[trigger] loop_value(l.len, idx, l.depth, offered_items(l.adjacent_items, items), key)
}

/// Whether the attribute `key` depends on the length of the loop.
pub open spec fn needs_length(key: Seq<char>) -> bool {
    key == "length"@ || key == "revindex"@ || key == "revindex0"@ || key == "last"@
}

/// The names of the attributes of a loop, in the order in which they are
/// enumerated; `previtem` and `nextitem` are among them where the loop
/// tracks adjacent items.
pub open spec fn loop_keys(adjacent_items: bool) -> Seq<Seq<char>> {
    if adjacent_items {
        seq![
            "index0"@,
            "index"@,
            "length"@,
            "revindex"@,
            "revindex0"@,
            "first"@,
            "last"@,
            "depth"@,
            "depth0"@,
            "previtem"@,
            "nextitem"@,
        ]
    } else {
        seq![
            "index0"@,
            "index"@,
            "length"@,
            "revindex"@,
            "revindex0"@,
            "first"@,
            "last"@,
            "depth"@,
            "depth0"@,
        ]
    }
}

/// The adjacent items one iteration on: the current item becomes the
/// previous, the next the current, and `upcoming` the next.
pub open spec fn shifted<T>(items: (Option<T>, Option<T>, Option<T>), upcoming: Option<T>) -> (
    Option<T>,
    Option<T>,
    Option<T>,
) {
    (items.1, items.2, upcoming)
}

/// What `changed` answers for `args` when the tuple it last stored is
/// `stored`: whether `args` differs from it. With nothing stored, every
/// tuple counts as changed.
pub open spec fn tuple_changed<X>(stored: Option<Seq<ValueView<X>>>, args: Seq<ValueView<X>>) -> bool {
    stored != Some(args)
}

/// The views of an optional tuple.
pub open spec fn tuple_view<X>(stored: Option<Vec<Value<X>>>) -> Option<Seq<ValueView<X>>> {
    match stored {
        Some(s) => Some(seq_view(s@)),
        None => None,
    }
}

/// What `cycle` answers at index `idx`: its arguments in turn, starting
/// over after the last; undefined where there are no arguments.
pub open spec fn cycle_pick<X>(idx: usize, args: Seq<ValueView<X>>) -> ValueView<X> {
    if args.len() == 0 {
        ValueView::Undefined
    } else {
        args[idx as int % args.len() as int]
    }
}

/// The string form of a loop of length `len` at index `idx`.
pub open spec fn loop_render(len: Option<usize>, idx: usize) -> Seq<char> {
    "<loop "@ + decimal(idx as nat) + "/"@ + match len {
        Some(n) => decimal(n as nat),
        None => "?"@,
    } + ">"@
}

/// Whether `fields` are the attributes of a loop of length `len` and nesting
/// depth `depth` at index `idx` with the adjacent items `items`: one field
/// for each name of [`loop_keys`], in that order, with the value of the
/// attribute.
pub open spec fn loop_fields<X>(
    fields: Seq<(&'static str, Value<X>)>,
    len: Option<usize>,
    idx: usize,
    depth: usize,
    items: Option<ItemViews<X>>,
) -> bool {
    &&& fields.len() == loop_keys(items is Some).len()
    &&& forall|i: int|
        0 <= i < fields.len() ==> (#[trigger] fields[i]).0@ == loop_keys(items is Some)[i] && Some(
            fields[i].1@,
        ) == loop_value(len, idx, depth, items, loop_keys(items is Some)[i])
}

/// What a call of a loop object answers at index `idx` when the tuple that
/// `changed` last stored is `stored`.
///
/// Called without a method name, a loop object refuses: it is called
/// through its methods only. `changed` answers whether its arguments differ
/// from the stored tuple, `cycle` picks one of its arguments by the index;
/// any other method is unknown.
pub open spec fn loop_call<X>(
    idx: usize,
    stored: Option<Seq<ValueView<X>>>,
    method: Option<Seq<char>>,
    args: Seq<ValueView<X>>,
) -> Result<CallOutcomeView<X>, ErrorView> {
    match method {
        None => Err(
            ErrorView {
                kind: ErrorKind::InvalidOperation,
                detail: Some("loop cannot be called if reassigned to different variable"@),
            },
        ),
        Some(name) => if name == "changed"@ {
            Ok(CallOutcomeView::Return(ValueView::Bool(tuple_changed(stored, args))))
        } else if name == "cycle"@ {
            Ok(CallOutcomeView::Return(cycle_pick(idx, args)))
        } else {
            Err(
                ErrorView {
                    kind: ErrorKind::UnknownMethod,
                    detail: Some("loop object has no method named "@ + name),
                },
            )
        },
    }
}

/// Whether `r` is what a call of a loop object answers in some state of
/// the loop: at some index, with some tuple stored by `changed`.
pub open spec fn is_loop_call<X>(
    method: Option<Seq<char>>,
    args: Seq<ValueView<X>>,
    r: Result<CallOutcomeView<X>, ErrorView>,
) -> bool {
    exists|idx: usize, stored: Option<Seq<ValueView<X>>>|
        r == #[trigger] loop_call(idx, stored, method, args)
}

impl<X> View for Loop<X> {
    type V = LoopView;

    closed spec fn view(&self) -> LoopView {
        LoopView { len: self.len, depth: self.depth, adjacent_items: self.adjacent_loop_items }
    }
}

impl<X> Loop<X> {
    #[verifier::type_invariant]
    spec fn inv(self) -> bool {
        self.depth < usize::MAX
    }

    /// The state of a loop over `len` items (`None` where the number is not
    /// known up front) inside `depth` enclosing loops. The loop has not
    /// iterated yet: [`Loop::advance`] starts the first iteration. It does
    /// not track adjacent items.
    pub fn new(len: Option<usize>, depth: usize) -> (l: Loop<X>)
        requires
            depth < usize::MAX,
        ensures
            l@ == (LoopView { len, depth, adjacent_items: false }),
    {
        Loop {
            len,
            idx: AtomicUsize::new(usize::MAX),
            depth,
            adjacent_loop_items: false,
            value_triple: RwLock::new((None, None, None), Ghost(Unconstrained)),
            last_changed_value: RwLock::new(None, Ghost(Unconstrained)),
        }
    }

    /// The state of a loop that tracks the items next to the current one
    /// and offers them as `previtem` and `nextitem`. `first` is the item of
    /// the first iteration, `None` where there is nothing to iterate; the
    /// loop has not iterated yet.
    pub fn with_adjacent_items(len: Option<usize>, depth: usize, first: Option<Value<X>>) -> (l:
        Loop<X>)
        requires
            depth < usize::MAX,
        ensures
            l@ == (LoopView { len, depth, adjacent_items: true }),
    {
        Loop {
            len,
            idx: AtomicUsize::new(usize::MAX),
            depth,
            adjacent_loop_items: true,
            value_triple: RwLock::new((None, None, first), Ghost(Unconstrained)),
            last_changed_value: RwLock::new(None, Ghost(Unconstrained)),
        }
    }

    /// The number of items, where it is known up front.
    pub fn len(&self) -> (n: Option<usize>)
        ensures
            n == self@.len,
    {
        self.len
    }

    /// How many loops enclose this one.
    pub fn depth(&self) -> (d: usize)
        ensures
            d == self@.depth,
            d < usize::MAX,
    {
        proof {
            use_type_invariant(self);
        }
        self.depth
    }

    /// Whether the loop tracks the items next to the current one.
    pub fn tracks_adjacent_items(&self) -> (r: bool)
        ensures
            r == self@.adjacent_items,
    {
        self.adjacent_loop_items
    }

    /// Moves on to the next iteration; the first call starts iteration
    /// zero.
    pub fn advance(&self) {
        self.idx.fetch_add(1, Ordering::Relaxed);
    }

    /// The index of the current iteration, `usize::MAX` before the first.
    ///
    /// The counter is shared with the evaluator, which advances it while the
    /// loop body reads it: a read may yield any index. What follows from the
    /// index that was read is for [`Loop::attr_at`], [`Loop::cycle_at`] and
    /// [`Loop::render_at`] to say.
    pub fn current_index(&self) -> usize {
        self.idx.load(Ordering::Relaxed)
    }

    /// One step of the adjacent items: from the items `items` of the
    /// iteration that ends and the item `upcoming` of the iteration after the
    /// one that starts. The items to keep for the iteration that starts come
    /// first in the result, the item of that iteration second: it is the
    /// item that was next.
    pub fn shift_step(items: ItemTriple<X>, upcoming: Option<Value<X>>) -> (r: (
        ItemTriple<X>,
        Option<Value<X>>,
    ))
        ensures
            r.0 == shifted(items, upcoming),
            r.1 == items.2,
    {
        let current = match &items.2 {
            Some(v) => Some(v.clone()),
            None => None,
        };
        ((items.1, items.2, upcoming), current)
    }

    /// Moves the adjacent items on by one iteration: `upcoming` is the item
    /// of the iteration after the one that starts. Returns the item of the
    /// iteration that starts.
    ///
    /// The items live behind a lock, and what the lock holds is not known
    /// from outside: the step from what it held is [`Loop::shift_step`].
    pub fn shift_items(&self, upcoming: Option<Value<X>>) -> (current: Option<Value<X>>) {
        let (items, handle) = self.value_triple.acquire_write();
        let (next, current) = Self::shift_step(items, upcoming);
        handle.release_write(next);
        current
    }

    /// One of the nine attributes that every loop has.
    fn base_attr_at(len: Option<usize>, idx: usize, depth: usize, key: &str) -> (r: Option<
        Value<X>,
    >)
        requires
            depth < usize::MAX,
        ensures
            option_view(r) == loop_attr::<X>(len, idx, depth, key@),
    {
        if idx == usize::MAX {
            Some(Value::undefined())
        } else if str_eq(key, "index0") {
            Some(Value::from_usize(idx))
        } else if str_eq(key, "index") {
            Some(Value::from_usize(idx + 1))
        } else if str_eq(key, "length") {
            Some(
                match len {
                    Some(n) => Value::from_usize(n),
                    None => Value::undefined(),
                },
            )
        } else if str_eq(key, "revindex") {
            Some(
                match len {
                    Some(n) => Value::from_usize(
                        if n >= idx {
                            n - idx
                        } else {
                            0
                        },
                    ),
                    None => Value::undefined(),
                },
            )
        } else if str_eq(key, "revindex0") {
            Some(
                match len {
                    Some(n) => Value::from_usize(
                        if n > idx {
                            n - idx - 1
                        } else {
                            0
                        },
                    ),
                    None => Value::undefined(),
                },
            )
        } else if str_eq(key, "first") {
            Some(Value::from_bool(idx == 0))
        } else if str_eq(key, "last") {
            Some(
                match len {
                    Some(n) => Value::from_bool(n == 0 || idx == n - 1),
                    None => Value::undefined(),
                },
            )
        } else if str_eq(key, "depth") {
            Some(Value::from_usize(depth + 1))
        } else if str_eq(key, "depth0") {
            Some(Value::from_usize(depth))
        } else {
            None
        }
    }

    /// An item next to the current one, undefined where there is none.
    fn item_attr(item: &Option<Value<X>>) -> (r: Value<X>)
        ensures
            r@ == item_or_undefined(option_view(*item)),
    {
        match item {
            Some(v) => v.clone(),
            None => Value::undefined(),
        }
    }

    /// The attribute `key` of a loop of length `len` and nesting depth `depth`
    /// at index `idx`; `items` are the adjacent items of a loop that tracks
    /// them.
    pub fn attr_at(
        len: Option<usize>,
        idx: usize,
        depth: usize,
        items: Option<&ItemTriple<X>>,
        key: &str,
    ) -> (r: Option<Value<X>>)
        requires
            depth < usize::MAX,
        ensures
            option_view(r) == loop_value::<X>(
                len,
                idx,
                depth,
                match items {
                    Some(triple) => Some(triple_view(*triple)),
                    None => None,
                },
                key@,
            ),
    {
        match Self::base_attr_at(len, idx, depth, key) {
            Some(v) => Some(v),
            None => match items {
                Some(triple) => if str_eq(key, "previtem") {
                    Some(Self::item_attr(&triple.0))
                } else if str_eq(key, "nextitem") {
                    Some(Self::item_attr(&triple.2))
                } else {
                    None
                },
                None => None,
            },
        }
    }

    /// The attribute `key` in the current state of the loop. In a loop whose
    /// length is not known, an attribute that needs the length reads as
    /// undefined wherever the loop stands.
    pub fn get(&self, key: &str) -> (r: Option<Value<X>>)
        ensures
            is_loop_value(self@, key@, option_view(r)),
            self@.len is None && needs_length(key@) ==> option_view(r) == Some(
                ValueView::<X>::Undefined,
            ),
    {
        let idx = self.current_index();
        let depth = self.depth();
        proof {
            lemma_attributes_unknown_length::<X>(idx, depth);
        }
        if self.adjacent_loop_items {
            let handle = self.value_triple.acquire_read();
            let items = handle.borrow();
            let r = Self::attr_at(self.len, idx, depth, Some(items), key);
            assert(option_view(r) == loop_value(
                self.len,
                idx,
                depth,
                offered_items(self@.adjacent_items, triple_view(*items)),
                key@,
            ));
            handle.release_read();
            r
        } else {
            let r = Self::attr_at(self.len, idx, depth, None, key);
            let ghost items: ItemViews<X> = (None, None, None);
            assert(option_view(r) == loop_value(
                self.len,
                idx,
                depth,
                offered_items(self@.adjacent_items, items),
                key@,
            ));
            r
        }
    }

    /// The names of the attributes, in the order of [`loop_keys`].
    pub fn keys(&self) -> (names: &'static [&'static str])
        ensures
            static_names(names@) == loop_keys(self@.adjacent_items),
    {
        if self.adjacent_loop_items {
            let names: &'static [&'static str] = &[
                "index0",
                "index",
                "length",
                "revindex",
                "revindex0",
                "first",
                "last",
                "depth",
                "depth0",
                "previtem",
                "nextitem",
            ];
            names
        } else {
            let names: &'static [&'static str] = &[
                "index0",
                "index",
                "length",
                "revindex",
                "revindex0",
                "first",
                "last",
                "depth",
                "depth0",
            ];
            names
        }
    }

    /// A vector of handles to the values of a tuple.
    fn copy_tuple(args: &[Value<X>]) -> (v: Vec<Value<X>>)
        ensures
            v@ == args@,
    {
        let mut v: Vec<Value<X>> = Vec::new();
        let mut i: usize = 0;
        while i < args.len()
            invariant
                i <= args@.len(),
                v@ == args@.subrange(0, i as int),
            decreases args@.len() - i,
        {
            v.push(args[i].clone());
            i += 1;
        }
        v
    }

    /// What `cycle` answers at index `idx`: see [`cycle_pick`].
    pub fn cycle_at(idx: usize, args: &[Value<X>]) -> (r: Value<X>)
        ensures
            r@ == cycle_pick(idx, seq_view(args@)),
    {
        if args.len() == 0 {
            Value::undefined()
        } else {
            args[idx % args.len()].clone()
        }
    }

    /// The string form of a loop of length `len` at index `idx`.
    pub fn render_at(len: Option<usize>, idx: usize) -> (r: String)
        ensures
            r@ == loop_render(len, idx),
    {
        let mut out = "<loop ".to_owned();
        push_decimal(&mut out, idx as u64);
        out.append("/");
        match len {
            Some(n) => push_decimal(&mut out, n as u64),
            None => out.append("?"),
        }
        out.append(">");
        out
    }

    /// The attributes of a loop under their names, in the order of
    /// [`loop_keys`].
    fn fields_at(
        len: Option<usize>,
        idx: usize,
        depth: usize,
        items: Option<&ItemTriple<X>>,
        names: &'static [&'static str],
    ) -> (r: Vec<(&'static str, Value<X>)>)
        requires
            depth < usize::MAX,
            static_names(names@) == loop_keys(items is Some),
        ensures
            loop_fields(
                r@,
                len,
                idx,
                depth,
                match items {
                    Some(triple) => Some(triple_view(*triple)),
                    None => None,
                },
            ),
    {
        let ghost triple: Option<ItemViews<X>> = match items {
            Some(triple) => Some(triple_view(*triple)),
            None => None,
        };
        let ghost keys = loop_keys(items is Some);
        let mut r: Vec<(&'static str, Value<X>)> = Vec::new();
        let mut i: usize = 0;
        while i < names.len()
            invariant
                static_names(names@) == keys,
                keys == loop_keys(items is Some),
                triple == match items {
                    Some(triple) => Some(triple_view(*triple)),
                    None => None,
                },
                depth < usize::MAX,
                i <= names@.len(),
                r@.len() == i,
                forall|j: int|
                    0 <= j < i ==> (#[trigger] r@[j]).0@ == keys[j] && Some(r@[j].1@)
                        == loop_value::<X>(len, idx, depth, triple, keys[j]),
            decreases names@.len() - i,
        {
            let name = names[i];
            proof {
                lemma_keys_are_attributes::<X>(len, idx, depth, triple, i as int);
            }
            match Self::attr_at(len, idx, depth, items, name) {
                Some(value) => r.push((name, value)),
                None => {},
            }
            i += 1;
        }
        r
    }

    /// The attributes of the loop under their names, in the order of
    /// [`loop_keys`], all read in one state of the loop.
    pub fn fields(&self) -> (r: Vec<(&'static str, Value<X>)>)
        ensures
            exists|idx: usize, items: ItemViews<X>|
                #[trigger] loop_fields(
                    r@,
                    self@.len,
                    idx,
                    self@.depth,
                    offered_items(self@.adjacent_items, items),
                ),
    {
        let idx = self.current_index();
        let depth = self.depth();
        let names = self.keys();
        if self.adjacent_loop_items {
            let handle = self.value_triple.acquire_read();
            let items = handle.borrow();
            let r = Self::fields_at(self.len, idx, depth, Some(items), names);
            assert(loop_fields(
                r@,
                self.len,
                idx,
                depth,
                offered_items(self@.adjacent_items, triple_view(*items)),
            ));
            handle.release_read();
            r
        } else {
            let r = Self::fields_at(self.len, idx, depth, None, names);
            let ghost items: ItemViews<X> = (None, None, None);
            assert(loop_fields(
                r@,
                self.len,
                idx,
                depth,
                offered_items(self@.adjacent_items, items),
            ));
            r
        }
    }
}

impl<X: ObjectEq> Loop<X> {
    /// Whether two tuples are equal: they are as long as one another, and
    /// their items are equal one by one.
    fn tuples_equal(a: &[Value<X>], b: &[Value<X>]) -> (r: bool)
        ensures
            r == (seq_view(a@) == seq_view(b@)),
    {
        let ghost x = seq_view(a@);
        let ghost y = seq_view(b@);
        if a.len() != b.len() {
            assert(x.len() != y.len());
            return false;
        }
        let mut i: usize = 0;
        while i < a.len()
            invariant
                x == seq_view(a@),
                y == seq_view(b@),
                a@.len() == b@.len(),
                i <= a@.len(),
                forall|j: int| 0 <= j < i ==> (#[trigger] x[j]) == y[j],
            decreases a@.len() - i,
        {
            if !a[i].equals(&b[i]) {
                assert(x[i as int] != y[i as int]);
                return false;
            }
            i += 1;
        }
        assert(x =~= y);
        true
    }

    /// One step of `changed`: compares `args` with the tuple `stored` by the
    /// last step and answers whether it differs. The tuple to store for the
    /// next step comes first in the result; it is always `args`.
    pub fn changed_step(stored: Option<Vec<Value<X>>>, args: &[Value<X>]) -> (r: (
        Option<Vec<Value<X>>>,
        bool,
    ))
        ensures
            r.1 == tuple_changed(tuple_view(stored), seq_view(args@)),
            tuple_view(r.0) == Some(seq_view(args@)),
            r.1 ==> (r.0 matches Some(v) && v@ == args@),
            !r.1 ==> r.0 == stored,
    {
        let same = match &stored {
            Some(s) => Self::tuples_equal(s.as_slice(), args),
            None => false,
        };
        if same {
            (stored, false)
        } else {
            (Some(Self::copy_tuple(args)), true)
        }
    }
}

impl<X: ObjectEq> Object<X> for Loop<X> {
    /// A loop object behaves like a map from attribute names to values.
    fn repr(&self) -> (r: ObjectRepr)
        ensures
            r == ObjectRepr::Mapping,
    {
        ObjectRepr::Mapping
    }

    /// The attribute that a string key names, in the current state of the
    /// loop; nothing for a key that is no string.
    fn get_value(&self, key: &Value<X>) -> (r: Option<Value<X>>)
        ensures
            match key@ {
                ValueView::Str(name, _) => is_loop_value(self@, name, option_view(r)),
                _ => r is None,
            },
    {
        match key.as_str() {
            Some(name) => self.get(name),
            None => None,
        }
    }

    /// The attribute names of [`loop_keys`].
    fn enumeration(&self) -> (r: Enumeration<X>)
        ensures
            (r matches Enumeration::Static(names) && static_names(names@) == loop_keys(
                self@.adjacent_items,
            )),
    {
        Enumeration::Static(self.keys())
    }

    /// Calls a method of the loop: `changed` or `cycle`.
    fn call(&self, state: &State, method: Option<&str>, args: &[Value<X>]) -> (r: Result<
        CallOutcome<X>,
        Error,
    >)
        ensures
            is_loop_call(method_view(method), seq_view(args@), call_view(r)),
    {
        let ghost views = seq_view(args@);
        let name = match method {
            Some(name) => name,
            None => {
                let r = Err(
                    Error::new(
                        ErrorKind::InvalidOperation,
                        "loop cannot be called if reassigned to different variable".to_owned(),
                    ),
                );
                assert(call_view(r) == loop_call(0, None, method_view(method), views));
                return r;
            },
        };
        if str_eq(name, "changed") {
            let (stored, handle) = self.last_changed_value.acquire_write();
            let (next, changed) = Self::changed_step(stored, args);
            handle.release_write(next);
            let r = Ok(CallOutcome::Return(Value::from_bool(changed)));
            assert(call_view(r) == loop_call(0, tuple_view(stored), method_view(method), views));
            r
        } else if str_eq(name, "cycle") {
            let idx = self.current_index();
            let r = Ok(CallOutcome::Return(Self::cycle_at(idx, args)));
            assert(call_view(r) == loop_call(idx, None, method_view(method), views));
            r
        } else {
            let mut detail = "loop object has no method named ".to_owned();
            detail.append(name);
            let r = Err(Error::new(ErrorKind::UnknownMethod, detail));
            assert(call_view(r) == loop_call(0, None, method_view(method), views));
            r
        }
    }

    /// The string form `<loop I/N>`: the current index and the length, `?`
    /// for a length that is not known.
    fn render(&self) -> (r: String)
        ensures
            exists|idx: usize| r@ == #[trigger] loop_render(self@.len, idx),
    {
        let idx = self.current_index();
        Self::render_at(self.len, idx)
    }
}

/// Every name of [`loop_keys`] is an attribute of the loop.
pub proof fn lemma_keys_are_attributes<X>(
    len: Option<usize>,
    idx: usize,
    depth: usize,
    items: Option<ItemViews<X>>,
    i: int,
)
    requires
        0 <= i < loop_keys(items is Some).len(),
    ensures
        loop_value::<X>(len, idx, depth, items, loop_keys(items is Some)[i]) is Some,
{
}

/// The names of the loop attributes differ from one another.
proof fn lemma_keys_differ()
    ensures
        forall|i: int, j: int|
            0 <= i < j < loop_keys(true).len() ==> #[trigger] loop_keys(true)[i]
                != #[trigger] loop_keys(true)[j],
{
    reveal_strlit("index0");
    reveal_strlit("index");
    reveal_strlit("length");
    reveal_strlit("revindex");
    reveal_strlit("revindex0");
    reveal_strlit("first");
    reveal_strlit("last");
    reveal_strlit("depth");
    reveal_strlit("depth0");
    reveal_strlit("previtem");
    reveal_strlit("nextitem");
    let keys = loop_keys(true);
    assert(keys[0].len() == 6 && keys[1].len() == 5 && keys[2].len() == 6 && keys[3].len() == 8
        && keys[4].len() == 9 && keys[5].len() == 5 && keys[6].len() == 4 && keys[7].len() == 5
        && keys[8].len() == 6 && keys[9].len() == 8 && keys[10].len() == 8);
    assert(keys[0][0] == 'i' && keys[2][0] == 'l' && keys[8][0] == 'd');
    assert(keys[1][0] == 'i' && keys[5][0] == 'f' && keys[7][0] == 'd');
    assert(keys[3][0] == 'r' && keys[9][0] == 'p' && keys[10][0] == 'n');
}

/// The eleven names, one by one.
proof fn lemma_keys_by_place()
    ensures
        loop_keys(true)[0] == "index0"@,
        loop_keys(true)[1] == "index"@,
        loop_keys(true)[2] == "length"@,
        loop_keys(true)[3] == "revindex"@,
        loop_keys(true)[4] == "revindex0"@,
        loop_keys(true)[5] == "first"@,
        loop_keys(true)[6] == "last"@,
        loop_keys(true)[7] == "depth"@,
        loop_keys(true)[8] == "depth0"@,
        loop_keys(true)[9] == "previtem"@,
        loop_keys(true)[10] == "nextitem"@,
{
}

/// In a loop over `len` items, at the index `idx` of one of them, the
/// attributes are: `index0` the index, `index` one more, `length` the
/// length, `revindex` the number of items from this one on, `revindex0` one
/// less, `first` and `last` whether the item is the first or the last,
/// `depth0` the nesting depth and `depth` one more.
pub proof fn lemma_attributes_known_length<X>(len: usize, idx: usize, depth: usize)
    requires
        idx < len,
    ensures
        loop_attr::<X>(Some(len), idx, depth, "index0"@) == Some(ValueView::<X>::Int(idx as int)),
        loop_attr::<X>(Some(len), idx, depth, "index"@) == Some(ValueView::<X>::Int(idx + 1)),
        loop_attr::<X>(Some(len), idx, depth, "length"@) == Some(ValueView::<X>::Int(len as int)),
        loop_attr::<X>(Some(len), idx, depth, "revindex"@) == Some(ValueView::<X>::Int(len - idx)),
        loop_attr::<X>(Some(len), idx, depth, "revindex0"@) == Some(
            ValueView::<X>::Int(len - idx - 1),
        ),
        loop_attr::<X>(Some(len), idx, depth, "first"@) == Some(ValueView::<X>::Bool(idx == 0)),
        loop_attr::<X>(Some(len), idx, depth, "last"@) == Some(
            ValueView::<X>::Bool(idx == len - 1),
        ),
        loop_attr::<X>(Some(len), idx, depth, "depth"@) == Some(ValueView::<X>::Int(depth + 1)),
        loop_attr::<X>(Some(len), idx, depth, "depth0"@) == Some(
            ValueView::<X>::Int(depth as int),
        ),
{
    lemma_keys_differ();
    lemma_keys_by_place();
}

/// In a loop whose length is not known, `length`, `revindex`, `revindex0`
/// and `last` read as undefined at every index.
pub proof fn lemma_attributes_unknown_length<X>(idx: usize, depth: usize)
    ensures
        forall|key: Seq<char>| #[trigger]
            needs_length(key) ==> loop_attr::<X>(None, idx, depth, key) == Some(
                ValueView::<X>::Undefined,
            ),
{
    lemma_keys_differ();
    lemma_keys_by_place();
}

/// Before the first iteration every name reads as undefined.
pub proof fn lemma_attributes_before_first_iteration<X>(
    len: Option<usize>,
    depth: usize,
    items: Option<ItemViews<X>>,
    key: Seq<char>,
)
    ensures
        loop_value::<X>(len, usize::MAX, depth, items, key) == Some(ValueView::<X>::Undefined),
{
}

/// In a running loop that tracks adjacent items, `previtem` is the item
/// before the current one and `nextitem` the item after it, undefined where
/// there is none.
pub proof fn lemma_adjacent_attributes<X>(
    len: Option<usize>,
    idx: usize,
    depth: usize,
    items: ItemViews<X>,
)
    requires
        idx != usize::MAX,
    ensures
        loop_value::<X>(len, idx, depth, Some(items), "previtem"@) == Some(
            item_or_undefined(items.0),
        ),
        loop_value::<X>(len, idx, depth, Some(items), "nextitem"@) == Some(
            item_or_undefined(items.2),
        ),
        loop_value::<X>(len, idx, depth, None, "previtem"@) is None,
        loop_value::<X>(len, idx, depth, None, "nextitem"@) is None,
{
    lemma_keys_differ();
    lemma_keys_by_place();
}

/// How `changed` answers over consecutive calls. With nothing stored, as
/// before the first call, every tuple counts as changed. A call stores its
/// tuple; against the stored tuple `x`, the same tuple `x` counts as
/// unchanged and any other tuple `y` as changed.
pub proof fn lemma_changed<X>(x: Seq<ValueView<X>>, y: Seq<ValueView<X>>)
    ensures
        tuple_changed(None, x),
        !tuple_changed(Some(x), x),
        x != y ==> tuple_changed(Some(x), y),
{
}

} // verus!
