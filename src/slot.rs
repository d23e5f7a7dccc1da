use crate::handle::{share, TaggedArc};
use crate::ordering::{exchange_orderings_ok, load_ordering_ok, store_ordering_ok};
use arc_swap::{ArcSwapAny, ArcSwapOption};
use std::sync::atomic::Ordering;
use std::sync::Arc;
use vstd::prelude::*;

verus! {

/// The `arc_swap` cell that a non-empty slot keeps its handle in. Its
/// strategy type is private to that crate, so the cell is held here as an
/// opaque field.
#[verifier::external_body]
#[verifier::reject_recursive_types(T)]
struct HandleCell<T> {
    inner: ArcSwapAny<Arc<TaggedArc<T>>>,
}

/// Relies on `ArcSwapAny::new`: a cell that holds `val` and its reference.
#[verifier::external_body]
fn cell_new<T>(val: Arc<TaggedArc<T>>) -> HandleCell<T> {
    HandleCell { inner: ArcSwapAny::new(val) }
}

/// Relies on `ArcSwapAny::load_full`: a new reference to the value that the
/// cell held at one instant; the cell keeps its own.
#[verifier::external_body]
fn cell_load<T>(cell: &HandleCell<T>) -> Arc<TaggedArc<T>> {
    cell.inner.load_full()
}

/// Relies on `ArcSwapAny::swap`: puts `val` in and hands back the value it
/// replaced, in one atomic step.
#[verifier::external_body]
fn cell_swap<T>(cell: &HandleCell<T>, val: Arc<TaggedArc<T>>) -> Arc<TaggedArc<T>> {
    cell.inner.swap(val)
}

/// Relies on `ArcSwapAny::rcu`: applies `exchange_entry` to the value held
/// and puts its result in, retrying with the value found until no other
/// thread changed the cell in between; hands back the value that the result
/// replaced, which is the one `exchange_entry` was last applied to.
#[verifier::external_body]
fn cell_exchange<T>(cell: &HandleCell<T>, expected: usize, entry: &Arc<TaggedArc<T>>) -> Arc<
    TaggedArc<T>,
> {
    cell.inner.rcu(|node| exchange_entry(node, expected, entry))
}

/// Relies on `ArcSwapAny::rcu`: applies `update_entry` with `f` to the value
/// held and puts its result in, retrying with the value found until no
/// other thread changed the cell in between; hands back the value that the
/// result replaced, which is the one `update_entry` was last applied to.
#[verifier::external_body]
fn cell_update<T, F>(cell: &HandleCell<T>, f: &F) -> Arc<TaggedArc<T>> where
    F: Fn(&TaggedArc<T>) -> Option<TaggedArc<T>>,

    requires
        forall|h: &TaggedArc<T>| #[trigger] f.requires((h,)),
{
    cell.inner.rcu(|node| update_entry(node, f))
}

/// The `arc_swap` cell that a slot that may be empty keeps its handle in,
/// held as an opaque field for the same reason.
#[verifier::external_body]
#[verifier::reject_recursive_types(T)]
struct OptionCell<T> {
    inner: ArcSwapOption<TaggedArc<T>>,
}

/// Relies on `ArcSwapAny::new`: a cell that holds `val` and its reference,
/// or nothing.
#[verifier::external_body]
fn option_cell_new<T>(val: Option<Arc<TaggedArc<T>>>) -> OptionCell<T> {
    OptionCell { inner: ArcSwapOption::new(val) }
}

/// Relies on `ArcSwapAny::load_full`: a new reference to the value that the
/// cell held at one instant, or nothing where it was empty.
#[verifier::external_body]
fn option_cell_load<T>(cell: &OptionCell<T>) -> Option<Arc<TaggedArc<T>>> {
    cell.inner.load_full()
}

/// Relies on `ArcSwapAny::swap`: puts `val` in and hands back the value it
/// replaced, in one atomic step.
#[verifier::external_body]
fn option_cell_swap<T>(cell: &OptionCell<T>, val: Option<Arc<TaggedArc<T>>>) -> Option<
    Arc<TaggedArc<T>>,
> {
    cell.inner.swap(val)
}

/// Relies on `ArcSwapAny::rcu`: applies `option_exchange_entry` to the value
/// held and puts its result in, retrying with the value found until no
/// other thread changed the cell in between; hands back the value that the
/// result replaced, which is the one `option_exchange_entry` was last
/// applied to.
#[verifier::external_body]
fn option_cell_exchange<T>(
    cell: &OptionCell<T>,
    expected: usize,
    entry: &Option<Arc<TaggedArc<T>>>,
) -> Option<Arc<TaggedArc<T>>> {
    cell.inner.rcu(|held| option_exchange_entry(held, expected, entry))
}

/// Relies on `ArcSwapAny::rcu`: applies `option_update_entry` with `f` to
/// the value held and puts its result in, retrying with the value found
/// until no other thread changed the cell in between; hands back the value
/// that the result replaced, which is the one `option_update_entry` was
/// last applied to.
#[verifier::external_body]
fn option_cell_update<T, F>(cell: &OptionCell<T>, f: &F) -> Option<Arc<TaggedArc<T>>> where
    F: Fn(&Option<TaggedArc<T>>) -> Option<Option<TaggedArc<T>>>,

    requires
        forall|h: &Option<TaggedArc<T>>| #[trigger] f.requires((h,)),
{
    cell.inner.rcu(|held| option_update_entry(held, f))
}

/// A handle of its own for the handle that a cell entry holds.
fn handle_of<T>(node: &Arc<TaggedArc<T>>) -> (r: TaggedArc<T>)
    ensures
        r.word() == node.word(),
{
    let h: &TaggedArc<T> = node;
    h.clone()
}

/// A handle of its own for what a cell entry holds.
fn option_handle_of<T>(entry: &Option<Arc<TaggedArc<T>>>) -> (r: Option<TaggedArc<T>>)
    ensures
        option_word(r) == entry_word(*entry),
{
    match entry {
        Some(node) => Some(handle_of(node)),
        None => None,
    }
}

/// The word of a handle that may be absent: zero stands for no handle.
pub open spec fn option_word<T>(h: Option<TaggedArc<T>>) -> usize {
    match h {
        Some(h) => h.word(),
        None => 0,
    }
}

/// The word of a cell entry that may be empty: zero stands for no entry.
pub open spec fn entry_word<T>(e: Option<Arc<TaggedArc<T>>>) -> usize {
    match e {
        Some(node) => node.word(),
        None => 0,
    }
}

/// The word of a handle that may be absent, which keeps its reference.
fn option_as_usize<T>(h: &Option<TaggedArc<T>>) -> (r: usize)
    ensures
        r == option_word(*h),
{
    match h {
        Some(h) => h.as_usize(),
        None => 0,
    }
}

/// The entry that an exchange puts in a cell that holds `node`: `entry`
/// where the word held is `expected`, else `node` itself, which leaves the
/// cell as it was.
pub fn exchange_entry<T>(node: &Arc<TaggedArc<T>>, expected: usize, entry: &Arc<TaggedArc<T>>) -> (r:
    Arc<TaggedArc<T>>)
    ensures
        node.word() == expected ==> r == *entry,
        node.word() != expected ==> r == *node,
{
    if node.as_usize() == expected {
        share(entry)
    } else {
        share(node)
    }
}

/// The outcome of an exchange that replaced `prev`: `Ok` where the word of
/// `prev` is `expected`, so the new entry went in, else `Err`; either way
/// with a handle of the word of `prev`.
pub fn exchange_outcome<T>(prev: &Arc<TaggedArc<T>>, expected: usize) -> (r: Result<
    TaggedArc<T>,
    TaggedArc<T>,
>)
    ensures
        r is Ok <==> prev.word() == expected,
        r matches Ok(h) ==> h.word() == prev.word(),
        r matches Err(h) ==> h.word() == prev.word(),
{
    let h = handle_of(prev);
    if h.as_usize() == expected {
        Ok(h)
    } else {
        Err(h)
    }
}

/// The entry that an update puts in a cell that holds `node`: a new entry
/// for the handle `f` returns, or `node` itself where `f` returns `None`,
/// which leaves the cell as it was.
pub fn update_entry<T, F>(node: &Arc<TaggedArc<T>>, f: &F) -> (r: Arc<TaggedArc<T>>) where
    F: Fn(&TaggedArc<T>) -> Option<TaggedArc<T>>,

    requires
        forall|h: &TaggedArc<T>| #[trigger] f.requires((h,)),
    ensures
        r == *node || exists|seen: TaggedArc<T>, next: Option<TaggedArc<T>>|
            seen.word() == node.word() && #[trigger] f.ensures((&seen,), next) && next
                == Some(*r),
{
    let h = handle_of(node);
    match f(&h) {
        Some(n) => Arc::new(n),
        None => share(node),
    }
}

/// The entry that an exchange puts in a cell that holds `held`: `entry`
/// where the word held is `expected`, else `held` itself, which leaves the
/// cell as it was.
pub fn option_exchange_entry<T>(
    held: &Option<Arc<TaggedArc<T>>>,
    expected: usize,
    entry: &Option<Arc<TaggedArc<T>>>,
) -> (r: Option<Arc<TaggedArc<T>>>)
    ensures
        entry_word(*held) == expected ==> r == *entry,
        entry_word(*held) != expected ==> r == *held,
{
    let source = if option_as_usize(&option_handle_of(held)) == expected {
        entry
    } else {
        held
    };
    match source {
        Some(node) => Some(share(node)),
        None => None,
    }
}

/// The outcome of an exchange that replaced `prev`: `Ok` where the word of
/// `prev` is `expected`, so the new entry went in, else `Err`; either way
/// with a handle of the word of `prev`, or none where it was empty.
pub fn option_exchange_outcome<T>(prev: &Option<Arc<TaggedArc<T>>>, expected: usize) -> (r:
    Result<Option<TaggedArc<T>>, Option<TaggedArc<T>>>)
    ensures
        r is Ok <==> entry_word(*prev) == expected,
        r matches Ok(h) ==> option_word(h) == entry_word(*prev),
        r matches Err(h) ==> option_word(h) == entry_word(*prev),
{
    let h = option_handle_of(prev);
    if option_as_usize(&h) == expected {
        Ok(h)
    } else {
        Err(h)
    }
}

/// The entry that an update puts in a cell that holds `held`: the entry for
/// the value `f` returns, or `held` itself where `f` returns `None`, which
/// leaves the cell as it was.
pub fn option_update_entry<T, F>(held: &Option<Arc<TaggedArc<T>>>, f: &F) -> (r: Option<
    Arc<TaggedArc<T>>,
>) where F: Fn(&Option<TaggedArc<T>>) -> Option<Option<TaggedArc<T>>>
    requires
        forall|h: &Option<TaggedArc<T>>| #[trigger] f.requires((h,)),
    ensures
        r == *held || exists|seen: Option<TaggedArc<T>>, next: Option<Option<TaggedArc<T>>>|
            option_word(seen) == entry_word(*held) && #[trigger] f.ensures((&seen,), next)
                && next is Some && entry_word(r) == option_word(next->Some_0),
{
    let h = option_handle_of(held);
    match f(&h) {
        Some(n) => {
            let r = entry_of(n);
            r
        },
        None => match held {
            Some(node) => Some(share(node)),
            None => None,
        },
    }
}

/// The operations of a lock-free slot that owns the handle it holds.
///
/// The slot owns one strong reference to what it holds. Every operation
/// that moves a handle in takes over the handle's reference, and every one
/// that moves a handle out hands its reference to the caller. Slots are
/// compared by word: the address of the pointee together with the tag.
pub trait Atomic: Sized {
    /// What a slot holds and hands out.
    type Elem;

    /// The word of an element: address and tag, or zero for none.
    spec fn word_of(e: Self::Elem) -> usize;

    /// Loads a value from the slot: a new handle whose count went up by one;
    /// the slot keeps its own reference. `order` must not be `Release` or
    /// `AcqRel`.
    fn load(&self, order: Ordering) -> (r: Self::Elem)
        requires
            load_ordering_ok(order),
    ;

    /// Stores `val` in the slot, which takes over its reference, and
    /// releases what the slot held. `order` must not be `Acquire` or
    /// `AcqRel`.
    fn store(&self, val: Self::Elem, order: Ordering)
        requires
            store_ordering_ok(order),
    ;

    /// Stores `val` in the slot and hands what it held to the caller, in one
    /// atomic step. Every ordering is accepted.
    fn swap(&self, val: Self::Elem, order: Ordering) -> (r: Self::Elem);

    /// Stores `new` where the word held is that of `current`. The tag takes
    /// part in the comparison. On success hands back what was replaced, of
    /// the same word as `current`; on failure what was found, of another
    /// word, and `new` is released. The failure ordering must be one that a
    /// load accepts.
    fn compare_exchange(
        &self,
        current: Self::Elem,
        new: Self::Elem,
        success: Ordering,
        failure: Ordering,
    ) -> (r: Result<Self::Elem, Self::Elem>)
        requires
            exchange_orderings_ok(success, failure),
        ensures
            r matches Ok(prev) ==> Self::word_of(prev) == Self::word_of(current),
            r matches Err(actual) ==> Self::word_of(actual) != Self::word_of(current),
    ;

    /// As `compare_exchange`. A weak exchange may fail even where the words
    /// match; these slots never do, so it gives the same outcomes.
    fn compare_exchange_weak(
        &self,
        current: Self::Elem,
        new: Self::Elem,
        success: Ordering,
        failure: Ordering,
    ) -> (r: Result<Self::Elem, Self::Elem>)
        requires
            exchange_orderings_ok(success, failure),
        ensures
            r matches Ok(prev) ==> Self::word_of(prev) == Self::word_of(current),
            r matches Err(actual) ==> Self::word_of(actual) != Self::word_of(current),
    ;
}

/// A slot that always holds one tagged reference to a `T`.
///
/// The underlying operations are sequentially consistent, which meets every
/// ordering that the methods accept.
#[verifier::reject_recursive_types(T)]
pub struct AtomicArc<T> {
    cell: HandleCell<T>,
}

impl<T> AtomicArc<T> {
    /// A slot that holds `val`, freshly allocated, with tag zero.
    pub fn new(val: T) -> (r: Self) {
        Self::from_tagged(TaggedArc::new(val))
    }

    /// A slot that takes over the reference of `val`, with tag zero.
    pub fn from_arc(val: Arc<T>) -> (r: Self) {
        Self::from_tagged(TaggedArc::from_arc(val))
    }

    /// A slot that takes over the handle `tagged`.
    pub fn from_tagged(tagged: TaggedArc<T>) -> (r: Self) {
        AtomicArc { cell: cell_new(Arc::new(tagged)) }
    }

    /// Loads a value from the slot: a new handle whose count went up by one;
    /// the slot keeps its own reference. `order` must not be `Release` or
    /// `AcqRel`.
    pub fn load(&self, order: Ordering) -> (r: TaggedArc<T>)
        requires
            load_ordering_ok(order),
    {
        let node = cell_load(&self.cell);
        handle_of(&node)
    }

    /// Stores `val` in the slot, which takes over its reference, and
    /// releases the handle held before. `order` must not be `Acquire` or
    /// `AcqRel`.
    pub fn store(&self, val: TaggedArc<T>, order: Ordering)
        requires
            store_ordering_ok(order),
    {
        let _old = cell_swap(&self.cell, Arc::new(val));
    }

    /// Stores `val` in the slot and hands the handle held before to the
    /// caller, in one atomic step. Every ordering is accepted.
    pub fn swap(&self, val: TaggedArc<T>, order: Ordering) -> (r: TaggedArc<T>) {
        let old = cell_swap(&self.cell, Arc::new(val));
        handle_of(&old)
    }

    /// Stores `new` where the handle held has the word of `current`, tag
    /// included. On success hands back the handle replaced; on failure the
    /// handle found, of another word, and `new` is released.
    pub fn compare_exchange(
        &self,
        current: TaggedArc<T>,
        new: TaggedArc<T>,
        success: Ordering,
        failure: Ordering,
    ) -> (r: Result<TaggedArc<T>, TaggedArc<T>>)
        requires
            exchange_orderings_ok(success, failure),
        ensures
            r matches Ok(prev) ==> prev.word() == current.word(),
            r matches Err(actual) ==> actual.word() != current.word(),
    {
        let expected = current.as_usize();
        let entry = Arc::new(new);
        let prev = cell_exchange(&self.cell, expected, &entry);
        exchange_outcome(&prev, expected)
    }

    /// As `compare_exchange`. A weak exchange may fail even where the words
    /// match; this slot never does, so it gives the same outcomes.
    pub fn compare_exchange_weak(
        &self,
        current: TaggedArc<T>,
        new: TaggedArc<T>,
        success: Ordering,
        failure: Ordering,
    ) -> (r: Result<TaggedArc<T>, TaggedArc<T>>)
        requires
            exchange_orderings_ok(success, failure),
        ensures
            r matches Ok(prev) ==> prev.word() == current.word(),
            r matches Err(actual) ==> actual.word() != current.word(),
    {
        self.compare_exchange(current, new, success, failure)
    }

    /// Fetches the value held and applies `f` to it, which returns the new
    /// value or `None`, and puts the new value in. Retries with the value
    /// found while the slot changes in between, so `f` may run several
    /// times; it runs once more on the value handed back, to tell which way
    /// it went, and should decide from the value alone. Hands back `Ok` with
    /// what was replaced, on which `f` returns a new value, or `Err` with the
    /// value held, on which `f` returns `None`.
    pub fn fetch_update<F>(&self, set_order: Ordering, fetch_order: Ordering, f: F) -> (r: Result<
        TaggedArc<T>,
        TaggedArc<T>,
    >) where F: Fn(&TaggedArc<T>) -> Option<TaggedArc<T>>
        requires
            exchange_orderings_ok(set_order, fetch_order),
            forall|e: &TaggedArc<T>| #[trigger] f.requires((e,)),
        ensures
            r matches Ok(prev) ==> exists|next: Option<TaggedArc<T>>|
                #[trigger] f.ensures((&prev,), next) && next is Some,
            r matches Err(cur) ==> f.ensures((&cur,), None),
    {
        let prev = cell_update(&self.cell, &f);
        let h = handle_of(&prev);
        let decision = f(&h);
        if decision.is_some() {
            let r = Ok(h);
            assert(r matches Ok(prev) ==> f.ensures((&prev,), decision) && decision is Some);
            r
        } else {
            Err(h)
        }
    }
}

impl<T> Atomic for AtomicArc<T> {
    type Elem = TaggedArc<T>;

    open spec fn word_of(e: TaggedArc<T>) -> usize {
        e.word()
    }

    fn load(&self, order: Ordering) -> (r: TaggedArc<T>) {
        AtomicArc::load(self, order)
    }

    fn store(&self, val: TaggedArc<T>, order: Ordering) {
        AtomicArc::store(self, val, order)
    }

    fn swap(&self, val: TaggedArc<T>, order: Ordering) -> (r: TaggedArc<T>) {
        AtomicArc::swap(self, val, order)
    }

    fn compare_exchange(
        &self,
        current: TaggedArc<T>,
        new: TaggedArc<T>,
        success: Ordering,
        failure: Ordering,
    ) -> (r: Result<TaggedArc<T>, TaggedArc<T>>) {
        AtomicArc::compare_exchange(self, current, new, success, failure)
    }

    fn compare_exchange_weak(
        &self,
        current: TaggedArc<T>,
        new: TaggedArc<T>,
        success: Ordering,
        failure: Ordering,
    ) -> (r: Result<TaggedArc<T>, TaggedArc<T>>) {
        AtomicArc::compare_exchange_weak(self, current, new, success, failure)
    }
}

/// A slot that holds one tagged reference to a `T`, or nothing.
///
/// The empty slot has the word zero, which no handle has, and owns no
/// reference. The underlying operations are sequentially consistent, which
/// meets every ordering that the methods accept.
#[verifier::reject_recursive_types(T)]
pub struct AtomicOptionArc<T> {
    cell: OptionCell<T>,
}

impl<T> AtomicOptionArc<T> {
    /// A slot that takes over `val`, or an empty slot.
    pub fn new(val: Option<TaggedArc<T>>) -> (r: Self) {
        AtomicOptionArc { cell: option_cell_new(entry_of(val)) }
    }

    /// An empty slot.
    pub fn empty() -> (r: Self) {
        Self::new(None)
    }

    /// Fetches the value held and applies `f` to it, which returns the new
    /// value or `None`, and puts the new value in. Retries with the value
    /// found while the slot changes in between, so `f` may run several
    /// times; it runs once more on the value handed back, to tell which way
    /// it went, and should decide from the value alone. Hands back `Ok` with
    /// what was replaced, on which `f` returns a new value, or `Err` with the
    /// value held, on which `f` returns `None`.
    pub fn fetch_update<F>(&self, set_order: Ordering, fetch_order: Ordering, f: F) -> (r: Result<
        Option<TaggedArc<T>>,
        Option<TaggedArc<T>>,
    >) where F: Fn(&Option<TaggedArc<T>>) -> Option<Option<TaggedArc<T>>>
        requires
            exchange_orderings_ok(set_order, fetch_order),
            forall|e: &Option<TaggedArc<T>>| #[trigger] f.requires((e,)),
        ensures
            r matches Ok(prev) ==> exists|next: Option<Option<TaggedArc<T>>>|
                #[trigger] f.ensures((&prev,), next) && next is Some,
            r matches Err(cur) ==> f.ensures((&cur,), None),
    {
        let prev = option_cell_update(&self.cell, &f);
        let h = option_handle_of(&prev);
        let decision = f(&h);
        match decision {
            Some(n) => {
                assert(f.ensures((&h,), Some(n)));
                Ok(h)
            },
            None => Err(h),
        }
    }
}

/// The cell entry that holds `val`.
fn entry_of<T>(val: Option<TaggedArc<T>>) -> (r: Option<Arc<TaggedArc<T>>>)
    ensures
        entry_word(r) == option_word(val),
{
    match val {
        Some(h) => Some(Arc::new(h)),
        None => None,
    }
}

impl<T> Atomic for AtomicOptionArc<T> {
    type Elem = Option<TaggedArc<T>>;

    open spec fn word_of(e: Option<TaggedArc<T>>) -> usize {
        option_word(e)
    }

    fn load(&self, order: Ordering) -> (r: Option<TaggedArc<T>>) {
        let entry = option_cell_load(&self.cell);
        option_handle_of(&entry)
    }

    fn store(&self, val: Option<TaggedArc<T>>, order: Ordering) {
        let _old = option_cell_swap(&self.cell, entry_of(val));
    }

    fn swap(&self, val: Option<TaggedArc<T>>, order: Ordering) -> (r: Option<TaggedArc<T>>) {
        let old = option_cell_swap(&self.cell, entry_of(val));
        option_handle_of(&old)
    }

    fn compare_exchange(
        &self,
        current: Option<TaggedArc<T>>,
        new: Option<TaggedArc<T>>,
        success: Ordering,
        failure: Ordering,
    ) -> (r: Result<Option<TaggedArc<T>>, Option<TaggedArc<T>>>) {
        let expected = option_as_usize(&current);
        let entry = entry_of(new);
        let prev = option_cell_exchange(&self.cell, expected, &entry);
        option_exchange_outcome(&prev, expected)
    }

    fn compare_exchange_weak(
        &self,
        current: Option<TaggedArc<T>>,
        new: Option<TaggedArc<T>>,
        success: Ordering,
        failure: Ordering,
    ) -> (r: Result<Option<TaggedArc<T>>, Option<TaggedArc<T>>>) {
        self.compare_exchange(current, new, success, failure)
    }
}

} // verus!
