//! An ordered collection in which at most one item is focused.

use vstd::prelude::*;

verus! {

/// What a [`Stack`] holds: its items in order, and the position of the
/// focused one.
pub struct StackView<T> {
    pub items: Seq<T>,
    pub current: Option<int>,
}

impl<T> StackView<T> {
    /// The focus names an item, and only an empty stack has none.
    pub open spec fn wf(self) -> bool {
        match self.current {
            Some(c) => 0 <= c < self.items.len(),
            None => self.items.len() == 0,
        }
    }

    pub open spec fn empty() -> Self {
        StackView { items: Seq::empty(), current: None }
    }

    /// The given items, with the first one focused.
    pub open spec fn from_seq(items: Seq<T>) -> Self {
        StackView { items, current: if items.len() == 0 { None } else { Some(0int) } }
    }

    /// The focused item.
    pub open spec fn focused(self) -> Option<T> {
        match self.current {
            Some(c) => Some(self.items[c]),
            None => None,
        }
    }

    /// `item` takes the focused position (the front of an empty stack) and the focus.
    pub open spec fn add(self, item: T) -> Self {
        let at = match self.current {
            Some(c) => c,
            None => 0,
        };
        StackView { items: self.items.insert(at, item), current: Some(at) }
    }

    /// The focus moves to `index` if there is such a position.
    pub open spec fn set_current(self, index: int) -> Self {
        if 0 <= index < self.items.len() {
            StackView { items: self.items, current: Some(index) }
        } else {
            self
        }
    }

    /// The item at `k` leaves. The focus keeps its position, or moves to the
    /// last item if its position is gone.
    pub open spec fn remove_at(self, k: int) -> Self {
        let items = self.items.remove(k);
        let current = match self.current {
            Some(c) => if items.len() == 0 {
                None
            } else if c >= items.len() {
                Some(items.len() - 1)
            } else {
                Some(c)
            },
            None => None,
        };
        StackView { items, current }
    }

    /// The focus moves one position on, from the last item to the first.
    pub open spec fn next(self) -> Self {
        let current = match self.current {
            Some(c) => Some(if c == self.items.len() - 1 { 0 } else { c + 1 }),
            None => None,
        };
        StackView { items: self.items, current }
    }

    /// The focus moves one position back, from the first item to the last.
    pub open spec fn previous(self) -> Self {
        let current = match self.current {
            Some(c) => Some(if c == 0 { self.items.len() - 1 } else { c - 1 }),
            None => None,
        };
        StackView { items: self.items, current }
    }

    /// `item` stands in place of the focused item.
    pub open spec fn replace_current(self, item: T) -> Self {
        match self.current {
            Some(c) => StackView { items: self.items.update(c, item), current: self.current },
            None => self,
        }
    }

    /// The stack of what `f` makes of each item, with the same focus.
    pub open spec fn map_values<U>(self, f: spec_fn(T) -> U) -> StackView<U> {
        StackView { items: self.items.map_values(f), current: self.current }
    }

    /// Each item in order, paired with whether it is the focused one.
    pub open spec fn traversal(self) -> Seq<(bool, T)> {
        Seq::new(self.items.len(), |i: int| (self.current == Some(i), self.items[i]))
    }

    /// The position of the last pair that is flagged.
    pub open spec fn last_flagged(pairs: Seq<(bool, T)>) -> Option<int>
        decreases pairs.len(),
    {
        if pairs.len() == 0 {
            None
        } else if pairs.last().0 {
            Some(pairs.len() - 1)
        } else {
            Self::last_flagged(pairs.drop_last())
        }
    }

    /// The stack that a sequence of flagged items describes: the items in
    /// order, focused on the last flagged one, or on the first item if none
    /// is flagged.
    pub open spec fn from_traversal(pairs: Seq<(bool, T)>) -> Self {
        let items = Seq::new(pairs.len(), |i: int| pairs[i].1);
        match Self::last_flagged(pairs) {
            Some(c) => StackView { items, current: Some(c) },
            None => Self::from_seq(items),
        }
    }
}

/// What the position of the last flagged pair is: that pair is flagged and
/// none after it is. Without such a position, no pair is flagged.
pub proof fn lemma_last_flagged<T>(pairs: Seq<(bool, T)>)
    ensures
        match StackView::last_flagged(pairs) {
            Some(c) => {
                &&& 0 <= c < pairs.len()
                &&& pairs[c].0
                &&& forall|j: int| c < j < pairs.len() ==> !(#[trigger] pairs[j]).0
            },
            None => forall|j: int| 0 <= j < pairs.len() ==> !(#[trigger] pairs[j]).0,
        },
    decreases pairs.len(),
{
    if pairs.len() > 0 && !pairs.last().0 {
        lemma_last_flagged(pairs.drop_last());
        let shorter = pairs.drop_last();
        assert(forall|j: int| 0 <= j < shorter.len() ==> shorter[j] == pairs[j]);
        match StackView::last_flagged(shorter) {
            Some(c) => {
                assert forall|j: int| c < j < pairs.len() implies !(#[trigger] pairs[j]).0 by {
                    if j < shorter.len() {
                        assert(!shorter[j].0);
                    }
                }
            },
            None => {
                assert forall|j: int| 0 <= j < pairs.len() implies !(#[trigger] pairs[j]).0 by {
                    if j < shorter.len() {
                        assert(!shorter[j].0);
                    }
                }
            },
        }
    }
}

/// Pairs that flag the focused position of a stack, and no other, describe a
/// stack with the same focus.
pub proof fn lemma_from_traversal_keeps_focus<T, U>(stack: StackView<T>, pairs: Seq<(bool, U)>)
    requires
        stack.wf(),
        pairs.len() == stack.items.len(),
        forall|i: int| 0 <= i < pairs.len() ==> (#[trigger] pairs[i]).0 == (stack.current == Some(i)),
    ensures
        StackView::from_traversal(pairs).current == stack.current,
        StackView::from_traversal(pairs).items.len() == pairs.len(),
        forall|i: int|
            0 <= i < pairs.len() ==> (#[trigger] StackView::from_traversal(pairs).items[i])
                == pairs[i].1,
{
    lemma_last_flagged(pairs);
    match stack.current {
        Some(c) => {
            assert(pairs[c].0);
        },
        None => {},
    }
}

/// Rotating the focus on and then back, or back and then on, gives the stack
/// that one started from.
pub proof fn lemma_rotation_inverts<T>(stack: StackView<T>)
    requires
        stack.wf(),
    ensures
        stack.next().previous() == stack,
        stack.previous().next() == stack,
{
}

/// A stack is the one that its own traversal describes.
pub proof fn lemma_traversal_round_trip<T>(stack: StackView<T>)
    requires
        stack.wf(),
    ensures
        StackView::from_traversal(stack.traversal()) == stack,
{
    lemma_from_traversal_keeps_focus(stack, stack.traversal());
    assert(StackView::from_traversal(stack.traversal()).items =~= stack.items);
}

/// An ordered collection of items, one of which is focused unless the
/// collection is empty.
#[derive(Debug, PartialEq, Eq)]
pub struct Stack<I> {
    current: Option<usize>,
    stack: Vec<I>,
}

impl<I> View for Stack<I> {
    type V = StackView<I>;

    closed spec fn view(&self) -> StackView<I> {
        StackView {
            items: self.stack@,
            current: match self.current {
                Some(c) => Some(c as int),
                None => None,
            },
        }
    }
}

impl<I> Default for Stack<I> {
    /// An empty stack.
    fn default() -> (stack: Self)
        ensures
            stack@ == StackView::<I>::empty(),
    {
        Stack { current: None, stack: Vec::new() }
    }
}

impl<I> From<Vec<I>> for Stack<I> {
    /// The given items in their order, with the first one focused.
    fn from(items: Vec<I>) -> (stack: Self)
        ensures
            stack@ == StackView::from_seq(items@),
    {
        if items.len() == 0 {
            Stack { current: None, stack: items }
        } else {
            Stack { current: Some(0), stack: items }
        }
    }
}

impl<I> vstd::std_specs::convert::FromSpecImpl<Vec<I>> for Stack<I> {
    open spec fn obeys_from_spec() -> bool {
        true
    }

    closed spec fn from_spec(items: Vec<I>) -> Self {
        Stack { current: if items@.len() == 0 { None } else { Some(0usize) }, stack: items }
    }
}

impl<I> std::ops::Deref for Stack<I> {
    type Target = Vec<I>;

    /// The items in order.
    fn deref(&self) -> (items: &Vec<I>)
        ensures
            items@ == self@.items,
    {
        &self.stack
    }
}

impl<I: Clone> Clone for Stack<I> {
    /// A stack of clones of the items, focused at the same position.
    fn clone(&self) -> (stack: Self)
        ensures
            stack@.current == self@.current,
            stack@.items.len() == self@.items.len(),
            forall|i: int|
                0 <= i < self@.items.len() ==> cloned(#[trigger] self@.items[i], stack@.items[i]),
    {
        proof {
            use_type_invariant(self);
        }
        Stack { current: self.current, stack: self.stack.clone() }
    }
}

impl<I> Stack<I> {
    /// What holds of every stack: its focus names one of its items, and
    /// only an empty stack has none.
    #[verifier::type_invariant]
    pub open spec fn wf(self) -> bool {
        self@.wf()
    }

    /// An empty stack.
    pub fn new() -> (stack: Self)
        ensures
            stack@ == StackView::<I>::empty(),
    {
        Stack { current: None, stack: Vec::new() }
    }

    /// The number of items.
    pub fn len(&self) -> (n: usize)
        ensures
            n == self@.items.len(),
            self@.wf(),
    {
        proof {
            use_type_invariant(self);
        }
        self.stack.len()
    }

    pub fn is_empty(&self) -> (b: bool)
        ensures
            b == (self@.items.len() == 0),
    {
        self.stack.len() == 0
    }

    /// The position of the focused item.
    pub fn current_index(&self) -> (c: Option<usize>)
        ensures
            self@.wf(),
            match c {
                Some(i) => self@.current == Some(i as int),
                None => self@.current.is_none(),
            },
    {
        proof {
            use_type_invariant(self);
        }
        self.current
    }

    /// The item at `index`, if there is one.
    pub fn get(&self, index: usize) -> (item: Option<&I>)
        ensures
            item == if index < self@.items.len() { Some(&self@.items[index as int]) } else { None },
    {
        if index < self.stack.len() {
            Some(&self.stack[index])
        } else {
            None
        }
    }

    /// The focused item.
    pub fn get_current(&self) -> (item: Option<&I>)
        ensures
            self@.wf(),
            match item {
                Some(i) => self@.focused() == Some(*i),
                None => self@.focused().is_none(),
            },
    {
        proof {
            use_type_invariant(self);
        }
        match self.current {
            Some(c) => Some(&self.stack[c]),
            None => None,
        }
    }

    /// Puts `item` at the focused position and focuses it.
    pub fn add(self, item: I) -> (stack: Self)
        ensures
            stack@ == self@.add(item),
    {
        proof {
            use_type_invariant(&self);
        }
        let Stack { current, stack } = self;
        let mut stack = stack;
        let at: usize = match current {
            Some(c) => c,
            None => 0,
        };
        stack.insert(at, item);
        Stack { current: Some(at), stack }
    }

    /// Focuses the item at `index`; leaves the stack as it is when there is
    /// no such item.
    pub fn set_current(self, index: usize) -> (stack: Self)
        ensures
            stack@ == self@.set_current(index as int),
    {
        proof {
            use_type_invariant(&self);
        }
        let Stack { current, stack } = self;
        if stack.len() > index {
            Stack { current: Some(index), stack }
        } else {
            Stack { current, stack }
        }
    }

    /// Focuses the following item, and the first one after the last.
    pub fn next(self) -> (stack: Self)
        ensures
            stack@ == self@.next(),
    {
        proof {
            use_type_invariant(&self);
        }
        let Stack { current, stack } = self;
        let current = match current {
            Some(c) => Some(if c == stack.len() - 1 { 0 } else { c + 1 }),
            None => None,
        };
        Stack { current, stack }
    }

    /// Focuses the preceding item, and the last one before the first.
    pub fn previous(self) -> (stack: Self)
        ensures
            stack@ == self@.previous(),
    {
        proof {
            use_type_invariant(&self);
        }
        let Stack { current, stack } = self;
        let current = match current {
            Some(c) => Some(if c == 0 { stack.len() - 1 } else { c - 1 }),
            None => None,
        };
        Stack { current, stack }
    }

    /// Puts what `replace` makes of the focused item in its place. A stack
    /// without focus stays as it is.
    pub fn update_current<F: FnOnce(I) -> I>(self, replace: F) -> (stack: Self)
        requires
            self@.current matches Some(c) ==> call_requires(replace, (self@.items[c],)),
        ensures
            self@.current is None ==> stack@ == self@,
            self@.current matches Some(c) ==> {
                &&& call_ensures(replace, (self@.items[c],), stack@.items[c])
                &&& stack@ == self@.replace_current(stack@.items[c])
            },
    {
        proof {
            use_type_invariant(&self);
        }
        let Stack { current, stack } = self;
        let mut stack = stack;
        if let Some(c) = current {
            let ghost before = stack@;
            let old_item = stack.remove(c);
            let new_item = replace(old_item);
            stack.insert(c, new_item);
            assert(stack@ =~= before.update(c as int, new_item));
        }
        Stack { current, stack }
    }

    /// A cursor over the items in order, each paired with whether it is the
    /// focused one.
    pub fn into_iter(self) -> (cursor: StackIntoIter<I>)
        ensures
            cursor@ == self@.traversal(),
    {
        proof {
            use_type_invariant(&self);
        }
        let Stack { current, stack } = self;
        let cursor = StackIntoIter { ahead: current, rest: reversed(stack) };
        assert(cursor@ =~= self@.traversal());
        cursor
    }

    /// The items in order, each paired with whether it is the focused one.
    pub fn into_traversal(self) -> (pairs: Vec<(bool, I)>)
        ensures
            pairs@ == self@.traversal(),
    {
        let mut cursor = self.into_iter();
        let mut pairs: Vec<(bool, I)> = Vec::new();
        while cursor.len() > 0
            invariant
                pairs@ + cursor@ == self@.traversal(),
            decreases cursor@.len(),
        {
            let ghost before = cursor@;
            let pair = cursor.next().unwrap();
            pairs.push(pair);
            assert(pairs@ + cursor@ =~= pairs@.drop_last() + before);
        }
        assert(pairs@ =~= pairs@ + cursor@);
        pairs
    }

    /// The stack of the given items in their order. The focus is on the last
    /// item that is flagged, or on the first item where none is.
    pub fn from_traversal(pairs: Vec<(bool, I)>) -> (stack: Self)
        ensures
            stack@ == StackView::from_traversal(pairs@),
    {
        let n = pairs.len();
        let mut rest = reversed(pairs);
        let mut items: Vec<I> = Vec::new();
        let mut current: Option<usize> = None;
        while rest.len() > 0
            invariant
                n == pairs@.len(),
                items@.len() + rest@.len() == n,
                forall|i: int| 0 <= i < items@.len() ==> items@[i] == (#[trigger] pairs@[i]).1,
                forall|i: int| 0 <= i < rest@.len() ==> rest@[i] == pairs@[n - 1 - i],
                StackView::last_flagged(pairs@.take(items@.len() as int)) == match current {
                    Some(c) => Some(c as int),
                    None => None,
                },
                current matches Some(c) ==> c < items@.len(),
            decreases rest@.len(),
        {
            let ghost k = items@.len() as int;
            let (flagged, item) = rest.pop().unwrap();
            if flagged {
                current = Some(items.len());
            }
            items.push(item);
            assert(pairs@.take(k + 1).drop_last() =~= pairs@.take(k));
        }
        assert(pairs@.take(n as int) =~= pairs@);
        if current.is_none() && items.len() > 0 {
            current = Some(0);
        }
        let stack = Stack { current, stack: items };
        assert(stack@.items =~= StackView::from_traversal(pairs@).items);
        stack
    }

    /// Takes out the first item of which `predicate` says `true`. The focus
    /// keeps its position, or moves to the last item if its position is gone.
    pub fn remove_by<F: Fn(&I) -> bool>(self, predicate: F) -> (stack: Self)
        requires
            forall|i: int|
                0 <= i < self@.items.len() ==> call_requires(predicate, (&#[trigger] self@.items[i],)),
        ensures
            ({
                &&& rejected_below(predicate, self@.items, self@.items.len() as int)
                &&& stack@ == self@
            }) || exists|k: int|
                #[trigger] accepted_first_at(predicate, self@.items, k) && stack@ == self@.remove_at(k),
    {
        proof {
            use_type_invariant(&self);
        }
        let ghost before = self@;
        let Stack { current, stack } = self;
        let mut stack = stack;
        let n = stack.len();
        let mut k: usize = 0;
        while k < n
            invariant
                k <= n,
                n == stack@.len(),
                before == self@,
                before.wf(),
                before.items == stack@,
                before.current == match current {
                    Some(c) => Some(c as int),
                    None => None,
                },
                rejected_below(predicate, stack@, k as int),
                forall|i: int| 0 <= i < n ==> call_requires(predicate, (&#[trigger] stack@[i],)),
            decreases n - k,
        {
            if predicate(&stack[k]) {
                assert(accepted_first_at(predicate, before.items, k as int));
                stack.remove(k);
                let current = match current {
                    Some(c) => if stack.len() == 0 {
                        None
                    } else if c >= stack.len() {
                        Some(stack.len() - 1)
                    } else {
                        Some(c)
                    },
                    None => None,
                };
                let removed = Stack { current, stack };
                assert(removed@ == before.remove_at(k as int));
                return removed;
            }
            k = k + 1;
        }
        Stack { current, stack }
    }
}

/// `predicate` may say `false` of each of the first `k` items.
pub open spec fn rejected_below<I, F: Fn(&I) -> bool>(predicate: F, items: Seq<I>, k: int) -> bool {
    forall|j: int| 0 <= j < k && j < items.len() ==> call_ensures(predicate, (&#[trigger] items[j],), false)
}

/// `predicate` may say `true` of the item at `k` and `false` of each item before it.
pub open spec fn accepted_first_at<I, F: Fn(&I) -> bool>(predicate: F, items: Seq<I>, k: int) -> bool {
    &&& 0 <= k < items.len()
    &&& call_ensures(predicate, (&items[k],), true)
    &&& rejected_below(predicate, items, k)
}

/// A pass over the items of a [`Stack`] from first to last, which gives each
/// item with a flag that says whether it is the focused one.
pub struct StackIntoIter<I> {
    /// How many items come before the focused one.
    ahead: Option<usize>,
    /// The items that are left, last one first.
    rest: Vec<I>,
}

impl<I> View for StackIntoIter<I> {
    type V = Seq<(bool, I)>;

    /// The pairs that are still to come, in the order in which they come.
    closed spec fn view(&self) -> Seq<(bool, I)> {
        Seq::new(
            self.rest@.len(),
            |i: int|
                (match self.ahead {
                    Some(c) => c == i,
                    None => false,
                }, self.rest@[self.rest@.len() - 1 - i]),
        )
    }
}

impl<I> StackIntoIter<I> {
    /// The number of pairs that are still to come.
    pub fn len(&self) -> (n: usize)
        ensures
            n == self@.len(),
    {
        self.rest.len()
    }

    /// The next pair, if any is left.
    pub fn next(&mut self) -> (pair: Option<(bool, I)>)
        ensures
            match pair {
                Some(p) => old(self)@.len() > 0 && p == old(self)@[0] && final(self)@
                    == old(self)@.drop_first(),
                None => old(self)@.len() == 0 && final(self)@ == old(self)@,
            },
    {
        match self.rest.pop() {
            Some(item) => {
                let flagged = match self.ahead {
                    Some(c) => c == 0,
                    None => false,
                };
                self.ahead = match self.ahead {
                    Some(c) => if c == 0 { None } else { Some(c - 1) },
                    None => None,
                };
                assert(self@ =~= old(self)@.drop_first());
                Some((flagged, item))
            },
            None => None,
        }
    }
}

/// The items of `items` from last to first.
pub(crate) fn reversed<T>(items: Vec<T>) -> (turned: Vec<T>)
    ensures
        turned@ == items@.reverse(),
{
    let mut items = items;
    let ghost before = items@;
    let mut turned: Vec<T> = Vec::new();
    while items.len() > 0
        invariant
            items@.len() + turned@.len() == before.len(),
            items@ == before.take(items@.len() as int),
            forall|i: int| 0 <= i < turned@.len() ==> turned@[i] == before[before.len() - 1 - i],
        decreases items@.len(),
    {
        let item = items.pop().unwrap();
        turned.push(item);
    }
    assert(turned@ =~= before.reverse());
    turned
}

} // verus!
