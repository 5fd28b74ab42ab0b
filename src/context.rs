//! A stack of "current" values for one execution context, and the scope guard
//! that pushes a value for the length of a scope.

use vstd::prelude::*;

verus! {

/// The top of `s`, the value pushed last and not yet popped.
pub open spec fn top<T>(s: Seq<T>) -> Option<T> {
    if s.len() == 0 {
        None
    } else {
        Some(s.last())
    }
}

/// The values of one execution context, innermost scope last.
pub struct ContextStack<T> {
    items: Vec<T>,
}

/// Names the slot that one `push` filled. It cannot be copied, so each slot is
/// popped at most once.
pub struct ScopeToken {
    depth: usize,
}

impl ScopeToken {
    /// How many values were on the stack below the slot.
    pub closed spec fn depth(&self) -> nat {
        self.depth as nat
    }
}

impl<T> View for ContextStack<T> {
    type V = Seq<T>;

    closed spec fn view(&self) -> Seq<T> {
        self.items@
    }
}

impl<T> ContextStack<T> {
    /// An empty stack.
    pub fn new() -> (r: ContextStack<T>)
        ensures
            r@ == Seq::<T>::empty(),
    {
        ContextStack { items: Vec::new() }
    }

    /// The number of values on the stack.
    pub fn len(&self) -> (r: usize)
        ensures
            r == self@.len(),
    {
        self.items.len()
    }

    /// Puts `value` on top; the token names its slot.
    pub fn push(&mut self, value: T) -> (token: ScopeToken)
        ensures
            final(self)@ == old(self)@.push(value),
            token.depth() == old(self)@.len(),
    {
        let depth = self.items.len();
        self.items.push(value);
        ScopeToken { depth }
    }

    /// Removes the value in the slot that `token` names, if that slot is the
    /// top. Otherwise the pop is out of order: the stack stays as it is and
    /// `None` reports the misuse.
    pub fn pop(&mut self, token: ScopeToken) -> (r: Option<T>)
        ensures
            token.depth() + 1 == old(self)@.len() ==> r == Some(old(self)@.last())
                && final(self)@ == old(self)@.drop_last(),
            token.depth() + 1 != old(self)@.len() ==> r.is_none() && final(self)@ == old(self)@,
    {
        if self.items.len() > 0 && token.depth == self.items.len() - 1 {
            self.items.pop()
        } else {
            None
        }
    }

    /// The value pushed last and not yet popped.
    pub fn current(&self) -> (r: Option<&T>)
        ensures
            r.is_some() == (self@.len() > 0),
            r.is_some() ==> *r.unwrap() == self@.last(),
    {
        if self.items.len() == 0 {
            None
        } else {
            Some(&self.items[self.items.len() - 1])
        }
    }

    /// The value pushed last and not yet popped, or `root` when the stack is
    /// empty.
    pub fn current_or<'a>(&'a self, root: &'a T) -> (r: &'a T)
        ensures
            self@.len() == 0 ==> r == root,
            self@.len() > 0 ==> r == self@.last(),
    {
        match self.current() {
            Some(v) => v,
            None => root,
        }
    }
}

/// The stack after entering a scope for each of `values`, outermost first.
pub open spec fn entered<T>(s: Seq<T>, values: Seq<T>) -> Seq<T>
    decreases values.len(),
{
    if values.len() == 0 {
        s
    } else {
        entered(s, values.drop_last()).push(values.last())
    }
}

/// The stack after leaving the `n` innermost scopes.
pub open spec fn left<T>(s: Seq<T>, n: nat) -> Seq<T>
    decreases n,
{
    if n == 0 || s.len() == 0 {
        s
    } else {
        left(s.drop_last(), (n - 1) as nat)
    }
}

proof fn lemma_left_entered<T>(s: Seq<T>, values: Seq<T>, k: nat)
    requires
        k <= values.len(),
    ensures
        left(entered(s, values), k) == entered(s, values.take(values.len() - k)),
    decreases values.len(),
{
    if k == 0 {
        assert(values.take(values.len() as int) =~= values);
    } else {
        let inner = values.drop_last();
        lemma_left_entered(s, inner, (k - 1) as nat);
        assert(inner.take(inner.len() - (k - 1)) =~= values.take(values.len() - k));
        assert(entered(s, values).drop_last() == entered(s, inner));
    }
}

/// Scopes entered in nesting order and left in reverse order restore the
/// stack: after the `k` innermost scopes end, the stack, and so what `current`
/// returns, is as it was before those scopes began, at every depth.
pub proof fn lemma_nested_scopes_restore<T>(s: Seq<T>, values: Seq<T>)
    ensures
        forall|k: nat|
            k <= values.len() ==> #[trigger] left(entered(s, values), k) == entered(
                s,
                values.take(values.len() - k),
            ),
        left(entered(s, values), values.len()) == s,
        top(left(entered(s, values), values.len())) == top(s),
{
    assert forall|k: nat| k <= values.len() implies #[trigger] left(entered(s, values), k)
        == entered(s, values.take(values.len() - k)) by {
        lemma_left_entered(s, values, k);
    }
    lemma_left_entered(s, values, values.len());
    assert(values.take(0) =~= Seq::<T>::empty());
}

} // verus!
