use std::rc::Rc;
use vstd::prelude::*;

pub mod laws;

verus! {

/// The content after pushing `v` onto a stack whose content is `s`.
pub open spec fn pushed<T>(s: Seq<T>, v: T) -> Seq<T> {
    seq![v] + s
}

/// The content beneath the top element, if there is one.
pub open spec fn popped<T>(s: Seq<T>) -> Option<Seq<T>> {
    if s.len() == 0 {
        None
    } else {
        Some(s.drop_first())
    }
}

/// The top element, if there is one.
pub open spec fn top_of<T>(s: Seq<T>) -> Option<T> {
    if s.len() == 0 {
        None
    } else {
        Some(s[0])
    }
}

/// The content after pushing each of `items` in turn onto a stack whose
/// content is `s`.
pub open spec fn pushed_all<T>(s: Seq<T>, items: Seq<T>) -> Seq<T>
    decreases items.len(),
{
    if items.len() == 0 {
        s
    } else {
        pushed(pushed_all(s, items.drop_last()), items.last())
    }
}

/// Operations of a persistent stack. None of them changes the receiver:
/// `pop` and `push` hand back new stacks.
pub trait FunctionalStackOps<T>: Sized {
    /// The elements of the stack, from the top down.
    spec fn content(&self) -> Seq<T>;

    fn top(&self) -> (r: Option<&T>)
        ensures
            match r {
                Some(v) => top_of(self.content()) == Some(*v),
                None => top_of(self.content()) is None,
            },
    ;

    fn pop(&self) -> (r: Option<Self>)
        ensures
            match r {
                Some(rest) => popped(self.content()) == Some(rest.content()),
                None => popped(self.content()) is None,
            },
    ;

    fn push(&self, el: T) -> (r: Self)
        ensures
            r.content() == pushed(self.content(), el),
    ;

    fn empty(&self) -> (r: bool)
        ensures
            r == (self.content().len() == 0),
    ;
}

/// A node of a persistent stack: either the bottom marker or one element
/// resting on a shared tail.
pub enum FunctionalStack<T> {
    Cons(T, StackPointer<T>),
    Nil,
}

/// A shared handle to a node; cloning it shares the node instead of copying it.
pub struct StackPointer<T>(Rc<FunctionalStack<T>>);

impl<T> FunctionalStack<T> {
    /// The elements reachable from this node, from the top down.
    pub open spec fn content(self) -> Seq<T>
        decreases self,
    {
        match self {
            FunctionalStack::Nil => Seq::empty(),
            FunctionalStack::Cons(v, tail) => seq![v] + tail.node().content(),
        }
    }
}

impl<T> StackPointer<T> {
    /// The node this handle refers to.
    pub closed spec fn node(self) -> FunctionalStack<T> {
        *self.0
    }

    /// The handle whose chain of nodes holds exactly `s`, top first.
    closed spec fn holding(s: Seq<T>) -> Self
        decreases s.len(),
    {
        if s.len() == 0 {
            StackPointer(Rc::new(FunctionalStack::Nil))
        } else {
            StackPointer(Rc::new(FunctionalStack::Cons(s[0], StackPointer::holding(s.drop_first()))))
        }
    }

    /// A handle is equal to any other with the same content: sharing is invisible.
    proof fn lemma_determined_by_content(p: Self)
        ensures
            p == StackPointer::holding(p@),
        decreases p@.len(),
    {
        match *p.0 {
            FunctionalStack::Nil => {},
            FunctionalStack::Cons(v, tail) => {
                assert(p@.drop_first() =~= tail@);
                StackPointer::lemma_determined_by_content(tail);
            },
        }
    }

    /// The empty stack.
    pub fn new() -> (r: Self)
        ensures
            r@ == Seq::<T>::empty(),
    {
        StackPointer(Rc::new(FunctionalStack::Nil))
    }
}

impl<T> View for StackPointer<T> {
    type V = Seq<T>;

    /// The stack's elements, from the top down.
    closed spec fn view(&self) -> Seq<T> {
        self.node().content()
    }
}

impl<T> From<FunctionalStack<T>> for StackPointer<T> {
    fn from(stack: FunctionalStack<T>) -> (r: Self)
        ensures
            r@ == stack.content(),
    {
        StackPointer(Rc::new(stack))
    }
}

impl<T> vstd::std_specs::convert::FromSpecImpl<FunctionalStack<T>> for StackPointer<T> {
    open spec fn obeys_from_spec() -> bool {
        true
    }

    closed spec fn from_spec(stack: FunctionalStack<T>) -> Self {
        StackPointer(Rc::new(stack))
    }
}

impl<T> vstd::std_specs::convert::FromSpecImpl<Vec<T>> for StackPointer<T> {
    open spec fn obeys_from_spec() -> bool {
        true
    }

    closed spec fn from_spec(list: Vec<T>) -> Self {
        StackPointer::holding(list@.reverse())
    }
}

impl<T> From<Vec<T>> for StackPointer<T> {
    /// Pushes the items in order, so that the last one ends on top.
    fn from(list: Vec<T>) -> (r: Self)
        ensures
            r@ == list@.reverse(),
    {
        let ghost items = list@;
        let mut stack = Self::new();
        for item in it: list.into_iter()
            invariant
                it.seq() == items,
                stack@ == items.take(it.index()).reverse(),
        {
            proof {
                assert(items.take(it.index() + 1) =~= items.take(it.index()).push(item));
            }
            stack = Self::from(FunctionalStack::Cons(item, stack));
            proof {
                assert(stack@ =~= items.take(it.index() + 1).reverse());
            }
        }
        proof {
            assert(items.take(items.len() as int) =~= items);
            StackPointer::lemma_determined_by_content(stack);
        }
        stack
    }
}

impl<T> Clone for StackPointer<T> {
    /// Shares the node: the copy is indistinguishable from the original.
    fn clone(&self) -> (r: Self)
        ensures
            r == *self,
            r@ == self@,
    {
        StackPointer(Rc::clone(&self.0))
    }
}

impl<T> std::ops::Deref for StackPointer<T> {
    type Target = FunctionalStack<T>;

    fn deref(&self) -> (r: &FunctionalStack<T>)
        ensures
            r.content() == self@,
    {
        &*self.0
    }
}

impl<T> FunctionalStackOps<T> for StackPointer<T> {
    open spec fn content(&self) -> Seq<T> {
        self@
    }

    fn top(&self) -> (r: Option<&T>) {
        match &*self.0 {
            FunctionalStack::Cons(el, _) => Some(el),
            FunctionalStack::Nil => None,
        }
    }

    fn pop(&self) -> (r: Option<Self>) {
        match &*self.0 {
            FunctionalStack::Cons(_, stack) => Some(stack.clone()),
            FunctionalStack::Nil => None,
        }
    }

    fn push(&self, el: T) -> (r: Self) {
        StackPointer(Rc::new(FunctionalStack::Cons(el, self.clone())))
    }

    fn empty(&self) -> (r: bool) {
        match &*self.0 {
            FunctionalStack::Cons(_, _) => false,
            FunctionalStack::Nil => true,
        }
    }
}

/// Relies on `Rc::new`: a fresh shared bottom node. Allocation failure
/// aborts the process rather than unwinding.
#[verifier::external_body]
fn empty_node<T>() -> (r: Rc<FunctionalStack<T>>)
    ensures
        *r == FunctionalStack::<T>::Nil,
    opens_invariants none
    no_unwind
{
    Rc::new(FunctionalStack::Nil)
}

/// Relies on `Rc::try_unwrap`: the node itself when `rc` was its only
/// handle, else `rc` back. It does not panic.
#[verifier::external_body]
fn sole_node<T>(rc: Rc<FunctionalStack<T>>) -> (r: Result<FunctionalStack<T>, Rc<FunctionalStack<T>>>)
    ensures
        match r {
            Ok(node) => node == *rc,
            Err(back) => back == rc,
        },
    opens_invariants none
    no_unwind
{
    Rc::try_unwrap(rc)
}

impl<T> Drop for StackPointer<T> {
    /// Releases the chain one node at a time, so that dropping a deep stack
    /// takes no deep recursion: each node that this handle owned alone is
    /// unwrapped, and its tail is detached before the node goes away.
    fn drop(&mut self)
        opens_invariants none
        no_unwind
    {
        let mut cur = empty_node();
        std::mem::swap(&mut cur, &mut self.0);
        loop
            decreases (*cur).content().len(),
        {
            match sole_node(cur) {
                Ok(FunctionalStack::Cons(_, mut tail)) => {
                    let mut rest = empty_node();
                    std::mem::swap(&mut rest, &mut tail.0);
                    cur = rest;
                },
                _ => break,
            }
        }
    }
}

impl<T: Clone> StackPointer<T> {
    /// One step of a traversal: hands out a copy of the top element and moves
    /// this handle to the rest of the stack. Only this handle moves; every
    /// other handle to the same nodes keeps its content.
    pub fn next(&mut self) -> (r: Option<T>)
        ensures
            match r {
                Some(v) => {
                    &&& old(self)@.len() > 0
                    &&& cloned(old(self)@[0], v)
                    &&& final(self)@ == old(self)@.drop_first()
                },
                None => old(self)@.len() == 0 && final(self)@ == old(self)@,
            },
    {
        let item = match self.top() {
            Some(el) => el.clone(),
            None => return None,
        };
        match self.pop() {
            Some(stack) => self.0 = stack.0.clone(),
            None => self.0 = Rc::new(FunctionalStack::Nil),
        };
        Some(item)
    }
}

} // verus!
