//! A structural cons list.
//!
//! The abstract syntax tree and the intermediate representations hold
//! their repeated children in this list rather than in a vector: its
//! values are plain datatype values, so specifications can build them,
//! take them apart and compare them with `==` directly.

use vstd::prelude::*;

verus! {

#[derive(PartialEq, Eq, Debug)]
pub enum List<T> {
    Nil,
    Cons(T, Box<List<T>>),
}

/// The sequence of elements of a list.
pub open spec fn list_view<T>(l: List<T>) -> Seq<T>
    decreases l,
{
    match l {
        List::Nil => Seq::empty(),
        List::Cons(x, rest) => seq![x] + list_view(*rest),
    }
}

impl<T> View for List<T> {
    type V = Seq<T>;

    open spec fn view(&self) -> Seq<T> {
        list_view(*self)
    }
}

/// The length of a list, capped at `usize::MAX`. Lists held in memory
/// never reach the cap; the cap only makes the executable length total.
pub open spec fn len_sat<T>(l: List<T>) -> usize
    decreases l,
{
    match l {
        List::Nil => 0,
        List::Cons(_, rest) => if len_sat(*rest) == usize::MAX {
            usize::MAX
        } else {
            (len_sat(*rest) + 1) as usize
        },
    }
}

impl<T> List<T> {
    /// The number of elements, capped at `usize::MAX`.
    pub fn len(&self) -> (r: usize)
        ensures
            r == len_sat(*self),
        decreases *self,
    {
        match self {
            List::Nil => 0,
            List::Cons(_, rest) => {
                let n = rest.len();
                if n == usize::MAX {
                    n
                } else {
                    n + 1
                }
            },
        }
    }

    /// Whether the list has exactly `n` elements.
    pub fn matches_len(&self, n: usize) -> (r: bool)
        ensures
            r == (self@.len() == n),
        decreases *self,
    {
        match self {
            List::Nil => n == 0,
            List::Cons(_, rest) => if n == 0 {
                false
            } else {
                rest.matches_len(n - 1)
            },
        }
    }
}

/// The capped length agrees with the abstract length whenever the list
/// is short enough, and saturates otherwise.
pub proof fn lemma_len_sat<T>(l: List<T>)
    ensures
        l@.len() <= usize::MAX ==> len_sat(l) == l@.len(),
        l@.len() > usize::MAX ==> len_sat(l) == usize::MAX,
    decreases l,
{
    match l {
        List::Nil => {},
        List::Cons(_, rest) => lemma_len_sat(*rest),
    }
}

/// An exact copy of a list of copyable elements.
pub fn clone_list<T: Copy>(l: &List<T>) -> (r: List<T>)
    ensures
        r == *l,
    decreases *l,
{
    match l {
        List::Nil => List::Nil,
        List::Cons(x, rest) => List::Cons(*x, Box::new(clone_list(rest))),
    }
}

/// Build a list holding the elements of a vector, in order.
pub fn list_from_vec<T: Copy>(v: &Vec<T>) -> (r: List<T>)
    ensures
        r@ == v@,
{
    let mut r = List::Nil;
    let mut i: usize = v.len();
    while i > 0
        invariant
            i <= v.len(),
            r@ == v@.subrange(i as int, v.len() as int),
        decreases i,
    {
        i = i - 1;
        r = List::Cons(v[i], Box::new(r));
        proof {
            assert(r@ =~= v@.subrange(i as int, v.len() as int));
        }
    }
    proof {
        assert(r@ =~= v@);
    }
    r
}

} // verus!
