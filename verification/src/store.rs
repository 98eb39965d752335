//! The elements of a drawing in z-order.

use vstd::prelude::*;
use crate::geometry::{Coordinate, Point};
use crate::picking::{last_index_where, lemma_last_index_where};
use crate::shape::{Shape, ShapeElement};

verus! {

/// The shapes that a sequence of elements stands for.
pub open spec fn shapes_of(es: Seq<ShapeElement>) -> Seq<Shape> {
    Seq::new(es.len(), |i: int| es[i]@)
}

/// `shapes` without the item at `index`; unchanged where `index` names none.
pub open spec fn without(shapes: Seq<Shape>, index: int) -> Seq<Shape> {
    if 0 <= index < shapes.len() {
        shapes.remove(index)
    } else {
        shapes
    }
}

/// The index of the topmost shape that the pointer at `p` touches: the last
/// in the sequence, which is the one drawn last.
pub open spec fn topmost_hit(shapes: Seq<Shape>, p: Point) -> Option<int> {
    last_index_where(shapes, |s: Shape| s.hit(p))
}

/// The elements of a drawing. The order of insertion is the z-order: a later
/// element is drawn over the earlier ones and is picked before them.
pub struct ElementStore {
    elems: Vec<ShapeElement>,
}

impl View for ElementStore {
    type V = Seq<Shape>;

    closed spec fn view(&self) -> Seq<Shape> {
        shapes_of(self.elems@)
    }
}

impl ElementStore {
    /// The empty store.
    pub fn new() -> (s: ElementStore)
        ensures
            s@ == Seq::<Shape>::empty(),
    {
        let s = ElementStore { elems: Vec::new() };
        assert(s@ =~= Seq::<Shape>::empty());
        s
    }

    /// The number of elements.
    pub fn len(&self) -> (n: usize)
        ensures
            n == self@.len(),
    {
        self.elems.len()
    }

    /// The element at `index`, if there is one.
    pub fn get(&self, index: usize) -> (e: Option<ShapeElement>)
        ensures
            index < self@.len() ==> e is Some && e.unwrap()@ == self@[index as int],
            index >= self@.len() ==> e is None,
    {
        if index < self.elems.len() {
            Some(self.elems[index])
        } else {
            None
        }
    }

    /// Puts `element` in the place of the element at `index`; changes nothing
    /// where `index` names none.
    pub fn set(&mut self, index: usize, element: ShapeElement)
        ensures
            index < old(self)@.len() ==> final(self)@ == old(self)@.update(index as int, element@),
            index >= old(self)@.len() ==> final(self)@ == old(self)@,
    {
        if index < self.elems.len() {
            self.elems.set(index, element);
            assert(self@ =~= old(self)@.update(index as int, element@));
        }
    }

    /// Appends `element`, which becomes the topmost.
    pub fn push(&mut self, element: ShapeElement)
        ensures
            final(self)@ == old(self)@.push(element@),
    {
        self.elems.push(element);
        assert(self@ =~= old(self)@.push(element@));
    }

    /// Removes the element at `index`; those above it move down by one.
    /// Changes nothing where `index` names no element.
    pub fn remove_at(&mut self, index: usize)
        ensures
            final(self)@ == without(old(self)@, index as int),
            index >= old(self)@.len() ==> final(self)@ == old(self)@,
            index < old(self)@.len() ==> {
                &&& final(self)@.len() == old(self)@.len() - 1
                &&& forall|j: int| 0 <= j < index ==> #[trigger] final(self)@[j] == old(self)@[j]
                &&& forall|j: int|
                    index <= j < final(self)@.len()
                        ==> #[trigger] final(self)@[j] == old(self)@[j + 1]
            },
    {
        if index < self.elems.len() {
            self.elems.remove(index);
            assert(self@ =~= old(self)@.remove(index as int));
        }
    }

    /// The index of the topmost element that the pointer at `p` touches, if
    /// it touches any: no element above the one returned is touched.
    pub fn topmost_hit_at(&self, p: Coordinate) -> (r: Option<usize>)
        ensures
            r matches Some(i) ==> {
                &&& topmost_hit(self@, p@) == Some(i as int)
                &&& i < self@.len()
                &&& self@[i as int].hit(p@)
                &&& forall|j: int| i < j < self@.len() ==> !(#[trigger] self@[j]).hit(p@)
            },
            r is None ==> {
                &&& topmost_hit(self@, p@) is None
                &&& forall|j: int| 0 <= j < self@.len() ==> !(#[trigger] self@[j]).hit(p@)
            },
    {
        let mut i: usize = self.elems.len();
        while i > 0
            invariant
                i <= self.elems.len(),
                forall|j: int| i <= j < self@.len() ==> !(#[trigger] self@[j]).hit(p@),
            decreases i,
        {
            i = i - 1;
            if self.elems[i].hit_test(p) {
                proof {
                    lemma_last_index_where(self@, |s: Shape| s.hit(p@), Some(i as int));
                }
                return Some(i);
            }
        }
        proof {
            lemma_last_index_where(self@, |s: Shape| s.hit(p@), None);
        }
        None
    }
}

} // verus!
