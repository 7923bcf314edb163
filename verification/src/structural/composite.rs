//! Composite: leaf widgets and dialogs share one component interface, and
//! moving a dialog moves everything inside it by the same offset.

use vstd::prelude::*;

verus! {

pub trait Component: Sized {
    spec fn pos_x(&self) -> u32;

    spec fn pos_y(&self) -> u32;

    /// When a move to `(x, y)` stays within coordinate bounds everywhere.
    spec fn can_translate(&self, x: u32, y: u32) -> bool;

    /// What a move to `(x, y)` did beyond placing the component there.
    spec fn translate_post(pre: Self, post: Self, x: u32, y: u32) -> bool;

    fn translate(&mut self, x: u32, y: u32)
        requires
            old(self).can_translate(x, y),
        ensures
            final(self).pos_x() == x,
            final(self).pos_y() == y,
            Self::translate_post(*old(self), *final(self), x, y),
    ;

    fn get_x(&self) -> (r: u32)
        ensures
            r == self.pos_x(),
    ;

    fn get_y(&self) -> (r: u32)
        ensures
            r == self.pos_y(),
    ;
}

pub struct Button {
    pub x: u32,
    pub y: u32,
}

impl Component for Button {
    open spec fn pos_x(&self) -> u32 {
        self.x
    }

    open spec fn pos_y(&self) -> u32 {
        self.y
    }

    open spec fn can_translate(&self, x: u32, y: u32) -> bool {
        true
    }

    open spec fn translate_post(pre: Self, post: Self, x: u32, y: u32) -> bool {
        post == (Button { x, y })
    }

    fn translate(&mut self, x: u32, y: u32) {
        self.x = x;
        self.y = y;
    }

    fn get_x(&self) -> (r: u32) {
        self.x
    }

    fn get_y(&self) -> (r: u32) {
        self.y
    }
}

pub struct Input {
    pub x: u32,
    pub y: u32,
    pub value: String,
}

impl Component for Input {
    open spec fn pos_x(&self) -> u32 {
        self.x
    }

    open spec fn pos_y(&self) -> u32 {
        self.y
    }

    open spec fn can_translate(&self, x: u32, y: u32) -> bool {
        true
    }

    /// Moving an input keeps what was typed into it.
    open spec fn translate_post(pre: Self, post: Self, x: u32, y: u32) -> bool {
        post.x == x && post.y == y && post.value == pre.value
    }

    fn translate(&mut self, x: u32, y: u32) {
        self.x = x;
        self.y = y;
    }

    fn get_x(&self) -> (r: u32) {
        self.x
    }

    fn get_y(&self) -> (r: u32) {
        self.y
    }
}

/// A composite: a dialog owns components and is itself a component.
pub struct Dialog<C> {
    pub x: u32,
    pub y: u32,
    pub components: Vec<C>,
}

impl<C: Component> Dialog<C> {
    pub fn new() -> (r: Dialog<C>)
        ensures
            r.x == 0,
            r.y == 0,
            r.components@ == Seq::<C>::empty(),
    {
        Dialog { components: Vec::new(), x: 0, y: 0 }
    }

    pub fn new_with_coordinate(x: u32, y: u32) -> (r: Dialog<C>)
        ensures
            r.x == x,
            r.y == y,
            r.components@ == Seq::<C>::empty(),
    {
        Dialog { components: Vec::new(), x, y }
    }

    pub fn add_component(&mut self, component: C)
        ensures
            final(self).components@ == old(self).components@.push(component),
            final(self).x == old(self).x,
            final(self).y == old(self).y,
    {
        self.components.push(component);
    }
}

impl<C: Component> Component for Dialog<C> {
    open spec fn pos_x(&self) -> u32 {
        self.x
    }

    open spec fn pos_y(&self) -> u32 {
        self.y
    }

    /// The dialog itself always moves; each child is shifted by the offset,
    /// so every shifted position must fit and be allowed for the child.
    open spec fn can_translate(&self, x: u32, y: u32) -> bool {
        forall|i: int| 0 <= i < self.components@.len() ==> {
            &&& (#[trigger] self.components@[i]).pos_x() + x <= u32::MAX
            &&& self.components@[i].pos_y() + y <= u32::MAX
            &&& self.components@[i].can_translate(
                (self.components@[i].pos_x() + x) as u32,
                (self.components@[i].pos_y() + y) as u32,
            )
        }
    }

    /// Moving a dialog moves each of its components by the same offset, in
    /// place, keeping their number and order.
    open spec fn translate_post(pre: Self, post: Self, x: u32, y: u32) -> bool {
        &&& post.x == x
        &&& post.y == y
        &&& post.components@.len() == pre.components@.len()
        &&& forall|i: int| 0 <= i < pre.components@.len() ==> {
            &&& (#[trigger] post.components@[i]).pos_x() == pre.components@[i].pos_x() + x
            &&& post.components@[i].pos_y() == pre.components@[i].pos_y() + y
            &&& C::translate_post(
                pre.components@[i],
                post.components@[i],
                (pre.components@[i].pos_x() + x) as u32,
                (pre.components@[i].pos_y() + y) as u32,
            )
        }
    }

    fn translate(&mut self, x: u32, y: u32) {
        self.x = x;
        self.y = y;
        let n = self.components.len();
        let mut i: usize = 0;
        while i < n
            invariant
                old(self).can_translate(x, y),
                n == self.components@.len(),
                self.components@.len() == old(self).components@.len(),
                self.x == x,
                self.y == y,
                i <= n,
                forall|j: int| i <= j < n ==> self.components@[j] == old(self).components@[j],
                forall|j: int| 0 <= j < i ==> {
                    &&& (#[trigger] self.components@[j]).pos_x() == old(self).components@[j].pos_x()
                        + x
                    &&& self.components@[j].pos_y() == old(self).components@[j].pos_y() + y
                    &&& C::translate_post(
                        old(self).components@[j],
                        self.components@[j],
                        (old(self).components@[j].pos_x() + x) as u32,
                        (old(self).components@[j].pos_y() + y) as u32,
                    )
                },
            decreases n - i,
        {
            let comp_x = self.components[i].get_x();
            let comp_y = self.components[i].get_y();
            self.components[i].translate(comp_x + x, comp_y + y);
            i = i + 1;
        }
    }

    fn get_x(&self) -> (r: u32) {
        self.x
    }

    fn get_y(&self) -> (r: u32) {
        self.y
    }
}

} // verus!
