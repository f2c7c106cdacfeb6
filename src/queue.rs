use vstd::prelude::*;

verus! {

/// A first-in, first-out queue kept as two stacks: items are pushed onto
/// `younger`, and popped from `older`, which holds the oldest items with the
/// front of the queue last.
pub struct Queue<T> {
    older: Vec<T>,
    younger: Vec<T>,
}

impl<T> View for Queue<T> {
    /// The two stacks, `older` first.
    type V = (Seq<T>, Seq<T>);

    closed spec fn view(&self) -> (Seq<T>, Seq<T>) {
        (self.older@, self.younger@)
    }
}

impl<T> Queue<T> {
    /// The items waiting, front first.
    pub open spec fn contents(&self) -> Seq<T> {
        self@.0.reverse() + self@.1
    }

    /// An empty queue.
    pub fn new() -> (r: Self)
        ensures
            r@ == (Seq::<T>::empty(), Seq::<T>::empty()),
            r.contents() == Seq::<T>::empty(),
    {
        let r = Queue { older: Vec::new(), younger: Vec::new() };
        assert(r.contents() =~= Seq::<T>::empty());
        r
    }

    /// Adds `t` at the back of the queue.
    pub fn push(&mut self, t: T)
        ensures
            final(self)@ == (old(self)@.0, old(self)@.1.push(t)),
            final(self).contents() == old(self).contents().push(t),
    {
        self.younger.push(t);
        assert(self.contents() =~= old(self).contents().push(t));
    }

    /// Removes and returns the item at the front of the queue, or `None` when
    /// the queue is empty.
    ///
    /// When `older` is empty, the items of `younger` move over to it first,
    /// newest at the bottom.
    pub fn pop(&mut self) -> (r: Option<T>)
        ensures
            old(self).contents().len() == 0 ==> r is None && final(self)@ == old(self)@,
            old(self).contents().len() > 0 ==> r == Some(old(self).contents()[0])
                && final(self).contents() == old(self).contents().drop_first(),
            old(self)@.0.len() > 0 ==> final(self)@ == (old(self)@.0.drop_last(), old(self)@.1),
            old(self)@.0.len() == 0 && old(self)@.1.len() > 0 ==> final(self)@ == (
                old(self)@.1.reverse().drop_last(),
                Seq::<T>::empty(),
            ),
    {
        if self.older.len() == 0 {
            if self.younger.len() == 0 {
                assert(old(self).contents() =~= Seq::<T>::empty());
                return None;
            }
            let ghost moved = self.younger@;
            while self.younger.len() > 0
                invariant
                    old(self).older@.len() == 0,
                    moved == old(self).younger@,
                    self.younger@.len() <= moved.len(),
                    self.younger@ == moved.subrange(0, self.younger@.len() as int),
                    self.older@ == moved.subrange(
                        self.younger@.len() as int,
                        moved.len() as int,
                    ).reverse(),
                decreases self.younger@.len(),
            {
                let ghost k = self.younger@.len() as int;
                let x = self.younger.pop().unwrap();
                self.older.push(x);
                assert(self.older@ =~= moved.subrange(k - 1, moved.len() as int).reverse());
                assert(self.younger@ =~= moved.subrange(0, k - 1));
            }
            assert(self.older@ =~= moved.reverse());
            assert(self.younger@ =~= Seq::<T>::empty());
        }
        assert(self.contents() =~= old(self).contents());
        let r = self.older.pop();
        assert(self.contents() =~= old(self).contents().drop_first());
        r
    }

    /// Whether the queue holds no items.
    pub fn is_empty(&self) -> (r: bool)
        ensures
            r == (self.contents().len() == 0),
    {
        self.older.len() == 0 && self.younger.len() == 0
    }

    /// Takes the queue apart into its two stacks, `older` first.
    pub fn split(self) -> (r: (Vec<T>, Vec<T>))
        ensures
            (r.0@, r.1@) == self@,
    {
        (self.older, self.younger)
    }
}

} // verus!
