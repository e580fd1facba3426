use vstd::prelude::*;

verus! {

/// How many stars `delete_star(amount)` takes off a field of `len` stars:
/// all that are asked for, but never more than there are.
pub open spec fn removed_count(len: nat, amount: nat) -> nat {
    if amount <= len {
        amount
    } else {
        len
    }
}

/// A field of stars with coordinates of type `C`.
///
/// Each star is `(x, y, z)`: two coordinates in the screen plane and a depth.
/// The order of `stars` is the render order. `width` and `height` are the
/// bounds of the viewport the field was made for.
pub struct Stars<C> {
    pub stars: Vec<(C, C, C)>,
    width: C,
    height: C,
}

impl<C: Copy> Stars<C> {
    /// The stars, in render order.
    pub closed spec fn view(&self) -> Seq<(C, C, C)> {
        self.stars@
    }

    pub closed spec fn spec_width(&self) -> C {
        self.width
    }

    pub closed spec fn spec_height(&self) -> C {
        self.height
    }

    /// A field holding `stars`, in that order, for a viewport of
    /// `width` by `height`.
    pub fn new(stars: Vec<(C, C, C)>, width: C, height: C) -> (r: Self)
        ensures
            r@ == stars@,
            r.spec_width() == width,
            r.spec_height() == height,
    {
        Stars { stars, width, height }
    }

    pub fn width(&self) -> (r: C)
        ensures
            r == self.spec_width(),
    {
        self.width
    }

    pub fn height(&self) -> (r: C)
        ensures
            r == self.spec_height(),
    {
        self.height
    }

    /// The number of stars.
    pub fn len(&self) -> (r: usize)
        ensures
            r == self@.len(),
    {
        self.stars.len()
    }

    pub fn is_empty(&self) -> (r: bool)
        ensures
            r == (self@.len() == 0),
    {
        self.stars.len() == 0
    }

    /// Appends `new_stars` after the stars already there, keeping their order.
    pub fn add_star(&mut self, new_stars: Vec<(C, C, C)>)
        ensures
            final(self)@ == old(self)@ + new_stars@,
            final(self)@.len() == old(self)@.len() + new_stars@.len(),
            final(self).spec_width() == old(self).spec_width(),
            final(self).spec_height() == old(self).spec_height(),
    {
        let mut new_stars = new_stars;
        self.stars.append(&mut new_stars);
    }

    /// Removes up to `amount` stars from the end of the field; asking for
    /// more than there are empties it.
    pub fn delete_star(&mut self, amount: usize)
        ensures
            final(self)@.len() == old(self)@.len() - removed_count(
                old(self)@.len(),
                amount as nat,
            ),
            final(self)@ == old(self)@.take(final(self)@.len() as int),
            final(self).spec_width() == old(self).spec_width(),
            final(self).spec_height() == old(self).spec_height(),
    {
        let len = self.stars.len();
        let keep: usize = if amount <= len {
            len - amount
        } else {
            0
        };
        self.stars.truncate(keep);
    }

    /// Advances every star: its new `x` is `along_x(x, z)`, its new `y` is
    /// `along_y(y, z)`, and its depth `z` stays as it was.
    pub fn step<F, G>(&mut self, along_x: F, along_y: G)
        where
            F: Fn(C, C) -> C,
            G: Fn(C, C) -> C,
        requires
            forall|i: int|
                0 <= i < old(self)@.len() ==> along_x.requires((old(self)@[i].0, old(self)@[i].2)),
            forall|i: int|
                0 <= i < old(self)@.len() ==> along_y.requires((old(self)@[i].1, old(self)@[i].2)),
        ensures
            final(self)@.len() == old(self)@.len(),
            forall|i: int|
                0 <= i < final(self)@.len() ==> {
                    &&& (#[trigger] final(self)@[i]).2 == old(self)@[i].2
                    &&& along_x.ensures((old(self)@[i].0, old(self)@[i].2), final(self)@[i].0)
                    &&& along_y.ensures((old(self)@[i].1, old(self)@[i].2), final(self)@[i].1)
                },
            final(self).spec_width() == old(self).spec_width(),
            final(self).spec_height() == old(self).spec_height(),
    {
        let n = self.stars.len();
        let mut i: usize = 0;
        while i < n
            invariant
                0 <= i <= n,
                n == old(self)@.len(),
                self@.len() == n,
                self.width == old(self).width,
                self.height == old(self).height,
                forall|j: int| i <= j < n ==> self@[j] == old(self)@[j],
                forall|j: int|
                    0 <= j < n ==> along_x.requires((old(self)@[j].0, old(self)@[j].2)),
                forall|j: int|
                    0 <= j < n ==> along_y.requires((old(self)@[j].1, old(self)@[j].2)),
                forall|j: int|
                    0 <= j < i ==> {
                        &&& (#[trigger] self@[j]).2 == old(self)@[j].2
                        &&& along_x.ensures((old(self)@[j].0, old(self)@[j].2), self@[j].0)
                        &&& along_y.ensures((old(self)@[j].1, old(self)@[j].2), self@[j].1)
                    },
            decreases n - i,
        {
            let (x, y, z) = self.stars[i];
            let nx = along_x(x, z);
            let ny = along_y(y, z);
            self.stars.set(i, (nx, ny, z));
            i = i + 1;
        }
    }
}

} // verus!
