use vstd::prelude::*;

verus! {

/// A rectangle of the screen, anchored at `pos`.
pub struct Window {
    pub pos: (usize, usize),
    pub width: usize,
    pub height: usize,
}

/// A single line of text drawn at `pos`, padded to `width`.
pub struct Text {
    pub pos: (usize, usize),
    pub width: usize,
    pub text: String,
}

/// A column of text lines with a marker at `index`.
pub struct List {
    pub pos: (usize, usize),
    pub width: usize,
    pub height: usize,
    pub index: usize,
    pub items: Vec<Text>,
}

impl List {
    /// Lays the items out: each one two columns right of the list and on its
    /// own row, trimmed to the list's width.
    pub fn init(&mut self)
        requires
            old(self).width >= 2,
            old(self).pos.0 + 2 <= usize::MAX,
            old(self).pos.1 + old(self).items@.len() <= usize::MAX,
        ensures
            final(self).pos == old(self).pos,
            final(self).width == old(self).width,
            final(self).height == old(self).height,
            final(self).index == old(self).index,
            final(self).items@.len() == old(self).items@.len(),
            forall|i: int| 0 <= i < old(self).items@.len() ==> {
                &&& (#[trigger] final(self).items@[i]).pos == (
                    (old(self).pos.0 + 2) as usize,
                    (old(self).pos.1 + i) as usize,
                )
                &&& final(self).items@[i].width == old(self).width - 2
                &&& final(self).items@[i].text@ == old(self).items@[i].text@
            },
    {
        let (x, y) = self.pos;
        let mut laid_out: Vec<Text> = Vec::new();
        let mut i: usize = 0;
        while i < self.items.len()
            invariant
                i <= self.items@.len(),
                self.width >= 2,
                x == self.pos.0,
                y == self.pos.1,
                x + 2 <= usize::MAX,
                y + self.items@.len() <= usize::MAX,
                laid_out@.len() == i,
                forall|k: int| 0 <= k < i ==> {
                    &&& (#[trigger] laid_out@[k]).pos == ((x + 2) as usize, (y + k) as usize)
                    &&& laid_out@[k].width == self.width - 2
                    &&& laid_out@[k].text@ == self.items@[k].text@
                },
            decreases self.items@.len() - i,
        {
            let row = Text {
                pos: (x + 2, y + i),
                width: self.width - 2,
                text: self.items[i].text.clone(),
            };
            laid_out.push(row);
            i += 1;
        }
        self.items = laid_out;
    }
}

} // verus!
