use vstd::prelude::*;

verus! {

/// Where the viewport stands over the rendered lines.
#[derive(Clone, Copy, Debug, PartialEq, Eq, Structural)]
pub struct Scroll {
    /// How many lines there are to show.
    pub list_length: usize,
    /// The first line in view.
    pub position: usize,
    /// How many lines fit in the viewport.
    pub viewport_length: usize,
}

impl Scroll {
    /// A scroll over nothing, at the top.
    pub open spec fn initial() -> Scroll {
        Scroll { list_length: 0, position: 0, viewport_length: 0 }
    }

    /// The position from which the last lines fill the viewport: the lines that do not fit,
    /// or 0 where all of them fit.
    pub open spec fn bottom(self) -> usize {
        self.list_length.saturating_sub(self.viewport_length)
    }

    /// The same position over new bounds.
    pub open spec fn with_state(self, list_length: usize, viewport_length: usize) -> Scroll {
        Scroll { list_length, viewport_length, position: self.position }
    }

    /// The same bounds, with the last lines in view.
    pub open spec fn at_bottom(self) -> Scroll {
        Scroll { position: self.bottom(), ..self }
    }

    /// Takes new bounds. The position stays where it is.
    pub fn set_state(&mut self, list_length: usize, viewport_length: usize)
        ensures
            *final(self) == old(self).with_state(list_length, viewport_length),
    {
        self.list_length = list_length;
        self.viewport_length = viewport_length;
    }

    /// Brings the last lines into view.
    pub fn last(&mut self)
        ensures
            *final(self) == old(self).at_bottom(),
    {
        self.position = self.list_length.saturating_sub(self.viewport_length);
    }
}

impl Default for Scroll {
    fn default() -> (scroll: Scroll)
        ensures
            scroll == Scroll::initial(),
    {
        Scroll { list_length: 0, position: 0, viewport_length: 0 }
    }
}

} // verus!
