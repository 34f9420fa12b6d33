use vstd::prelude::*;
use crate::items::TargetData;

verus! {

/// Display geometry of a view.
#[derive(Clone, Copy, Debug, PartialEq, Eq, Structural)]
pub struct Rect {
    pub x: u16,
    pub y: u16,
    pub width: u16,
    pub height: u16,
}

impl Rect {
    pub fn new(x: u16, y: u16, width: u16, height: u16) -> (r: Rect)
        ensures
            r == (Rect { x, y, width, height }),
    {
        Rect { x, y, width, height }
    }
}

/// Which view a screen shows, with the view's own parameter.
#[derive(Clone, Debug, PartialEq, Eq)]
pub enum ScreenKind {
    Status,
    Log(Option<String>),
    Show(String),
    ShowRefs,
}

/// One selectable line of a view.
#[derive(Clone, Debug, PartialEq, Eq)]
pub struct Item {
    pub display: String,
    pub target_data: Option<TargetData>,
}

/// One entry of the navigation stack.
#[derive(Debug, PartialEq, Eq)]
pub struct Screen {
    pub kind: ScreenKind,
    pub size: Rect,
    pub items: Vec<Item>,
    pub cursor: usize,
}

impl Screen {
    /// The cursor points at an item, or is zero when there is none.
    pub open spec fn wf(&self) -> bool {
        if self.items@.len() == 0 {
            self.cursor == 0
        } else {
            self.cursor < self.items@.len()
        }
    }

    /// What the selected item carries, if anything is selected.
    pub open spec fn selected(&self) -> Option<TargetData> {
        if self.cursor < self.items@.len() {
            self.items@[self.cursor as int].target_data
        } else {
            None
        }
    }

    /// A screen of the given kind and geometry that has not been filled yet.
    pub fn create(kind: ScreenKind, size: Rect) -> (r: Screen)
        ensures
            r.wf(),
            r.kind == kind,
            r.size == size,
            r.items@.len() == 0,
            r.cursor == 0,
    {
        Screen { kind, size, items: Vec::new(), cursor: 0 }
    }

    /// Replaces the items with freshly derived ones; the cursor stays where it was,
    /// moved back onto the last item when the list got shorter.
    pub fn set_items(&mut self, items: Vec<Item>)
        ensures
            final(self).items@ == items@,
            final(self).kind == old(self).kind,
            final(self).size == old(self).size,
            final(self).wf(),
            old(self).cursor < items@.len() ==> final(self).cursor == old(self).cursor,
            old(self).cursor >= items@.len() && items@.len() > 0 ==> final(self).cursor
                == items@.len() - 1,
    {
        let n = items.len();
        self.items = items;
        if self.cursor >= n {
            self.cursor = if n > 0 {
                n - 1
            } else {
                0
            };
        }
    }

    /// Moves the selection to `index`, when that is an item.
    pub fn select(&mut self, index: usize)
        requires
            old(self).wf(),
        ensures
            final(self).wf(),
            final(self).kind == old(self).kind,
            final(self).size == old(self).size,
            final(self).items == old(self).items,
            final(self).cursor == (if index < old(self).items@.len() {
                index
            } else {
                old(self).cursor
            }),
    {
        if index < self.items.len() {
            self.cursor = index;
        }
    }

    pub fn selected_target(&self) -> (r: Option<&TargetData>)
        ensures
            match r {
                Some(t) => self.selected() == Some(*t),
                None => self.selected() is None,
            },
    {
        if self.cursor < self.items.len() {
            match &self.items[self.cursor].target_data {
                Some(t) => Some(t),
                None => None,
            }
        } else {
            None
        }
    }
}

} // verus!
