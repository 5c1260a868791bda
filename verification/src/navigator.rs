//! Selection state over a listed directory.

use vstd::prelude::*;

verus! {

/// A cursor over the entries of one directory listing.
#[derive(Debug)]
pub struct FileNavigator {
    pub entries: Vec<String>,
    pub selected_index: usize,
}

impl FileNavigator {
    /// A navigator over an already-listed directory; the selection starts
    /// at the first entry.
    pub fn new(entries: Vec<String>) -> (r: FileNavigator)
        ensures
            r.entries@ == entries@,
            r.selected_index == 0,
    {
        FileNavigator { entries, selected_index: 0 }
    }

    /// Move the selection down one entry, stopping at the last.
    pub fn next(&mut self)
        ensures
            final(self).entries@ == old(self).entries@,
            old(self).selected_index + 1 < old(self).entries@.len() ==> final(self).selected_index
                == old(self).selected_index + 1,
            old(self).selected_index + 1 >= old(self).entries@.len() ==> final(self).selected_index
                == old(self).selected_index,
    {
        if self.selected_index < self.entries.len() && self.selected_index + 1 < self.entries.len()
        {
            self.selected_index = self.selected_index + 1;
        }
    }

    /// Move the selection up one entry, stopping at the first.
    pub fn previous(&mut self)
        ensures
            final(self).entries@ == old(self).entries@,
            old(self).selected_index > 0 ==> final(self).selected_index == old(self).selected_index
                - 1,
            old(self).selected_index == 0 ==> final(self).selected_index == 0,
    {
        if self.selected_index > 0 {
            self.selected_index = self.selected_index - 1;
        }
    }

    /// The entry under the cursor, if the cursor is in range.
    pub fn selected(&self) -> (r: Option<&String>)
        ensures
            (match r {
                Some(s) => self.selected_index < self.entries@.len() && s == self.entries@[
                    self.selected_index as int
                ],
                None => self.selected_index >= self.entries@.len(),
            }),
    {
        if self.selected_index < self.entries.len() {
            Some(&self.entries[self.selected_index])
        } else {
            None
        }
    }
}

} // verus!
