use vstd::prelude::*;

verus! {

/// The data columns of a change, in the order of their column index.
#[derive(Debug, Clone, Copy, Eq, PartialEq, Ord, PartialOrd)]
pub enum ChangeColumn {
    Commit,
    Number,
    Owner,
    Time,
    Project,
    Branch,
    Topic,
    Status,
    Subject,
}

impl ChangeColumn {
    /// The column index of this change column in a table row (0 for `Commit`, up to 8
    /// for `Subject`).
    pub open spec fn spec_index(self) -> u8 {
        match self {
            ChangeColumn::Commit => 0,
            ChangeColumn::Number => 1,
            ChangeColumn::Owner => 2,
            ChangeColumn::Time => 3,
            ChangeColumn::Project => 4,
            ChangeColumn::Branch => 5,
            ChangeColumn::Topic => 6,
            ChangeColumn::Status => 7,
            ChangeColumn::Subject => 8,
        }
    }

    /// The column index of this change column in a table row.
    pub fn index(self) -> (i: u8)
        ensures
            i == self.spec_index(),
    {
        match self {
            ChangeColumn::Commit => 0,
            ChangeColumn::Number => 1,
            ChangeColumn::Owner => 2,
            ChangeColumn::Time => 3,
            ChangeColumn::Project => 4,
            ChangeColumn::Branch => 5,
            ChangeColumn::Topic => 6,
            ChangeColumn::Status => 7,
            ChangeColumn::Subject => 8,
        }
    }
}

} // verus!
