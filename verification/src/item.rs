//! A single captured log record.

use vstd::prelude::*;

verus! {

/// The mathematical model of a record: its level, module and message as
/// character sequences.
pub type ItemModel = (Seq<char>, Seq<char>, Seq<char>);

/// A log record: the severity label, the originating module, and the
/// rendered message text. Immutable once created.
#[derive(Debug, Clone)]
pub struct LogItem {
    pub level: String,
    pub module: String,
    pub message: String,
}

impl View for LogItem {
    type V = (Seq<char>, Seq<char>, Seq<char>);

    open spec fn view(&self) -> Self::V {
        (self.level@, self.module@, self.message@)
    }
}

} // verus!
