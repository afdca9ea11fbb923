//! The kernel log sink: formatted records kept one per row.

use vstd::prelude::*;
use crate::textbuffer::{Textbuffer, default_cell};

verus! {

/// Appends a formatted record to the log and starts a new row after it.
pub fn append_record(log: &mut Textbuffer, record: &str)
    requires
        old(log).wf(),
    ensures
        final(log).wf(),
        final(log).rows() == old(log).rows().update(
            old(log).rows().len() - 1,
            old(log).rows().last() + record@.map_values(|c: char| default_cell(c)),
        ).push(Seq::empty()),
{
    log.write_string(record);
    log.new_line();
}

} // verus!
