//! The status-reading routes' shared compute part.
//!
//! The JSON and HTML routes all serve the same thing: the latest published
//! snapshot, read from the status cell without disturbing it. Serializing it
//! to JSON and rendering it into the HTML templates happen outside the
//! library.

use vstd::prelude::*;

use crate::status::{PrinterStatus, StatusWatch};

verus! {

/// The snapshot the status route serves: exactly the cell's current value.
/// Device unavailability never fails this route; the cell always holds the
/// last complete snapshot.
pub fn get_status(watch: &StatusWatch) -> (r: PrinterStatus)
    ensures
        r == watch@,
{
    watch.snapshot()
}

} // verus!
