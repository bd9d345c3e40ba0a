//! The envelope in which every piece of data leaves for the status bar.

use vstd::prelude::*;

verus! {

/// One emitted object: `ok` is 1 and `data` is present where there is something to show,
/// `ok` is 0 and `data` is absent where there is not.
#[derive(Debug)]
pub struct Output<T> {
    pub ok: u8,
    pub data: Option<T>,
}

impl<T> Output<T> {
    /// Whether the flag says what the data says.
    pub open spec fn well_formed(self) -> bool {
        self.ok == (if self.data is Some {
            1u8
        } else {
            0u8
        })
    }

    /// Wraps what there is to show.
    pub fn new(info: Option<T>) -> (output: Output<T>)
        ensures
            output.data == info,
            output.well_formed(),
    {
        match info {
            Some(data) => Output { ok: 1, data: Some(data) },
            None => Output { ok: 0, data: None },
        }
    }
}

} // verus!
