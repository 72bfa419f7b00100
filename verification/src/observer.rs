//! The weather-observer idiom works on floating-point measurements, which the
//! verified core cannot hold; the subject, the observers and their displays
//! live with the application around the library. What remains here is the
//! logging contract those displays implement.

use vstd::prelude::*;

verus! {

/// An element that keeps a log of what it has shown: it can append a line for
/// its current data and hand the accumulated lines out.
pub trait LoggingElement {
    fn log_data(&mut self);

    fn get_logs(&self) -> &Vec<String>;
}

} // verus!
