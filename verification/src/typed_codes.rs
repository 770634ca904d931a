//! One marker type per diagnostic code, carrying the code and its details payload type.

pub mod boundary;
pub mod protocol;
pub mod readable_warning;
