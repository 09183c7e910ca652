//! Window bookkeeping for a sticky-notes board: which window each command
//! addresses, what it should do to the set of open windows, and the layout
//! text kept on disk.

pub mod external;
pub mod label;
pub mod layout;
pub mod note;
pub mod overlay;
