//! An alarm clock: a duration formatter for status lines, a scheduler that
//! decides when to wait and when to deliver, the choice of a speech command for
//! the host platform, and the bookkeeping that bounds a downloaded audio asset.
pub mod humanize;
pub mod provision;
pub mod runs;
pub mod scheduler;
pub mod speech;
