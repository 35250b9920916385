//! State and decisions of a panel applet that shows the trimmed output of a
//! status command, refreshed on a fixed interval.

pub mod output;
pub mod window;
