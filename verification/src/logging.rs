use vstd::prelude::*;

verus! {

/// How much the command line logs.
#[derive(Debug, Clone, Copy, PartialEq, Eq, Structural)]
pub enum LogLevel {
    Warn,
    Info,
    Debug,
    Trace,
}

/// The level for `-v` given `verbose_count` times: none without `-v`, then warnings, info,
/// debug, and trace from four on.
pub open spec fn spec_log_level_filter(verbose_count: u8) -> Option<LogLevel> {
    if verbose_count == 0 {
        None
    } else if verbose_count == 1 {
        Some(LogLevel::Warn)
    } else if verbose_count == 2 {
        Some(LogLevel::Info)
    } else if verbose_count == 3 {
        Some(LogLevel::Debug)
    } else {
        Some(LogLevel::Trace)
    }
}

pub fn log_level_filter(verbose_count: u8) -> (r: Option<LogLevel>)
    ensures
        r == spec_log_level_filter(verbose_count),
{
    match verbose_count {
        0 => None,
        1 => Some(LogLevel::Warn),
        2 => Some(LogLevel::Info),
        3 => Some(LogLevel::Debug),
        _ => Some(LogLevel::Trace),
    }
}

/// No level without `-v`; each `-v` up to the fourth raises the level one step (warnings,
/// info, debug, trace), and more stay at trace.
pub proof fn lemma_log_levels(verbose_count: u8)
    ensures
        spec_log_level_filter(0) is None,
        spec_log_level_filter(1) == Some(LogLevel::Warn),
        spec_log_level_filter(2) == Some(LogLevel::Info),
        spec_log_level_filter(3) == Some(LogLevel::Debug),
        verbose_count >= 4 ==> spec_log_level_filter(verbose_count) == Some(LogLevel::Trace),
{
}

} // verus!
