//! Flow live-tail history projection: the inclusive canonical history span a
//! Flow compositor may request for one Block. Open-ended running tails use
//! `end_line == u64::MAX`.

use vstd::prelude::*;

use crate::presentation::PresentationMode;

verus! {

#[derive(Clone, Copy, Debug, PartialEq, Eq, Structural)]
pub struct HistorySpan {
    pub start_line: u64,
    pub end_line: u64,
}

#[derive(Clone, Copy, Debug, PartialEq, Eq, Structural)]
pub enum LiveTailProjection {
    /// Inclusive canonical history span. `end_line == u64::MAX` is an open
    /// running tail; completed Blocks use a trusted finite end.
    Span(HistorySpan),
    /// Invalid, stale, or non-Flow evidence. Draw nothing for this Block.
    FailClosed,
}

/// The projection of one Block's history for the current presentation.
pub open spec fn spec_project(
    mode: PresentationMode,
    start_line: u64,
    end_line: Option<u64>,
    running: bool,
) -> LiveTailProjection {
    if mode != PresentationMode::Flow || start_line == 0 {
        LiveTailProjection::FailClosed
    } else if running && end_line.is_none() {
        LiveTailProjection::Span(HistorySpan { start_line, end_line: u64::MAX })
    } else if !running && end_line.is_some() && end_line.unwrap() >= start_line {
        LiveTailProjection::Span(HistorySpan { start_line, end_line: end_line.unwrap() })
    } else {
        LiveTailProjection::FailClosed
    }
}

/// Project one Block's history request. `end_line` is the Runtime-trusted
/// completed end, or `None` while running.
pub fn project_block_history(
    mode: PresentationMode,
    start_line: u64,
    end_line: Option<u64>,
    running: bool,
) -> (r: LiveTailProjection)
    ensures
        r == spec_project(mode, start_line, end_line, running),
{
    if mode != PresentationMode::Flow || start_line == 0 {
        return LiveTailProjection::FailClosed;
    }
    match (running, end_line) {
        (true, None) => LiveTailProjection::Span(HistorySpan { start_line, end_line: u64::MAX }),
        (false, Some(end)) => {
            if end >= start_line {
                LiveTailProjection::Span(HistorySpan { start_line, end_line: end })
            } else {
                LiveTailProjection::FailClosed
            }
        },
        _ => LiveTailProjection::FailClosed,
    }
}

/// Every projected span is well ordered and starts at the Block's own start
/// line: a host never receives an inverted or invented range.
pub proof fn projected_spans_are_ordered(
    mode: PresentationMode,
    start_line: u64,
    end_line: Option<u64>,
    running: bool,
)
    ensures
        spec_project(mode, start_line, end_line, running) matches LiveTailProjection::Span(s)
            ==> (s.start_line == start_line && 1 <= s.start_line <= s.end_line
            && mode == PresentationMode::Flow),
{
}

} // verus!
