//! The error taxonomy of the telemetry core. Every failure mode degrades to
//! a smaller but still valid snapshot or an early, observable phase
//! transition; none is fatal to the host.

use vstd::prelude::*;

verus! {

/// Non-fatal failure modes of the telemetry subsystem.
#[derive(Clone, Copy, Debug, PartialEq, Eq, Structural)]
pub enum TelemetryError {
    /// The platform temperature query failed or yielded no usable reading;
    /// the snapshot degrades to externally-sourced fields for the tick.
    SensorUnavailable,
    /// The external sampling process failed to spawn; the session runs in
    /// sensor-only mode for its remaining lifetime.
    ProcessUnavailable,
    /// No new external record arrived within the bounded window; not an
    /// error, merely no new data this tick.
    ReadTimeout,
    /// A malformed record line; the line is dropped and the stream goes on.
    ParseError,
    /// A temperature read failed during a gated wait; the wait is canceled
    /// and the caller proceeds.
    CooldownReadFailure,
}

} // verus!
