use vstd::prelude::*;

verus! {

/// The failure kinds of the playback control core.
///
/// Every fallible operation of the library reports one of these; the
/// orchestrator never panics on an input it accepts.
#[derive(Clone, Copy, Debug, PartialEq, Eq, Structural)]
pub enum PlayerError {
    /// The playlist is empty, or a track identifier matched nothing.
    NotFound,
    /// The metadata call failed in transport or in parsing.
    FetchFailed,
    /// The probe of a candidate stream URL did not succeed.
    VerificationFailed,
    /// The whole retry budget was spent without a verified URL.
    ResolutionExhausted,
    /// The engine could not build or drive its pipeline.
    EngineFault,
    /// A volume outside the accepted range.
    InvalidVolume,
    /// An unrecognized play-mode name.
    InvalidMode,
}

} // verus!
