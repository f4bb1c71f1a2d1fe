use vstd::prelude::*;

verus! {

// region: Certification Envelope
/// The kind of certification envelope an asset must respect in an
/// optimization: a range of maximum certified powers per direction, or a
/// linear tradeoff between upward and downward reserve.
#[derive(Debug, Clone, Copy, PartialEq, Eq, Structural)]
pub enum CertifiedEnvelope {
    CertifiedOperatingRange,
    CertificationTradeoffLine,
}
// endregion: Certification Envelope

} // verus!
