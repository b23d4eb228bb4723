//! Types of outside crates that the library carries through unchanged.
use vstd::prelude::*;

verus! {

/// An SDP offer or answer of the `rtc` crate, carried opaquely.
#[verifier::external_type_specification]
#[verifier::external_body]
pub struct ExRTCSessionDescription(rtc::peer_connection::sdp::RTCSessionDescription);

/// An ICE candidate of the `rtc` crate, carried opaquely.
#[verifier::external_type_specification]
#[verifier::external_body]
pub struct ExRTCIceCandidateInit(rtc::peer_connection::transport::RTCIceCandidateInit);

/// `Clone::clone` of `RTCSessionDescription`, which the `rtc` crate derives
/// (as it does for every field's type): the copy equals the original.
pub assume_specification[ <rtc::peer_connection::sdp::RTCSessionDescription as std::clone::Clone>::clone ](
    original: &rtc::peer_connection::sdp::RTCSessionDescription,
) -> (copy: rtc::peer_connection::sdp::RTCSessionDescription)
    ensures
        copy == *original,
;

/// `Clone::clone` of `RTCIceCandidateInit`, which the `rtc` crate derives:
/// the copy equals the original.
pub assume_specification[ <rtc::peer_connection::transport::RTCIceCandidateInit as std::clone::Clone>::clone ](
    original: &rtc::peer_connection::transport::RTCIceCandidateInit,
) -> (copy: rtc::peer_connection::transport::RTCIceCandidateInit)
    ensures
        copy == *original,
;

} // verus!
