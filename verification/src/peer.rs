//! Who the remote is and how it was reached, as libp2p says it.
//!
//! The handler takes these values when a connection is established and looks at neither.

use vstd::prelude::*;

verus! {

/// `libp2p::PeerId`: the identity of a peer, carried as it is.
#[verifier::external_type_specification]
#[verifier::external_body]
pub struct ExPeerId(libp2p::PeerId);

/// `libp2p::core::ConnectedPoint`: the end of a connection that the local node is, with the
/// addresses involved, carried as it is.
#[verifier::external_type_specification]
#[verifier::external_body]
pub struct ExConnectedPoint(libp2p::core::ConnectedPoint);

} // verus!
