//! Generating key material.
//!
//! The native Themis key generators use a two-phase length negotiation:
//! called with absent buffers, a generator reports "buffer too small" and
//! writes the required byte counts into its length parameters (the probe
//! call); called again with buffers of exactly those sizes, it generates
//! the keys, fills the buffers, and reports how many bytes it wrote (the
//! fill call).
//!
//! This module holds every decision of that protocol. The native calls
//! themselves reach it through the [`KeyGenPrimitive`] trait, so the logic
//! here is stated and checked for every reply the primitive could give:
//! which probe replies allow a fill call, which statuses abort the
//! operation, and when a reply is so far out of contract (more bytes than
//! were reserved, or an empty key on success) that it must be treated as
//! corruption rather than as an ordinary error.

use vstd::prelude::*;

use crate::error::{spec_kind_of, Error, ErrorKind};
use crate::keys::{KeyKind, KeyPair, PrivateKey, PublicKey};

verus! {

/// What the native generator reported to a probe call: a status code and
/// the number of bytes required for each half of the key pair.
pub struct SizeReport {
    /// The raw native status code of the probe call.
    pub status: i32,
    /// The reported byte count required for the private key.
    pub private_len: usize,
    /// The reported byte count required for the public key.
    pub public_len: usize,
}

/// What the native generator returned to a fill call: a status code and
/// the bytes written into each of the two buffers. The length of each
/// vector is the byte count the generator reported as written.
pub struct FillReport {
    /// The raw native status code of the fill call.
    pub status: i32,
    /// The bytes written for the private key.
    pub private_key: Vec<u8>,
    /// The bytes written for the public key.
    pub public_key: Vec<u8>,
}

/// The native key generator, one entry point per algorithm family, seen
/// through the two phases of the length negotiation.
///
/// Implementations are unverified: the real one calls into the native
/// library, and test doubles may reply anything at all. Nothing is assumed
/// about a reply; the functions below state what they guarantee for every
/// possible one.
pub trait KeyGenPrimitive {
    /// The probe call: asks the generator of the given family how many
    /// bytes each half of a key pair needs.
    fn probe(&mut self, kind: KeyKind) -> SizeReport;

    /// The fill call: asks the generator of the given family to produce a
    /// key pair into buffers of the given capacities.
    fn fill(&mut self, kind: KeyKind, private_capacity: usize, public_capacity: usize)
        -> FillReport;
}

/// How one generation attempt ended.
pub enum GenOutcome {
    /// The negotiation succeeded and produced a matched key pair.
    Pair(KeyPair),
    /// A native call reported a status that aborts the operation.
    Failed(Error),
    /// The generator broke its output contract: a successful fill call
    /// returned more bytes than were reserved for it, or returned an empty
    /// key. This signals memory corruption across the native boundary and
    /// must be treated as fatal by the caller, never as a recoverable
    /// error.
    Corrupted,
}

/// A successful fill reply stays within the negotiated sizes: each key got
/// at least one byte and no more than the capacity reserved for it.
pub open spec fn fill_fits(
    report: FillReport,
    private_reserved: usize,
    public_reserved: usize,
) -> bool {
    &&& 0 < report.private_key@.len() <= private_reserved
    &&& 0 < report.public_key@.len() <= public_reserved
}

/// Decides the probe phase: a "buffer too small" status is the expected
/// answer and yields the required private and public key sizes; any other
/// status (success included, which absent buffers cannot honestly report)
/// aborts the operation with that status.
pub fn evaluate_probe(report: &SizeReport) -> (r: Result<(usize, usize), Error>)
    ensures
        spec_kind_of(report.status) == ErrorKind::BufferTooSmall ==> (r matches Ok(sizes)
            && sizes.0 == report.private_len && sizes.1 == report.public_len),
        spec_kind_of(report.status) != ErrorKind::BufferTooSmall ==> (r matches Err(e)
            && e.spec_code() == report.status),
{
    let error = Error::from_themis_status(report.status);
    if error.kind() != ErrorKind::BufferTooSmall {
        Err(error)
    } else {
        Ok((report.private_len, report.public_len))
    }
}

/// Decides the fill phase. A status other than success aborts the
/// operation with that status and no key pair is built. On success the
/// written bytes must fit the reserved capacities and must not be empty;
/// a reply outside those bounds is [`GenOutcome::Corrupted`]. Otherwise
/// the two buffers become the private and the public key of the given
/// family, joined into a pair.
pub fn evaluate_fill(
    kind: KeyKind,
    private_reserved: usize,
    public_reserved: usize,
    report: FillReport,
) -> (r: GenOutcome)
    ensures
        spec_kind_of(report.status) != ErrorKind::Success ==> (r matches GenOutcome::Failed(e)
            && e.spec_code() == report.status),
        spec_kind_of(report.status) == ErrorKind::Success && !fill_fits(
            report,
            private_reserved,
            public_reserved,
        ) ==> r is Corrupted,
        spec_kind_of(report.status) == ErrorKind::Success && fill_fits(
            report,
            private_reserved,
            public_reserved,
        ) ==> (r matches GenOutcome::Pair(pair) && pair.wf()
            && pair.spec_private().spec_kind() == kind
            && pair.spec_public().spec_kind() == kind
            && pair.spec_private().spec_bytes() == report.private_key@
            && pair.spec_public().spec_bytes() == report.public_key@),
{
    let FillReport { status, private_key, public_key } = report;
    let error = Error::from_themis_status(status);
    if error.kind() != ErrorKind::Success {
        return GenOutcome::Failed(error);
    }
    let private_fits = 0 < private_key.len() && private_key.len() <= private_reserved;
    let public_fits = 0 < public_key.len() && public_key.len() <= public_reserved;
    if !private_fits || !public_fits {
        return GenOutcome::Corrupted;
    }
    let private_key = PrivateKey::from_bytes(private_key, kind);
    let public_key = PublicKey::from_bytes(public_key, kind);
    GenOutcome::Pair(KeyPair::join(private_key, public_key))
}

/// Generates a key pair of the given family through one round of the
/// two-phase negotiation: probe for the required sizes, and if the probe
/// answered as expected, fill buffers of exactly those sizes.
///
/// Whatever the primitive replies, a returned pair is well formed: both
/// halves carry the requested family and neither is empty. The first
/// reply that deviates from the protocol aborts the round, so after a
/// rejected probe no fill call is made.
pub fn gen_key_pair<P: KeyGenPrimitive>(primitive: &mut P, kind: KeyKind) -> (r: GenOutcome)
    ensures
        r matches GenOutcome::Pair(pair) ==> pair.wf()
            && pair.spec_private().spec_kind() == kind
            && pair.spec_public().spec_kind() == kind
            && pair.spec_private().spec_bytes().len() > 0
            && pair.spec_public().spec_bytes().len() > 0,
{
    let sizes = primitive.probe(kind);
    match evaluate_probe(&sizes) {
        Err(error) => GenOutcome::Failed(error),
        Ok((private_len, public_len)) => {
            let filled = primitive.fill(kind, private_len, public_len);
            evaluate_fill(kind, private_len, public_len, filled)
        },
    }
}

/// Generates a pair of RSA keys with the given primitive.
///
/// A returned pair is well formed: both halves are tagged RSA and neither
/// is empty. Any native status out of protocol order ends the round as
/// [`GenOutcome::Failed`] or [`GenOutcome::Corrupted`] instead.
pub fn gen_rsa_key_pair<P: KeyGenPrimitive>(primitive: &mut P) -> (r: GenOutcome)
    ensures
        r matches GenOutcome::Pair(pair) ==> pair.wf()
            && pair.spec_private().spec_kind() == KeyKind::Rsa
            && pair.spec_public().spec_kind() == KeyKind::Rsa
            && pair.spec_private().spec_bytes().len() > 0
            && pair.spec_public().spec_bytes().len() > 0,
{
    gen_key_pair(primitive, KeyKind::Rsa)
}

/// Generates a pair of Elliptic Curve (ECDSA) keys with the given
/// primitive.
///
/// A returned pair is well formed: both halves are tagged ECDSA and
/// neither is empty. Any native status out of protocol order ends the
/// round as [`GenOutcome::Failed`] or [`GenOutcome::Corrupted`] instead.
pub fn gen_ec_key_pair<P: KeyGenPrimitive>(primitive: &mut P) -> (r: GenOutcome)
    ensures
        r matches GenOutcome::Pair(pair) ==> pair.wf()
            && pair.spec_private().spec_kind() == KeyKind::Ecdsa
            && pair.spec_public().spec_kind() == KeyKind::Ecdsa
            && pair.spec_private().spec_bytes().len() > 0
            && pair.spec_public().spec_bytes().len() > 0,
{
    gen_key_pair(primitive, KeyKind::Ecdsa)
}

} // verus!
