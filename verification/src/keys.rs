//! Typed containers for asymmetric key material.
//!
//! Themis works with two families of asymmetric keys, RSA and Elliptic
//! Curve (ECDSA). A key is an opaque byte sequence produced by the native
//! library, wrapped together with its algorithm family and its role
//! (private or public). A [`KeyPair`] joins one private and one public key
//! of the same family; the constructor demands matching families, so a
//! mixed pair can never be built. Keys are immutable once constructed.

use vstd::prelude::*;

verus! {

/// The algorithm family a key belongs to.
#[derive(Clone, Copy, Debug, PartialEq, Eq, Structural)]
pub enum KeyKind {
    /// An RSA key.
    Rsa,
    /// An Elliptic Curve (ECDSA) key.
    Ecdsa,
}

/// The private half of an asymmetric key pair.
///
/// The bytes are treated as opaque: they are stored exactly as the native
/// library produced them and are never parsed or modified here.
pub struct PrivateKey {
    kind: KeyKind,
    bytes: Vec<u8>,
}

impl PrivateKey {
    /// The algorithm family of this key.
    pub closed spec fn spec_kind(self) -> KeyKind {
        self.kind
    }

    /// The raw key material.
    pub closed spec fn spec_bytes(self) -> Seq<u8> {
        self.bytes@
    }

    /// Wraps owned key material of the given family. The bytes are taken
    /// as they are; no cryptographic validation happens here.
    pub fn from_bytes(bytes: Vec<u8>, kind: KeyKind) -> (key: PrivateKey)
        ensures
            key.spec_kind() == kind,
            key.spec_bytes() == bytes@,
    {
        PrivateKey { kind, bytes }
    }

    /// The algorithm family of this key.
    pub fn kind(&self) -> (kind: KeyKind)
        ensures
            kind == self.spec_kind(),
    {
        self.kind
    }

    /// Read-only access to the raw key material.
    pub fn as_bytes(&self) -> (bytes: &Vec<u8>)
        ensures
            bytes@ == self.spec_bytes(),
    {
        &self.bytes
    }
}

/// The public half of an asymmetric key pair.
///
/// The bytes are treated as opaque: they are stored exactly as the native
/// library produced them and are never parsed or modified here.
pub struct PublicKey {
    kind: KeyKind,
    bytes: Vec<u8>,
}

impl PublicKey {
    /// The algorithm family of this key.
    pub closed spec fn spec_kind(self) -> KeyKind {
        self.kind
    }

    /// The raw key material.
    pub closed spec fn spec_bytes(self) -> Seq<u8> {
        self.bytes@
    }

    /// Wraps owned key material of the given family. The bytes are taken
    /// as they are; no cryptographic validation happens here.
    pub fn from_bytes(bytes: Vec<u8>, kind: KeyKind) -> (key: PublicKey)
        ensures
            key.spec_kind() == kind,
            key.spec_bytes() == bytes@,
    {
        PublicKey { kind, bytes }
    }

    /// The algorithm family of this key.
    pub fn kind(&self) -> (kind: KeyKind)
        ensures
            kind == self.spec_kind(),
    {
        self.kind
    }

    /// Read-only access to the raw key material.
    pub fn as_bytes(&self) -> (bytes: &Vec<u8>)
        ensures
            bytes@ == self.spec_bytes(),
    {
        &self.bytes
    }
}

/// A matched pair of asymmetric keys: one private and one public key of
/// the same algorithm family.
pub struct KeyPair {
    private: PrivateKey,
    public: PublicKey,
}

impl KeyPair {
    /// The private half of the pair.
    pub closed spec fn spec_private(self) -> PrivateKey {
        self.private
    }

    /// The public half of the pair.
    pub closed spec fn spec_public(self) -> PublicKey {
        self.public
    }

    /// Both halves belong to the same algorithm family.
    pub open spec fn wf(self) -> bool {
        self.spec_private().spec_kind() == self.spec_public().spec_kind()
    }

    /// The algorithm family shared by both halves.
    pub open spec fn spec_kind(self) -> KeyKind {
        self.spec_private().spec_kind()
    }

    /// Joins a private and a public key into a pair. The two halves must
    /// belong to the same algorithm family; a mixed pair cannot be built.
    pub fn join(private_key: PrivateKey, public_key: PublicKey) -> (pair: KeyPair)
        requires
            private_key.spec_kind() == public_key.spec_kind(),
        ensures
            pair.spec_private() == private_key,
            pair.spec_public() == public_key,
            pair.wf(),
    {
        KeyPair { private: private_key, public: public_key }
    }

    /// Read-only access to the private half.
    pub fn private_key(&self) -> (key: &PrivateKey)
        ensures
            *key == self.spec_private(),
    {
        &self.private
    }

    /// Read-only access to the public half.
    pub fn public_key(&self) -> (key: &PublicKey)
        ensures
            *key == self.spec_public(),
    {
        &self.public
    }

    /// The algorithm family shared by both halves.
    pub fn kind(&self) -> (kind: KeyKind)
        ensures
            kind == self.spec_kind(),
    {
        self.private.kind()
    }

    /// Takes the pair apart into its two halves.
    pub fn split(self) -> (halves: (PrivateKey, PublicKey))
        ensures
            halves.0 == self.spec_private(),
            halves.1 == self.spec_public(),
    {
        (self.private, self.public)
    }
}

} // verus!
