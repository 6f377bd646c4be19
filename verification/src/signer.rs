//! The key that a validator signs with, and what it is asked to sign.

use crate::types::{Author, PublicKey};
use vstd::prelude::*;

verus! {

/// A consensus key pair, exported from storage.
#[derive(Clone, Copy, PartialEq, Eq)]
pub struct ConsensusKey {
    pub public_key: PublicKey,
    pub private_key: [u8; 32],
}

/// A validator's signer: either the key itself, or the version of a key that
/// never leaves storage.
#[derive(PartialEq, Eq)]
pub enum ConfigurableValidatorSigner {
    Signer { author: Author, consensus_key: ConsensusKey },
    Handle { author: Author, key_version: PublicKey },
}

impl ConfigurableValidatorSigner {
    /// The account that the signer signs for.
    pub open spec fn spec_author(self) -> Author {
        match self {
            ConfigurableValidatorSigner::Signer { author, .. } => author,
            ConfigurableValidatorSigner::Handle { author, .. } => author,
        }
    }

    /// The key that the signer's signatures verify under.
    pub open spec fn spec_public_key(self) -> PublicKey {
        match self {
            ConfigurableValidatorSigner::Signer { consensus_key, .. } => consensus_key.public_key,
            ConfigurableValidatorSigner::Handle { key_version, .. } => key_version,
        }
    }

    /// A signer that holds its key.
    pub fn new_signer(author: Author, consensus_key: ConsensusKey) -> (r: Self)
        ensures
            r == (ConfigurableValidatorSigner::Signer { author, consensus_key }),
    {
        ConfigurableValidatorSigner::Signer { author, consensus_key }
    }

    /// A signer whose key stays in storage.
    pub fn new_handle(author: Author, key_version: PublicKey) -> (r: Self)
        ensures
            r == (ConfigurableValidatorSigner::Handle { author, key_version }),
    {
        ConfigurableValidatorSigner::Handle { author, key_version }
    }

    pub fn author(&self) -> (r: &Author)
        ensures
            *r == self.spec_author(),
    {
        match self {
            ConfigurableValidatorSigner::Signer { author, .. } => author,
            ConfigurableValidatorSigner::Handle { author, .. } => author,
        }
    }

    pub fn public_key(&self) -> (r: PublicKey)
        ensures
            r == self.spec_public_key(),
    {
        match self {
            ConfigurableValidatorSigner::Signer { consensus_key, .. } => consensus_key.public_key,
            ConfigurableValidatorSigner::Handle { key_version, .. } => *key_version,
        }
    }
}

impl Clone for ConfigurableValidatorSigner {
    fn clone(&self) -> (r: Self)
        ensures
            r == *self,
    {
        match self {
            ConfigurableValidatorSigner::Signer { author, consensus_key } =>
                ConfigurableValidatorSigner::Signer {
                    author: author.clone(),
                    consensus_key: *consensus_key,
                },
            ConfigurableValidatorSigner::Handle { author, key_version } =>
                ConfigurableValidatorSigner::Handle {
                    author: author.clone(),
                    key_version: *key_version,
                },
        }
    }
}

/// A request to sign `message` with `signer`. Only the rules make one.
#[must_use]
pub struct SigningRequest<'a, M> {
    pub(crate) signer: &'a ConfigurableValidatorSigner,
    pub(crate) message: &'a M,
}

impl<'a, M> SigningRequest<'a, M> {
    pub open(crate) spec fn spec_signer(self) -> ConfigurableValidatorSigner {
        *self.signer
    }

    pub open(crate) spec fn spec_message(self) -> M {
        *self.message
    }

    /// The signer that is to sign.
    pub fn signer(&self) -> (r: &'a ConfigurableValidatorSigner)
        ensures
            *r == self.spec_signer(),
    {
        self.signer
    }

    /// What is to be signed.
    pub fn message(&self) -> (r: &'a M)
        ensures
            *r == self.spec_message(),
    {
        self.message
    }
}

} // verus!
