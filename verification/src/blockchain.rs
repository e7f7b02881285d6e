//! What a transaction is handed when it executes, and how it reports failure.

use vstd::prelude::*;
use vstd::std_specs::cmp::PartialEqSpecImpl;

use crate::crypto::{self, PublicKey};
use crate::storage::Fork;

verus! {

/// The surroundings of one executing transaction: the fork it writes to, its
/// own hash and the key of its author.
#[derive(Debug)]
pub struct TransactionContext<'a> {
    pub fork: &'a mut Fork,
    pub tx_hash: crypto::Hash,
    pub author: PublicKey,
}

impl<'a> TransactionContext<'a> {
    /// The context of a transaction over a fork.
    pub fn new(fork: &'a mut Fork, tx_hash: crypto::Hash, author: PublicKey) -> (context: Self)
        ensures
            *context.fork == *old(fork),
            *final(context.fork) == *final(fork),
            context.tx_hash == tx_hash,
            context.author == author,
    {
        TransactionContext { fork, tx_hash, author }
    }

    /// The fork that the transaction writes to.
    pub fn fork(&mut self) -> (fork: &mut Fork)
        ensures
            *fork == *old(self).fork,
            *final(self).fork == *final(fork),
            final(self).tx_hash == old(self).tx_hash,
            final(self).author == old(self).author,
            *final(final(self).fork) == *final(old(self).fork),
    {
        &mut *self.fork
    }

    /// Hash of the executing transaction.
    pub fn tx_hash(&self) -> (hash: crypto::Hash)
        ensures
            hash == self.tx_hash,
    {
        self.tx_hash
    }

    /// Key of the author of the executing transaction.
    pub fn author(&self) -> (key: PublicKey)
        ensures
            key == self.author,
    {
        self.author
    }
}

/// The recorded outcome of a failed transaction: a code that is stable
/// across versions, and a description for people.
#[derive(Debug)]
pub struct ExecutionError {
    pub code: u8,
    pub description: Option<String>,
}

/// An execution error as pure values.
pub struct ExecutionErrorView {
    pub code: u8,
    pub description: Option<Seq<char>>,
}

impl View for ExecutionError {
    type V = ExecutionErrorView;

    open spec fn view(&self) -> ExecutionErrorView {
        ExecutionErrorView {
            code: self.code,
            description: match self.description {
                Some(text) => Some(text@),
                None => None,
            },
        }
    }
}

impl ExecutionError {
    /// An error with a code and no description.
    pub fn new(code: u8) -> (error: ExecutionError)
        ensures
            error@ == (ExecutionErrorView { code, description: None }),
    {
        ExecutionError { code, description: None }
    }

    /// An error with a code and a description.
    pub fn with_description(code: u8, description: String) -> (error: ExecutionError)
        ensures
            error@ == (ExecutionErrorView { code, description: Some(description@) }),
    {
        ExecutionError { code, description: Some(description) }
    }
}

impl PartialEq for ExecutionError {
    fn eq(&self, other: &ExecutionError) -> (r: bool) {
        let same_text = match (&self.description, &other.description) {
            (Some(a), Some(b)) => *a == *b,
            (None, None) => true,
            _ => false,
        };
        self.code == other.code && same_text
    }
}

impl PartialEqSpecImpl for ExecutionError {
    open spec fn obeys_eq_spec() -> bool {
        true
    }

    open spec fn eq_spec(&self, other: &ExecutionError) -> bool {
        self@ == other@
    }
}

/// The outcome of a transaction.
pub type ExecutionResult = Result<(), ExecutionError>;

} // verus!
