//! The errors of translation and of the store.

use vstd::prelude::*;

verus! {

/// Why a document contributed nothing, or why the store refused a call.
#[derive(Clone, Copy, Debug, PartialEq, Eq, Structural)]
pub enum Error {
    /// The bytes handed in were not a CoSERV document.
    DecodeError,
    /// The document has no results section.
    MissingResults,
    /// The results section is there but holds no result set.
    EmptyResultSet,
    /// The result set holds no quad that this translation understands.
    NoRelevantQuads,
    /// A condition or addition record was refused by its builder.
    RecordBuildError,
    /// The store was asked to take a CoRIM, which it does not hold.
    CapabilityMismatch,
}

impl Error {
    /// The text of the message, as a sequence of characters.
    pub open spec fn message_text(self) -> Seq<char> {
        match self {
            Error::DecodeError => "Failed to parse CoSERV from CBOR bytes."@,
            Error::MissingResults => "The CoSERV object has None in the result set."@,
            Error::EmptyResultSet => "The CoSERV object has not been populated with results."@,
            Error::NoRelevantQuads => "no relevant quads found in CoSERV result"@,
            Error::RecordBuildError => "the kind of an ECT must be set"@,
            Error::CapabilityMismatch =>
                "CoRIMs not supported - this store holds CoSERV results instead"@,
        }
    }

    /// The message that goes with this error.
    pub fn message(&self) -> (text: &'static str)
        ensures
            text@ == self.message_text(),
    {
        match self {
            Error::DecodeError => "Failed to parse CoSERV from CBOR bytes.",
            Error::MissingResults => "The CoSERV object has None in the result set.",
            Error::EmptyResultSet => "The CoSERV object has not been populated with results.",
            Error::NoRelevantQuads => "no relevant quads found in CoSERV result",
            Error::RecordBuildError => "the kind of an ECT must be set",
            Error::CapabilityMismatch =>
                "CoRIMs not supported - this store holds CoSERV results instead",
        }
    }
}

} // verus!
