//! The envelope in which an event travels: who sent it, what it is, and its
//! encoded body, which the library never opens.

use crate::ident::{fresh_id, ID_LENGTH};
use vstd::prelude::*;
use vstd::string::*;

verus! {

/// The version of the envelope format.
pub const SPEC_VERSION: &'static str = "1.0";

/// An event ready to be sent.
#[derive(Debug)]
pub struct Envelope {
    pub id: String,
    pub source: String,
    pub spec_version: String,
    pub kind: String,
    pub data_type: String,
    pub data: Vec<u8>,
}

/// The mathematical content of an [`Envelope`].
pub struct EnvelopeView {
    pub id: Seq<char>,
    pub source: Seq<char>,
    pub spec_version: Seq<char>,
    pub kind: Seq<char>,
    pub data_type: Seq<char>,
    pub data: Seq<u8>,
}

impl View for Envelope {
    type V = EnvelopeView;

    open spec fn view(&self) -> EnvelopeView {
        EnvelopeView {
            id: self.id@,
            source: self.source@,
            spec_version: self.spec_version@,
            kind: self.kind@,
            data_type: self.data_type@,
            data: self.data@,
        }
    }
}

/// The envelope with the given identifier, origin, kind and body.
pub open spec fn sealed(
    id: Seq<char>,
    source: Seq<char>,
    kind: Seq<char>,
    data_type: Seq<char>,
    data: Seq<u8>,
) -> EnvelopeView {
    EnvelopeView { id, source, spec_version: SPEC_VERSION@, kind, data_type, data }
}

impl Envelope {
    /// Puts an encoded body into an envelope under the identifier `id`.
    pub fn seal(id: String, source: &str, kind: &str, data_type: &str, data: Vec<u8>) -> (envelope:
        Envelope)
        ensures
            envelope@ == sealed(id@, source@, kind@, data_type@, data@),
    {
        Envelope {
            id,
            source: source.to_owned(),
            spec_version: SPEC_VERSION.to_owned(),
            kind: kind.to_owned(),
            data_type: data_type.to_owned(),
            data,
        }
    }

    /// Puts an encoded body into an envelope under a fresh identifier.
    pub fn seal_fresh(source: &str, kind: &str, data_type: &str, data: Vec<u8>) -> (envelope:
        Envelope)
        ensures
            envelope@ == sealed(envelope@.id, source@, kind@, data_type@, data@),
            envelope@.id.len() == ID_LENGTH,
    {
        Envelope::seal(fresh_id(), source, kind, data_type, data)
    }
}

} // verus!
