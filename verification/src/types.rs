//! The identifiers that the protocol carries.

use vstd::prelude::*;
use vstd::slice::slice_to_vec;
use vstd::string::*;

use crate::protocol::serde::{Encode, Parse, Parser, ParserError};
use crate::protocol::text::{hex, hex_text, join3, lemma_hex_text_len};

verus! {

/// The number of a task, chosen by the client and unique on its connection.
pub type TaskId = u64;

/// The digest under which a file is stored: sixty-four bytes.
#[derive(Debug, Clone, Copy, PartialEq, Eq)]
pub struct ContentId([u8; 64]);

impl View for ContentId {
    type V = Seq<u8>;

    closed spec fn view(&self) -> Seq<u8> {
        self.0@
    }
}

impl ContentId {
    /// An identifier has sixty-four bytes.
    pub proof fn lemma_len(self)
        ensures
            self@.len() == 64,
    {
    }

    /// Takes the sixty-four bytes of `slice` as an identifier.
    pub fn from_slice(slice: &[u8]) -> (id: Self)
        requires
            slice@.len() == 64,
        ensures
            id@ == slice@,
    {
        let mut bytes: [u8; 64] = [0u8; 64];
        let mut i: usize = 0;
        while i < 64
            invariant
                i <= 64,
                slice@.len() == 64,
                forall|j: int| 0 <= j < i ==> bytes@[j] == slice@[j],
            decreases 64 - i,
        {
            bytes[i] = slice[i];
            i += 1;
        }
        proof {
            assert(bytes@ =~= slice@);
        }
        ContentId(bytes)
    }

    /// The sixty-four bytes.
    pub fn as_bytes(&self) -> (bytes: &[u8])
        ensures
            bytes@ == self@,
    {
        self.0.as_slice()
    }

    /// The identifier in hexadecimal: 128 lower-case digits, two for each byte.
    pub fn to_string(&self) -> (text: String)
        ensures
            text@ == hex_text(self@),
            text@.len() == 128,
    {
        proof {
            lemma_hex_text_len(self@);
        }
        hex(self.0.as_slice())
    }

    /// The identifier as debugging output shows it.
    pub fn debug_string(&self) -> (text: String)
        ensures
            text@ == "ContentId ("@ + hex_text(self@) + ")"@,
    {
        let digits = self.to_string();
        join3("ContentId (", digits.as_str(), ")")
    }

}

impl Encode for ContentId {
    open spec fn wire(value: Seq<u8>) -> Seq<u8> {
        value
    }

    fn encode(self) -> (bytes: Vec<u8>) {
        slice_to_vec(self.0.as_slice())
    }
}

/// What a read of an identifier at `position` finds.
pub open spec fn content_id_at(data: Seq<u8>, position: nat) -> Result<
    (Seq<u8>, nat),
    ParserError,
> {
    if position + 64 > data.len() {
        Err(ParserError::Overflow)
    } else {
        Ok((data.subrange(position as int, (position + 64) as int), position + 64))
    }
}

impl Parse for ContentId {
    open spec fn parsed(data: Seq<u8>, position: nat) -> Result<(Seq<u8>, nat), ParserError> {
        content_id_at(data, position)
    }

    fn parse_from(parser: &mut Parser) -> (r: Result<ContentId, ParserError>) {
        match parser.next(64) {
            Ok(bytes) => Ok(ContentId::from_slice(bytes)),
            Err(e) => Err(e),
        }
    }
}

} // verus!
