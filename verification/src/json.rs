use vstd::prelude::*;

verus! {

/// A JSON document carried through the core as the raw bytes of its text.
///
/// The orchestration core never interprets a document: schemas, invocation
/// arguments and invocation results all travel in this form, and the only
/// structural fact the core ever relies on is whether a document is shaped
/// like a JSON object (it opens with `{` and closes with `}`).
#[derive(Debug, PartialEq, Eq)]
pub struct JsonDoc {
    pub bytes: Vec<u8>,
}

impl View for JsonDoc {
    type V = Seq<u8>;

    open spec fn view(&self) -> Seq<u8> {
        self.bytes@
    }
}

/// The bytes of the empty JSON object `{}`.
pub open spec fn empty_object_bytes() -> Seq<u8> {
    seq![123u8, 125u8]
}

/// Whether a document's bytes are shaped like a JSON object: the text opens
/// with `{` (byte 123) and closes with `}` (byte 125).
pub open spec fn object_shaped(s: Seq<u8>) -> bool {
    &&& s.len() >= 2
    &&& s[0] == 123u8
    &&& s[s.len() - 1] == 125u8
}

impl JsonDoc {
    /// The empty JSON object `{}`, the default schema for a definition whose
    /// source supplies none.
    pub fn empty_object() -> (r: JsonDoc)
        ensures
            r@ == empty_object_bytes(),
            object_shaped(r@),
    {
        let mut bytes: Vec<u8> = Vec::new();
        bytes.push(123u8);
        bytes.push(125u8);
        proof {
            assert(bytes@ =~= empty_object_bytes());
        }
        JsonDoc { bytes }
    }

    /// Wraps raw bytes as a document, uninterpreted.
    pub fn from_bytes(bytes: Vec<u8>) -> (r: JsonDoc)
        ensures
            r@ == bytes@,
    {
        JsonDoc { bytes }
    }

    /// Whether this document is shaped like a JSON object.
    pub fn is_object(&self) -> (b: bool)
        ensures
            b == object_shaped(self@),
    {
        if self.bytes.len() < 2 {
            false
        } else {
            self.bytes[0] == 123u8 && self.bytes[self.bytes.len() - 1] == 125u8
        }
    }

    /// An identical copy of the document.
    pub fn clone_doc(&self) -> (r: JsonDoc)
        ensures
            r@ == self@,
    {
        let bytes = self.bytes.clone();
        proof {
            assert(bytes@ =~= self.bytes@);
        }
        JsonDoc { bytes }
    }
}

} // verus!
