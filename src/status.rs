//! The fixed-length status line: the supervisors write short phase texts to
//! it, and the display reads it back.
use vstd::prelude::*;
use vstd::string::StringSliceAdditionalSpecFns;
use vstd::utf8::valid_utf8;
use crate::error::ConversionError;

verus! {

/// Bytes of the status line: one display row of characters.
pub const STATUS_LEN: usize = 8;

/// The line holding `text`: its first bytes, at most `STATUS_LEN - 1` of
/// them, then zeros up to `STATUS_LEN`.
pub open spec fn status_bytes(text: Seq<u8>) -> Seq<u8> {
    Seq::new(
        STATUS_LEN as nat,
        |i: int|
            if i < text.len() && i < STATUS_LEN - 1 {
                text[i]
            } else {
                0u8
            },
    )
}

/// Relies on core::str::from_utf8: it accepts exactly the well-formed UTF-8
/// byte strings, and the text it returns holds the same bytes.
#[verifier::external_body]
fn decode_utf8(b: &[u8]) -> (r: Result<&str, core::str::Utf8Error>)
    ensures
        r is Ok <==> valid_utf8(b@),
        r matches Ok(s) ==> s.spec_bytes() == b@,
{
    core::str::from_utf8(b)
}

/// The shared status line.
pub struct StatusLine {
    bytes: Vec<u8>,
}

impl View for StatusLine {
    type V = Seq<u8>;

    closed spec fn view(&self) -> Seq<u8> {
        self.bytes@
    }
}

impl StatusLine {
    /// The line always holds exactly `STATUS_LEN` bytes.
    pub closed spec fn wf(&self) -> bool {
        self.bytes@.len() == STATUS_LEN
    }

    /// A blank line.
    pub fn new() -> (r: StatusLine)
        ensures
            r.wf(),
            r@ == status_bytes(Seq::<u8>::empty()),
    {
        let mut bytes: Vec<u8> = Vec::new();
        let mut i: usize = 0;
        while i < STATUS_LEN
            invariant
                i <= STATUS_LEN,
                bytes@.len() == i,
                forall|j: int| 0 <= j < i ==> bytes@[j] == 0u8,
            decreases STATUS_LEN - i,
        {
            bytes.push(0u8);
            i = i + 1;
        }
        let r = StatusLine { bytes };
        assert(r@ =~= status_bytes(Seq::<u8>::empty()));
        r
    }

    /// Replaces the line by `new_status`, cut to `STATUS_LEN - 1` bytes and
    /// padded with zeros.
    pub fn update_status(&mut self, new_status: &str) -> (r: Result<(), ConversionError>)
        requires
            old(self).wf(),
        ensures
            r is Ok,
            final(self).wf(),
            final(self)@ == status_bytes(new_status.spec_bytes()),
    {
        let text = new_status.as_bytes();
        let ghost src = new_status.spec_bytes();
        let mut i: usize = 0;
        while i < STATUS_LEN
            invariant
                self.wf(),
                i <= STATUS_LEN,
                text@ == src,
                forall|j: int| 0 <= j < i ==> self@[j] == #[trigger] status_bytes(src)[j],
            decreases STATUS_LEN - i,
        {
            let b: u8 = if i < text.len() && i < STATUS_LEN - 1 {
                text[i]
            } else {
                0u8
            };
            self.bytes.set(i, b);
            i = i + 1;
        }
        assert(self@ =~= status_bytes(src));
        Ok(())
    }

    /// The line as text, trailing zeros included; an error when cutting the
    /// last text split a character.
    pub fn text(&self) -> (r: Result<&str, ConversionError>)
        ensures
            r is Ok <==> valid_utf8(self@),
            r matches Ok(s) ==> s.spec_bytes() == self@,
    {
        match decode_utf8(self.bytes.as_slice()) {
            Ok(s) => Ok(s),
            Err(e) => Err(ConversionError::Utf(e)),
        }
    }
}

} // verus!
