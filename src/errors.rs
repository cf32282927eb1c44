use vstd::prelude::*;
use vstd::string::StringSliceAdditionalSpecFns;
use vstd::string::to_string_from_display_ensures;
use vstd::utf8::encode_utf8;

verus! {

#[verifier::external_type_specification]
#[verifier::external_body]
pub struct ExEu4Error(eu4save::Eu4Error);

#[verifier::external_type_specification]
#[verifier::external_body]
pub struct ExCk3Error(ck3save::Ck3Error);

#[verifier::external_type_specification]
#[verifier::external_body]
pub struct ExImperatorError(imperator_save::ImperatorError);

#[verifier::external_type_specification]
#[verifier::external_body]
pub struct ExHoi4Error(hoi4save::Hoi4Error);

/// Why an operation on a save failed: an error of the game's own parser, or
/// a fault that was caught before it could cross the boundary.
#[derive(Debug)]
pub enum LibError {
    Eu4(eu4save::Eu4Error),
    Ck3(ck3save::Ck3Error),
    Imperator(imperator_save::ImperatorError),
    Hoi4(hoi4save::Hoi4Error),
    /// The save does not support what was asked of it.
    UnsupportedOperation(String),
    Panic,
}

/// The text that stands for a caught fault.
pub open spec fn panic_text() -> Seq<char> {
    "panic! Error message may be on stdout/stderr"@
}

impl LibError {
    /// The words that open the message of a parser error of this kind.
    pub open spec fn prefix(&self) -> Seq<char> {
        match self {
            LibError::Eu4(_) => "eu4 error: "@,
            LibError::Ck3(_) => "ck3 error: "@,
            LibError::Imperator(_) => "imperator error: "@,
            LibError::Hoi4(_) => "hoi4 error: "@,
            LibError::UnsupportedOperation(_) => "unsupported operation: "@,
            LibError::Panic => panic_text(),
        }
    }

    /// `msg` is a message for this error: the fixed text of a caught fault,
    /// or the kind's prefix followed by what the error displays (the string
    /// that `to_string` gives for it).
    pub open spec fn described_by(&self, msg: Seq<char>) -> bool {
        match self {
            LibError::Panic => msg == panic_text(),
            LibError::UnsupportedOperation(what) => msg == self.prefix() + what@,
            LibError::Eu4(e) => exists|shown: String|
                to_string_from_display_ensures::<eu4save::Eu4Error>(e, shown) && msg == self.prefix()
                    + shown@,
            LibError::Ck3(e) => exists|shown: String|
                to_string_from_display_ensures::<ck3save::Ck3Error>(e, shown) && msg == self.prefix()
                    + shown@,
            LibError::Imperator(e) => exists|shown: String|
                to_string_from_display_ensures::<imperator_save::ImperatorError>(e, shown) && msg
                    == self.prefix() + shown@,
            LibError::Hoi4(e) => exists|shown: String|
                to_string_from_display_ensures::<hoi4save::Hoi4Error>(e, shown) && msg == self.prefix()
                    + shown@,
        }
    }

    pub fn is_panic(&self) -> (r: bool)
        ensures
            r == (self is Panic),
    {
        match self {
            LibError::Panic => true,
            _ => false,
        }
    }

    /// The message of this error.
    pub fn message(&self) -> (r: String)
        ensures
            self.described_by(r@),
    {
        let (prefix, detail) = match self {
            LibError::Eu4(e) => ("eu4 error: ", e.to_string()),
            LibError::Ck3(e) => ("ck3 error: ", e.to_string()),
            LibError::Imperator(e) => ("imperator error: ", e.to_string()),
            LibError::Hoi4(e) => ("hoi4 error: ", e.to_string()),
            LibError::UnsupportedOperation(what) => ("unsupported operation: ", what.clone()),
            LibError::Panic => {
                return String::from_str("panic! Error message may be on stdout/stderr");
            },
        };
        assert(prefix@ == self.prefix());
        let r = with_prefix(prefix, detail);
        assert(r@ == self.prefix() + detail@);
        r
    }
}

/// `prefix` followed by `detail`.
fn with_prefix(prefix: &str, detail: String) -> (r: String)
    ensures
        r@ == prefix@ + detail@,
{
    let mut out = String::from_str(prefix);
    out.append(detail.as_str());
    out
}

/// An error message, computed once, that a caller copies out.
pub struct PdsError {
    msg: String,
}

impl PdsError {
    pub closed spec fn text(&self) -> Seq<char> {
        self.msg@
    }

    /// The message as UTF-8 bytes.
    pub closed spec fn bytes(&self) -> Seq<u8> {
        encode_utf8(self.msg@)
    }

    pub fn msg(&self) -> (r: &str)
        ensures
            r@ == self.text(),
            r.spec_bytes() == self.bytes(),
    {
        self.msg.as_str()
    }

    /// The message of `value`.
    pub fn from(value: &LibError) -> (r: PdsError)
        ensures
            value.described_by(r.text()),
    {
        PdsError { msg: value.message() }
    }

    /// Length of the message in bytes.
    pub fn len(&self) -> (r: usize)
        ensures
            r == self.bytes().len(),
    {
        let s = self.msg.as_str();
        s.as_bytes().len()
    }

    /// Copies the message into `buffer` and returns the number of bytes
    /// written; when `buffer` is too short, nothing is written and `None`
    /// is returned.
    pub fn write_data(&self, buffer: &mut [u8]) -> (r: Option<usize>)
        ensures
            crate::melter::fits_output(self.bytes(), old(buffer)@) ==> {
                &&& r == Some(self.bytes().len() as usize)
                &&& crate::melter::written_prefix(final(buffer)@, old(buffer)@, self.bytes())
            },
            !crate::melter::fits_output(self.bytes(), old(buffer)@) ==> r is None && final(buffer)@
                == old(buffer)@,
    {
        let bytes = self.msg.as_str().as_bytes();
        if bytes.len() > buffer.len() {
            return None;
        }
        crate::melter::copy_at(buffer, 0, bytes);
        proof {
            crate::melter::lemma_whole_copy(old(buffer)@, buffer@, bytes@);
        }
        Some(bytes.len())
    }
}

} // verus!
