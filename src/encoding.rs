use vstd::prelude::*;

verus! {

/// How a save is stored on disk.
#[derive(Clone, Copy, Debug, PartialEq, Eq, Structural)]
pub enum Encoding {
    /// Plaintext.
    Text,
    /// Plaintext inside a zip.
    TextZip,
    /// Binary tokens.
    Binary,
    /// Binary tokens inside a zip.
    BinaryZip,
}

impl Encoding {
    pub open spec fn is_binary(&self) -> bool {
        self is Binary || self is BinaryZip
    }

    pub open spec fn is_zip(&self) -> bool {
        self is TextZip || self is BinaryZip
    }
}

/// The games whose saves this library reads: those whose save parsers it
/// links. Victoria 3 and Europa Universalis V have no parser among its
/// dependencies.
#[derive(Clone, Copy, Debug, PartialEq, Eq, Structural)]
pub enum Game {
    Eu4,
    Ck3,
    Imperator,
    Hoi4,
}

/// What a parser does with a binary token that the token table cannot name.
#[derive(Clone, Copy, Debug, PartialEq, Eq, Structural)]
pub enum FailedResolve {
    /// Stop with an error.
    Error,
    /// Write a placeholder that holds the token's number.
    Stringify,
    /// Leave out a key that has no name, with its value; write a placeholder
    /// for any other token.
    Ignore,
}

/// The kind field of the save id line of CK3 and Imperator.
#[derive(Clone, Copy, Debug, PartialEq, Eq, Structural)]
pub enum SaveIdKind {
    Text,
    Binary,
    UnifiedText,
    UnifiedBinary,
    SplitText,
    SplitBinary,
}

impl SaveIdKind {
    /// The number that the kind field writes in hex.
    pub open spec fn value(self) -> u8 {
        match self {
            SaveIdKind::Text => 0,
            SaveIdKind::Binary => 1,
            SaveIdKind::UnifiedText => 2,
            SaveIdKind::UnifiedBinary => 3,
            SaveIdKind::SplitText => 4,
            SaveIdKind::SplitBinary => 5,
        }
    }
}

/// The named entries of a zipped EU4 save.
#[derive(Clone, Copy, Debug, PartialEq, Eq, Structural)]
pub enum Eu4Entry {
    Meta,
    Gamestate,
    Ai,
}

/// Whether melting copies sections that the parser does not know through
/// unchanged: always, in this library.
pub const MELT_VERBATIM: bool = true;

/// What melting does with a token that the table cannot name, in this
/// library: it writes a placeholder.
pub const MELT_ON_FAILED_RESOLVE: FailedResolve = FailedResolve::Stringify;

/// `s` starts with `p`.
pub open spec fn has_prefix(s: Seq<u8>, p: Seq<u8>) -> bool {
    p.len() <= s.len() && s.subrange(0, p.len() as int) == p
}

} // verus!
