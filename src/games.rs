//! The calls into each game's save parser. Every function here reopens the
//! borrowed save bytes with the game's own parser, so that the handles of
//! this library hold plain values only. The melt policy (whether unknown
//! sections are copied through, what becomes of a token that the table cannot
//! name) is an argument of each melt, passed on to the parser unchanged.
use vstd::prelude::*;

use std::collections::HashMap;

use crate::encoding::{has_prefix, Encoding, Eu4Entry, FailedResolve, SaveIdKind};
use crate::archive::{zip_named_readable, zip_walkable};

verus! {

/// The leading bytes of a plaintext EU4 save: `EU4txt`.
pub open spec fn eu4_text_magic() -> Seq<u8> {
    seq![69u8, 85, 52, 116, 120, 116]
}

/// The leading bytes of a binary EU4 save: `EU4bin`.
pub open spec fn eu4_binary_magic() -> Seq<u8> {
    seq![69u8, 85, 52, 98, 105, 110]
}

/// The leading bytes of a plaintext HOI4 save: `HOI4txt`.
pub open spec fn hoi4_text_magic() -> Seq<u8> {
    seq![72u8, 79, 73, 52, 116, 120, 116]
}

/// The leading bytes of a binary HOI4 save: `HOI4bin`.
pub open spec fn hoi4_binary_magic() -> Seq<u8> {
    seq![72u8, 79, 73, 52, 98, 105, 110]
}

/// The leading bytes of the save id line of CK3 and Imperator: `SAV`.
pub open spec fn save_id_magic() -> Seq<u8> {
    seq![83u8, 65, 86]
}

/// What the parsers write in place of a token that the table cannot name,
/// ahead of the token's hex digits: `__unknown_0x`.
pub open spec fn placeholder_magic() -> Seq<u8> {
    seq![95u8, 95, 117, 110, 107, 110, 111, 119, 110, 95, 48, 120]
}

/// `body` holds a placeholder for an unnamed token.
pub open spec fn holds_placeholder(body: Seq<u8>) -> bool {
    exists|i: int|
        0 <= i && i + placeholder_magic().len() <= body.len() && #[trigger] body.subrange(
            i,
            i + placeholder_magic().len(),
        ) == placeholder_magic()
}

/// Every token of `unknown` lacks a name in `tokens`.
pub open spec fn all_unnamed(unknown: Set<u16>, tokens: Map<u16, Seq<char>>) -> bool {
    forall|t: u16| #[trigger] unknown.contains(t) ==> !tokens.contains_key(t)
}

/// What a melt reports of the tokens it could not name: each lacks a name in
/// `tokens`, and when there is one the text holds a placeholder.
pub open spec fn reports_unknown(body: Seq<u8>, unknown: Set<u16>, tokens: Map<u16, Seq<char>>) -> bool {
    &&& all_unnamed(unknown, tokens)
    &&& unknown != Set::<u16>::empty() ==> holds_placeholder(body)
}

/// A save id line of CK3 or Imperator whose kind field (two hex digits after
/// `SAV` and two more characters) is `kind`.
pub open spec fn save_id_of_kind(h: Seq<u8>, kind: SaveIdKind) -> bool {
    &&& has_prefix(h, save_id_magic())
    &&& (h.len() == 24 || h.len() == 25)
    &&& h[5] == 48u8
    &&& h[6] == 48u8 + kind.value()
    &&& h[h.len() - 1] == 10u8
}

/// A save id line that declares uncompressed plaintext.
pub open spec fn text_save_id(h: Seq<u8>) -> bool {
    save_id_of_kind(h, SaveIdKind::Text)
}

/// The length of the save id line that opens `data`: 25 bytes when it ends
/// in a carriage return and a line feed, else 24.
pub open spec fn save_id_len(data: Seq<u8>) -> int {
    if data.len() > 24 && data[23] == 13u8 && data[24] == 10u8 {
        25
    } else {
        24
    }
}

/// What follows the save id line of a CK3 or Imperator save.
pub open spec fn after_save_id(data: Seq<u8>) -> Seq<u8> {
    if data.len() >= 24 {
        data.subrange(save_id_len(data), data.len() as int)
    } else {
        Seq::empty()
    }
}

/// The names of the entries of a zipped EU4 save that its parser reads:
/// `meta`, `gamestate` and `ai`.
pub open spec fn eu4_entry_names() -> Seq<Seq<u8>> {
    seq![
        seq![109u8, 101, 116, 97],
        seq![103u8, 97, 109, 101, 115, 116, 97, 116, 101],
        seq![97u8, 105],
    ]
}

/// The name of the entry of a zipped CK3 or Imperator save that its parser
/// reads: `gamestate`.
pub open spec fn gamestate_names() -> Seq<Seq<u8>> {
    seq![seq![103u8, 97, 109, 101, 115, 116, 97, 116, 101]]
}

/// A save that the EU4 parser opens without fault: plaintext or binary by
/// its magic, or an archive that it can walk whose named entries, the ones it
/// reads, lie within the bytes.
pub open spec fn eu4_safe(data: Seq<u8>) -> bool {
    ||| has_prefix(data, eu4_text_magic())
    ||| has_prefix(data, eu4_binary_magic())
    ||| zip_walkable(data) && zip_named_readable(data, eu4_entry_names(), 0)
}

/// The EU4 parser inflates the entries of `data` without fault: each named
/// entry holds at least the six bytes it strips.
pub open spec fn eu4_entries_readable(data: Seq<u8>) -> bool {
    ||| has_prefix(data, eu4_text_magic())
    ||| has_prefix(data, eu4_binary_magic())
    ||| zip_named_readable(data, eu4_entry_names(), 6)
}

/// The CK3 and Imperator parsers open `data` without fault: they can walk any
/// archive after its save id line.
pub open spec fn save_id_safe(data: Seq<u8>) -> bool {
    data.len() < 24 || zip_walkable(after_save_id(data))
}

/// The CK3 and Imperator parsers inflate the gamestate entry of `data`
/// without fault.
pub open spec fn gamestate_readable(data: Seq<u8>) -> bool {
    data.len() < 24 || zip_named_readable(after_save_id(data), gamestate_names(), 0)
}

/// How HOI4's parser classifies `data`: by its magic, with no other kind.
pub open spec fn hoi4_classify(data: Seq<u8>) -> Option<Encoding> {
    if has_prefix(data, hoi4_text_magic()) {
        Some(Encoding::Text)
    } else if has_prefix(data, hoi4_binary_magic()) {
        Some(Encoding::Binary)
    } else {
        None
    }
}

/// How EU4's parser classifies `data`, or `None` when it refuses the bytes.
pub uninterp spec fn eu4_classify(data: Seq<u8>) -> Option<Encoding>;

/// The entries of a zipped EU4 save inflated one after the other, each
/// without its first six bytes (its `EU4txt` or `EU4bin` line), or `None`
/// when the parser fails.
pub uninterp spec fn eu4_inflated(data: Seq<u8>) -> Option<Seq<u8>>;

/// What EU4's parser melts `data` into with `tokens`, copying unknown
/// sections through when `verbatim`, and treating unnamed tokens as
/// `on_failed` says: the text and the tokens it could not name, `Some(None)`
/// when the save holds text, `None` when the parser fails.
pub uninterp spec fn eu4_melted(
    data: Seq<u8>,
    tokens: Map<u16, Seq<char>>,
    verbatim: bool,
    on_failed: FailedResolve,
) -> Option<Option<(Seq<u8>, Set<u16>)>>;

/// The name of the first entry that EU4's parser yields from `data`,
/// `Some(None)` when it yields none or an unnamed one, `None` when it fails.
pub uninterp spec fn eu4_first_entry_of(data: Seq<u8>) -> Option<Option<Eu4Entry>>;

/// What EU4's parser makes of the first entry that it yields from `data`:
/// its inflated text without its first six bytes and `None`, or its melted
/// text and the tokens it could not name, as for the whole save;
/// `Some(None)` when there is no entry, `None` when the parser fails.
pub uninterp spec fn eu4_first_entry_melted(
    data: Seq<u8>,
    tokens: Map<u16, Seq<char>>,
    verbatim: bool,
    on_failed: FailedResolve,
) -> Option<Option<(Seq<u8>, Option<Set<u16>>)>>;

/// What HOI4's parser melts `data` into, as for EU4.
pub uninterp spec fn hoi4_melted(
    data: Seq<u8>,
    tokens: Map<u16, Seq<char>>,
    verbatim: bool,
    on_failed: FailedResolve,
) -> Option<Option<(Seq<u8>, Set<u16>)>>;

/// How CK3's parser classifies `data`, or `None` when it refuses the bytes.
pub uninterp spec fn ck3_classify(data: Seq<u8>) -> Option<Encoding>;

/// The gamestate entry of a zipped CK3 save, inflated, or `None` when the
/// parser fails.
pub uninterp spec fn ck3_inflated(data: Seq<u8>) -> Option<Seq<u8>>;

/// The save id line of `data` rewritten with kind `kind`, or `None` when
/// CK3's parser refuses the line.
pub uninterp spec fn ck3_id_line_of(data: Seq<u8>, kind: SaveIdKind) -> Option<Seq<u8>>;

/// What CK3's parser melts `data` into, as for EU4.
pub uninterp spec fn ck3_melted(
    data: Seq<u8>,
    tokens: Map<u16, Seq<char>>,
    verbatim: bool,
    on_failed: FailedResolve,
) -> Option<Option<(Seq<u8>, Set<u16>)>>;

/// What CK3's parser melts the metadata section of `data` into, as for the
/// whole save: `Some(None)` when the metadata is text.
pub uninterp spec fn ck3_meta_melted(
    data: Seq<u8>,
    tokens: Map<u16, Seq<char>>,
    verbatim: bool,
    on_failed: FailedResolve,
) -> Option<Option<(Seq<u8>, Set<u16>)>>;

/// How Imperator's parser classifies `data`, or `None` when it refuses the bytes.
pub uninterp spec fn imperator_classify(data: Seq<u8>) -> Option<Encoding>;

/// The gamestate entry of a zipped Imperator save, inflated, or `None` when the
/// parser fails.
pub uninterp spec fn imperator_inflated(data: Seq<u8>) -> Option<Seq<u8>>;

/// The save id line of `data` rewritten with kind `kind`, or `None` when
/// Imperator's parser refuses the line.
pub uninterp spec fn imperator_id_line_of(data: Seq<u8>, kind: SaveIdKind) -> Option<Seq<u8>>;

/// What Imperator's parser melts `data` into, as for EU4.
pub uninterp spec fn imperator_melted(
    data: Seq<u8>,
    tokens: Map<u16, Seq<char>>,
    verbatim: bool,
    on_failed: FailedResolve,
) -> Option<Option<(Seq<u8>, Set<u16>)>>;

/// What Imperator's parser melts the metadata section of `data` into, as for the
/// whole save: `Some(None)` when the metadata is text.
pub uninterp spec fn imperator_meta_melted(
    data: Seq<u8>,
    tokens: Map<u16, Seq<char>>,
    verbatim: bool,
    on_failed: FailedResolve,
) -> Option<Option<(Seq<u8>, Set<u16>)>>;

/// Relies on eu4save::Eu4File::from_slice and Eu4File::encoding: a save that
/// starts with `EU4txt` is text, one that starts with `EU4bin` is binary, any
/// other is read as a zip.
#[verifier::external_body]
pub(crate) fn eu4_open(data: &[u8]) -> (r: Result<Encoding, eu4save::Eu4Error>)
    requires
        eu4_safe(data@),
    ensures
        r is Ok <==> eu4_classify(data@) is Some,
        r is Ok ==> r->Ok_0 == eu4_classify(data@)->Some_0,
        has_prefix(data@, eu4_text_magic()) ==> r is Ok && r->Ok_0 == Encoding::Text,
        !has_prefix(data@, eu4_text_magic()) && has_prefix(data@, eu4_binary_magic()) ==> r is Ok
            && r->Ok_0 == Encoding::Binary,
        !has_prefix(data@, eu4_text_magic()) && !has_prefix(data@, eu4_binary_magic()) ==> (r
            is Err || r->Ok_0.is_zip()),
{
    match eu4save::Eu4File::from_slice(data) {
        Ok(file) => Ok(match file.encoding() {
            eu4save::Encoding::Text => Encoding::Text,
            eu4save::Encoding::TextZip => Encoding::TextZip,
            eu4save::Encoding::Binary => Encoding::Binary,
            eu4save::Encoding::BinaryZip => Encoding::BinaryZip,
        }),
        Err(e) => Err(e),
    }
}

/// Relies on eu4save::Eu4File::parse: the entries of a zipped save inflated
/// one after the other, each without its first six bytes.
#[verifier::external_body]
pub(crate) fn eu4_inflate(data: &[u8]) -> (r: Result<Vec<u8>, eu4save::Eu4Error>)
    requires
        eu4_safe(data@),
        eu4_entries_readable(data@),
    ensures
        r is Ok <==> eu4_inflated(data@) is Some,
        r is Ok ==> r->Ok_0@ == eu4_inflated(data@)->Some_0,
        r is Ok ==> eu4_classify(data@) is Some,
{
    let file = eu4save::Eu4File::from_slice(data)?;
    let mut sink = Vec::new();
    file.parse(&mut sink)?;
    Ok(sink)
}

/// Relies on eu4save::Eu4File::parse and Eu4Melter::melt with the given
/// verbatim setting and strategy for unnamed tokens: the melted text, which
/// opens with `EU4txt`, and the tokens that had no name in `tokens`, for each
/// of which the text holds a placeholder; `None` when the save holds text.
#[verifier::external_body]
pub(crate) fn eu4_melt(
    data: &[u8],
    tokens: &HashMap<u16, String>,
    verbatim: bool,
    on_failed: FailedResolve,
) -> (r: Result<Option<(Vec<u8>, Vec<u16>)>, eu4save::Eu4Error>)
    requires
        eu4_safe(data@),
        eu4_entries_readable(data@),
    ensures
        r is Ok <==> eu4_melted(data@, tokens.deep_view(), verbatim, on_failed) is Some,
        r is Ok ==> eu4_classify(data@) is Some,
        r is Ok ==> (r->Ok_0 is Some <==> eu4_classify(data@)->Some_0.is_binary()),
        r is Ok && r->Ok_0 is None ==> eu4_melted(data@, tokens.deep_view(), verbatim, on_failed)->Some_0
            is None,
        r is Ok && r->Ok_0 is Some ==> eu4_melted(data@, tokens.deep_view(), verbatim, on_failed)
            == Some(Some((r->Ok_0->Some_0.0@, r->Ok_0->Some_0.1@.to_set()))),
        r is Ok && r->Ok_0 is Some ==> has_prefix(r->Ok_0->Some_0.0@, eu4_text_magic()),
        r is Ok && r->Ok_0 is Some ==> reports_unknown(
            r->Ok_0->Some_0.0@,
            r->Ok_0->Some_0.1@.to_set(),
            tokens.deep_view(),
        ),
{
    let strategy = match on_failed {
        FailedResolve::Error => eu4save::FailedResolveStrategy::Error,
        FailedResolve::Stringify => eu4save::FailedResolveStrategy::Stringify,
        FailedResolve::Ignore => eu4save::FailedResolveStrategy::Ignore,
    };
    let file = eu4save::Eu4File::from_slice(data)?;
    let mut sink = Vec::new();
    let parsed = file.parse(&mut sink)?;
    let eu4save::file::Eu4ParsedFileKind::Binary(binary) = parsed.kind() else { return Ok(None) };
    let doc = binary.melter().verbatim(verbatim).on_failed_resolve(strategy).melt(tokens)?;
    Ok(Some((doc.data().to_vec(), doc.unknown_tokens().iter().copied().collect())))
}

/// Relies on eu4save::Eu4File::entries, Eu4FileEntries::next_entry and
/// Eu4FileEntry::name: the name of the first entry of the save.
#[verifier::external_body]
pub(crate) fn eu4_first_entry(data: &[u8]) -> (r: Result<Option<Eu4Entry>, eu4save::Eu4Error>)
    requires
        eu4_safe(data@),
    ensures
        r is Ok <==> eu4_first_entry_of(data@) is Some,
        r is Ok ==> eu4_first_entry_of(data@) == Some(r->Ok_0),
{
    let file = eu4save::Eu4File::from_slice(data)?;
    let name = match file.entries().next_entry() {
        Some(entry) => entry.name(),
        None => None,
    };
    Ok(match name {
        Some(eu4save::file::Eu4FileEntryName::Meta) => Some(Eu4Entry::Meta),
        Some(eu4save::file::Eu4FileEntryName::Gamestate) => Some(Eu4Entry::Gamestate),
        Some(eu4save::file::Eu4FileEntryName::Ai) => Some(Eu4Entry::Ai),
        None => None,
    })
}

/// Relies on eu4save::Eu4FileEntries::next_entry and Eu4FileEntry::parse,
/// then Eu4Melter::melt as for the whole save: the first entry of the save,
/// its inflated text without its first six bytes and `None`, or its melted
/// text and the tokens that had no name in `tokens`; `None` when the save
/// yields no entry.
#[verifier::external_body]
pub(crate) fn eu4_melt_first_entry(
    data: &[u8],
    tokens: &HashMap<u16, String>,
    verbatim: bool,
    on_failed: FailedResolve,
) -> (r: Result<Option<(Vec<u8>, Option<Vec<u16>>)>, eu4save::Eu4Error>)
    requires
        eu4_safe(data@),
        eu4_entries_readable(data@),
    ensures
        r is Ok <==> eu4_first_entry_melted(data@, tokens.deep_view(), verbatim, on_failed) is Some,
        r is Ok && r->Ok_0 is None ==> eu4_first_entry_melted(
            data@,
            tokens.deep_view(),
            verbatim,
            on_failed,
        )->Some_0 is None && eu4_first_entry_of(data@) == Some(None::<Eu4Entry>),
        r is Ok && r->Ok_0 is Some && r->Ok_0->Some_0.1 is None ==> eu4_first_entry_melted(
            data@,
            tokens.deep_view(),
            verbatim,
            on_failed,
        ) == Some(Some((r->Ok_0->Some_0.0@, None::<Set<u16>>))),
        r is Ok && r->Ok_0 is Some && r->Ok_0->Some_0.1 is Some ==> eu4_first_entry_melted(
            data@,
            tokens.deep_view(),
            verbatim,
            on_failed,
        ) == Some(Some((r->Ok_0->Some_0.0@, Some(r->Ok_0->Some_0.1->Some_0@.to_set())))),
        r is Ok ==> eu4_classify(data@) is Some,
        r is Ok && r->Ok_0 is Some ==> (r->Ok_0->Some_0.1 is Some
            <==> eu4_classify(data@)->Some_0.is_binary()),
        r is Ok && r->Ok_0 is Some && r->Ok_0->Some_0.1 is Some ==> has_prefix(
            r->Ok_0->Some_0.0@,
            eu4_text_magic(),
        ) && reports_unknown(
            r->Ok_0->Some_0.0@,
            r->Ok_0->Some_0.1->Some_0@.to_set(),
            tokens.deep_view(),
        ),
{
    let strategy = match on_failed {
        FailedResolve::Error => eu4save::FailedResolveStrategy::Error,
        FailedResolve::Stringify => eu4save::FailedResolveStrategy::Stringify,
        FailedResolve::Ignore => eu4save::FailedResolveStrategy::Ignore,
    };
    let file = eu4save::Eu4File::from_slice(data)?;
    let Some(entry) = file.entries().next_entry() else { return Ok(None) };
    let mut sink = Vec::new();
    let parsed = entry.parse(&mut sink)?;
    let eu4save::file::Eu4ParsedFileKind::Binary(binary) = parsed.kind() else { return Ok(Some((sink, None))) };
    let doc = binary.melter().verbatim(verbatim).on_failed_resolve(strategy).melt(tokens)?;
    Ok(Some((doc.data().to_vec(), Some(doc.unknown_tokens().iter().copied().collect()))))
}

/// Relies on ck3save::Ck3File::from_slice and Ck3File::encoding: a save
/// shorter than its 24-byte id line, or one that does not open with `SAV`, is
/// refused; a save read as a zip has an archive after its id line.
#[verifier::external_body]
pub(crate) fn ck3_open(data: &[u8]) -> (r: Result<Encoding, ck3save::Ck3Error>)
    requires
        save_id_safe(data@),
    ensures
        r is Ok <==> ck3_classify(data@) is Some,
        r is Ok ==> r->Ok_0 == ck3_classify(data@)->Some_0,
        data@.len() < 24 || !has_prefix(data@, save_id_magic()) ==> r is Err,
        r is Ok && r->Ok_0.is_zip() ==> crate::archive::zip_layout_of(after_save_id(data@)) is Some,
{
    match ck3save::Ck3File::from_slice(data) {
        Ok(file) => Ok(match file.encoding() {
            ck3save::Encoding::Text => Encoding::Text,
            ck3save::Encoding::TextZip => Encoding::TextZip,
            ck3save::Encoding::Binary => Encoding::Binary,
            ck3save::Encoding::BinaryZip => Encoding::BinaryZip,
        }),
        Err(e) => Err(e),
    }
}

/// Relies on ck3save::Ck3File::parse: the gamestate entry of a zipped save,
/// inflated.
#[verifier::external_body]
pub(crate) fn ck3_inflate(data: &[u8]) -> (r: Result<Vec<u8>, ck3save::Ck3Error>)
    requires
        save_id_safe(data@),
        gamestate_readable(data@),
    ensures
        r is Ok <==> ck3_inflated(data@) is Some,
        r is Ok ==> r->Ok_0@ == ck3_inflated(data@)->Some_0,
        r is Ok ==> ck3_classify(data@) is Some,
{
    let file = ck3save::Ck3File::from_slice(data)?;
    let mut sink = Vec::new();
    file.parse(&mut sink)?;
    Ok(sink)
}

/// Relies on ck3save::SaveHeader::from_slice, set_kind and write: the save
/// id line of `data` rewritten with kind `kind`.
#[verifier::external_body]
pub(crate) fn ck3_id_line(data: &[u8], kind: SaveIdKind) -> (r: Result<Vec<u8>, ck3save::Ck3Error>)
    ensures
        r is Ok <==> ck3_id_line_of(data@, kind) is Some,
        r is Ok ==> r->Ok_0@ == ck3_id_line_of(data@, kind)->Some_0,
        r is Ok ==> save_id_of_kind(r->Ok_0@, kind),
        ck3_classify(data@) is Some ==> r is Ok,
{
    let mut header = ck3save::SaveHeader::from_slice(data)?;
    header.set_kind(match kind {
        SaveIdKind::Text => ck3save::SaveHeaderKind::Text,
        SaveIdKind::Binary => ck3save::SaveHeaderKind::Binary,
        SaveIdKind::UnifiedText => ck3save::SaveHeaderKind::UnifiedText,
        SaveIdKind::UnifiedBinary => ck3save::SaveHeaderKind::UnifiedBinary,
        SaveIdKind::SplitText => ck3save::SaveHeaderKind::SplitText,
        SaveIdKind::SplitBinary => ck3save::SaveHeaderKind::SplitBinary,
    });
    let mut out = Vec::new();
    let _ = header.write(&mut out);
    Ok(out)
}

/// Relies on ck3save::Ck3File::parse and Ck3Melter::melt with the given
/// verbatim setting and strategy for unnamed tokens: the melted text, which
/// opens with the save id line, and the tokens that had no name in `tokens`,
/// for each of which the text holds a placeholder; `None` when the save holds
/// text.
#[verifier::external_body]
pub(crate) fn ck3_melt(
    data: &[u8],
    tokens: &HashMap<u16, String>,
    verbatim: bool,
    on_failed: FailedResolve,
) -> (r: Result<Option<(Vec<u8>, Vec<u16>)>, ck3save::Ck3Error>)
    requires
        save_id_safe(data@),
        gamestate_readable(data@),
    ensures
        r is Ok <==> ck3_melted(data@, tokens.deep_view(), verbatim, on_failed) is Some,
        r is Ok ==> ck3_classify(data@) is Some,
        r is Ok ==> (r->Ok_0 is Some <==> ck3_classify(data@)->Some_0.is_binary()),
        r is Ok && r->Ok_0 is None ==> ck3_melted(data@, tokens.deep_view(), verbatim, on_failed)->Some_0
            is None,
        r is Ok && r->Ok_0 is Some ==> ck3_melted(data@, tokens.deep_view(), verbatim, on_failed)
            == Some(Some((r->Ok_0->Some_0.0@, r->Ok_0->Some_0.1@.to_set()))),
        r is Ok && r->Ok_0 is Some ==> has_prefix(r->Ok_0->Some_0.0@, save_id_magic()),
        r is Ok && r->Ok_0 is Some ==> reports_unknown(
            r->Ok_0->Some_0.0@,
            r->Ok_0->Some_0.1@.to_set(),
            tokens.deep_view(),
        ),
{
    let strategy = match on_failed {
        FailedResolve::Error => ck3save::FailedResolveStrategy::Error,
        FailedResolve::Stringify => ck3save::FailedResolveStrategy::Stringify,
        FailedResolve::Ignore => ck3save::FailedResolveStrategy::Ignore,
    };
    let file = ck3save::Ck3File::from_slice(data)?;
    let mut sink = Vec::new();
    let parsed = file.parse(&mut sink)?;
    let ck3save::file::Ck3ParsedFileKind::Binary(binary) = parsed.kind() else { return Ok(None) };
    let doc = binary.melter().verbatim(verbatim).on_failed_resolve(strategy).melt(tokens)?;
    Ok(Some((doc.data().to_vec(), doc.unknown_tokens().iter().copied().collect())))
}

/// Relies on ck3save::Ck3File::parse_metadata and Ck3Melter::melt as for the
/// whole save: the melted metadata section and the tokens that had no name in
/// `tokens`; `None` when the metadata is text.
#[verifier::external_body]
pub(crate) fn ck3_melt_meta(
    data: &[u8],
    tokens: &HashMap<u16, String>,
    verbatim: bool,
    on_failed: FailedResolve,
) -> (r: Result<Option<(Vec<u8>, Vec<u16>)>, ck3save::Ck3Error>)
    requires
        save_id_safe(data@),
    ensures
        r is Ok <==> ck3_meta_melted(data@, tokens.deep_view(), verbatim, on_failed) is Some,
        r is Ok ==> ck3_classify(data@) is Some,
        r is Ok ==> (r->Ok_0 is Some <==> ck3_classify(data@)->Some_0.is_binary()),
        r is Ok && r->Ok_0 is None ==> ck3_meta_melted(data@, tokens.deep_view(), verbatim, on_failed)->Some_0
            is None,
        r is Ok && r->Ok_0 is Some ==> ck3_meta_melted(data@, tokens.deep_view(), verbatim, on_failed)
            == Some(Some((r->Ok_0->Some_0.0@, r->Ok_0->Some_0.1@.to_set()))),
        r is Ok && r->Ok_0 is Some ==> has_prefix(r->Ok_0->Some_0.0@, save_id_magic()),
        r is Ok && r->Ok_0 is Some ==> reports_unknown(
            r->Ok_0->Some_0.0@,
            r->Ok_0->Some_0.1@.to_set(),
            tokens.deep_view(),
        ),
{
    let strategy = match on_failed {
        FailedResolve::Error => ck3save::FailedResolveStrategy::Error,
        FailedResolve::Stringify => ck3save::FailedResolveStrategy::Stringify,
        FailedResolve::Ignore => ck3save::FailedResolveStrategy::Ignore,
    };
    let file = ck3save::Ck3File::from_slice(data)?;
    let parsed = file.parse_metadata()?;
    let ck3save::file::Ck3ParsedFileKind::Binary(binary) = parsed.kind() else { return Ok(None) };
    let doc = binary.melter().verbatim(verbatim).on_failed_resolve(strategy).melt(tokens)?;
    Ok(Some((doc.data().to_vec(), doc.unknown_tokens().iter().copied().collect())))
}

/// Relies on imperator_save::ImperatorFile::from_slice and ImperatorFile::encoding: a save
/// shorter than its 24-byte id line, or one that does not open with `SAV`, is
/// refused; a save read as a zip has an archive after its id line.
#[verifier::external_body]
pub(crate) fn imperator_open(data: &[u8]) -> (r: Result<Encoding, imperator_save::ImperatorError>)
    requires
        save_id_safe(data@),
    ensures
        r is Ok <==> imperator_classify(data@) is Some,
        r is Ok ==> r->Ok_0 == imperator_classify(data@)->Some_0,
        data@.len() < 24 || !has_prefix(data@, save_id_magic()) ==> r is Err,
        r is Ok && r->Ok_0.is_zip() ==> crate::archive::zip_layout_of(after_save_id(data@)) is Some,
{
    match imperator_save::ImperatorFile::from_slice(data) {
        Ok(file) => Ok(match file.encoding() {
            imperator_save::Encoding::Text => Encoding::Text,
            imperator_save::Encoding::TextZip => Encoding::TextZip,
            imperator_save::Encoding::Binary => Encoding::Binary,
            imperator_save::Encoding::BinaryZip => Encoding::BinaryZip,
        }),
        Err(e) => Err(e),
    }
}

/// Relies on imperator_save::ImperatorFile::parse: the gamestate entry of a zipped save,
/// inflated.
#[verifier::external_body]
pub(crate) fn imperator_inflate(data: &[u8]) -> (r: Result<Vec<u8>, imperator_save::ImperatorError>)
    requires
        save_id_safe(data@),
        gamestate_readable(data@),
    ensures
        r is Ok <==> imperator_inflated(data@) is Some,
        r is Ok ==> r->Ok_0@ == imperator_inflated(data@)->Some_0,
        r is Ok ==> imperator_classify(data@) is Some,
{
    let file = imperator_save::ImperatorFile::from_slice(data)?;
    let mut sink = Vec::new();
    file.parse(&mut sink)?;
    Ok(sink)
}

/// Relies on imperator_save::SaveHeader::from_slice, set_kind and write: the save
/// id line of `data` rewritten with kind `kind`.
#[verifier::external_body]
pub(crate) fn imperator_id_line(data: &[u8], kind: SaveIdKind) -> (r: Result<Vec<u8>, imperator_save::ImperatorError>)
    ensures
        r is Ok <==> imperator_id_line_of(data@, kind) is Some,
        r is Ok ==> r->Ok_0@ == imperator_id_line_of(data@, kind)->Some_0,
        r is Ok ==> save_id_of_kind(r->Ok_0@, kind),
        imperator_classify(data@) is Some ==> r is Ok,
{
    let mut header = imperator_save::SaveHeader::from_slice(data)?;
    header.set_kind(match kind {
        SaveIdKind::Text => imperator_save::SaveHeaderKind::Text,
        SaveIdKind::Binary => imperator_save::SaveHeaderKind::Binary,
        SaveIdKind::UnifiedText => imperator_save::SaveHeaderKind::UnifiedText,
        SaveIdKind::UnifiedBinary => imperator_save::SaveHeaderKind::UnifiedBinary,
        SaveIdKind::SplitText => imperator_save::SaveHeaderKind::SplitText,
        SaveIdKind::SplitBinary => imperator_save::SaveHeaderKind::SplitBinary,
    });
    let mut out = Vec::new();
    let _ = header.write(&mut out);
    Ok(out)
}

/// Relies on imperator_save::ImperatorFile::parse and ImperatorMelter::melt with the given
/// verbatim setting and strategy for unnamed tokens: the melted text, which
/// opens with the save id line, and the tokens that had no name in `tokens`,
/// for each of which the text holds a placeholder; `None` when the save holds
/// text.
#[verifier::external_body]
pub(crate) fn imperator_melt(
    data: &[u8],
    tokens: &HashMap<u16, String>,
    verbatim: bool,
    on_failed: FailedResolve,
) -> (r: Result<Option<(Vec<u8>, Vec<u16>)>, imperator_save::ImperatorError>)
    requires
        save_id_safe(data@),
        gamestate_readable(data@),
    ensures
        r is Ok <==> imperator_melted(data@, tokens.deep_view(), verbatim, on_failed) is Some,
        r is Ok ==> imperator_classify(data@) is Some,
        r is Ok ==> (r->Ok_0 is Some <==> imperator_classify(data@)->Some_0.is_binary()),
        r is Ok && r->Ok_0 is None ==> imperator_melted(data@, tokens.deep_view(), verbatim, on_failed)->Some_0
            is None,
        r is Ok && r->Ok_0 is Some ==> imperator_melted(data@, tokens.deep_view(), verbatim, on_failed)
            == Some(Some((r->Ok_0->Some_0.0@, r->Ok_0->Some_0.1@.to_set()))),
        r is Ok && r->Ok_0 is Some ==> has_prefix(r->Ok_0->Some_0.0@, save_id_magic()),
        r is Ok && r->Ok_0 is Some ==> reports_unknown(
            r->Ok_0->Some_0.0@,
            r->Ok_0->Some_0.1@.to_set(),
            tokens.deep_view(),
        ),
{
    let strategy = match on_failed {
        FailedResolve::Error => imperator_save::FailedResolveStrategy::Error,
        FailedResolve::Stringify => imperator_save::FailedResolveStrategy::Stringify,
        FailedResolve::Ignore => imperator_save::FailedResolveStrategy::Ignore,
    };
    let file = imperator_save::ImperatorFile::from_slice(data)?;
    let mut sink = Vec::new();
    let parsed = file.parse(&mut sink)?;
    let imperator_save::file::ImperatorParsedFileKind::Binary(binary) = parsed.kind() else { return Ok(None) };
    let doc = binary.melter().verbatim(verbatim).on_failed_resolve(strategy).melt(tokens)?;
    Ok(Some((doc.data().to_vec(), doc.unknown_tokens().iter().copied().collect())))
}

/// Relies on imperator_save::ImperatorFile::parse_metadata and ImperatorMelter::melt as for the
/// whole save: the melted metadata section and the tokens that had no name in
/// `tokens`; `None` when the metadata is text.
#[verifier::external_body]
pub(crate) fn imperator_melt_meta(
    data: &[u8],
    tokens: &HashMap<u16, String>,
    verbatim: bool,
    on_failed: FailedResolve,
) -> (r: Result<Option<(Vec<u8>, Vec<u16>)>, imperator_save::ImperatorError>)
    requires
        save_id_safe(data@),
    ensures
        r is Ok <==> imperator_meta_melted(data@, tokens.deep_view(), verbatim, on_failed) is Some,
        r is Ok ==> imperator_classify(data@) is Some,
        r is Ok ==> (r->Ok_0 is Some <==> imperator_classify(data@)->Some_0.is_binary()),
        r is Ok && r->Ok_0 is None ==> imperator_meta_melted(data@, tokens.deep_view(), verbatim, on_failed)->Some_0
            is None,
        r is Ok && r->Ok_0 is Some ==> imperator_meta_melted(data@, tokens.deep_view(), verbatim, on_failed)
            == Some(Some((r->Ok_0->Some_0.0@, r->Ok_0->Some_0.1@.to_set()))),
        r is Ok && r->Ok_0 is Some ==> has_prefix(r->Ok_0->Some_0.0@, save_id_magic()),
        r is Ok && r->Ok_0 is Some ==> reports_unknown(
            r->Ok_0->Some_0.0@,
            r->Ok_0->Some_0.1@.to_set(),
            tokens.deep_view(),
        ),
{
    let strategy = match on_failed {
        FailedResolve::Error => imperator_save::FailedResolveStrategy::Error,
        FailedResolve::Stringify => imperator_save::FailedResolveStrategy::Stringify,
        FailedResolve::Ignore => imperator_save::FailedResolveStrategy::Ignore,
    };
    let file = imperator_save::ImperatorFile::from_slice(data)?;
    let parsed = file.parse_metadata()?;
    let imperator_save::file::ImperatorParsedFileKind::Binary(binary) = parsed.kind() else { return Ok(None) };
    let doc = binary.melter().verbatim(verbatim).on_failed_resolve(strategy).melt(tokens)?;
    Ok(Some((doc.data().to_vec(), doc.unknown_tokens().iter().copied().collect())))
}

/// Relies on hoi4save::Hoi4File::from_slice and Hoi4SliceFile::encoding: a
/// save that starts with `HOI4txt` is text, one that starts with `HOI4bin` is
/// binary, any other is refused.
#[verifier::external_body]
pub(crate) fn hoi4_open(data: &[u8]) -> (r: Result<Encoding, hoi4save::Hoi4Error>)
    ensures
        r is Ok <==> hoi4_classify(data@) is Some,
        r is Ok ==> r->Ok_0 == hoi4_classify(data@)->Some_0,
{
    match hoi4save::Hoi4File::from_slice(data) {
        Ok(file) => Ok(match file.encoding() {
            hoi4save::Encoding::Plaintext => Encoding::Text,
            hoi4save::Encoding::Binary => Encoding::Binary,
        }),
        Err(e) => Err(e),
    }
}

/// Relies on hoi4save::Hoi4SliceFile::melt with the given verbatim setting and
/// strategy for unnamed tokens: the melted text, which opens with `HOI4txt`,
/// and the tokens that had no name in `tokens`, for each of which the text
/// holds a placeholder; `None` when the save holds text.
#[verifier::external_body]
pub(crate) fn hoi4_melt(
    data: &[u8],
    tokens: &HashMap<u16, String>,
    verbatim: bool,
    on_failed: FailedResolve,
) -> (r: Result<Option<(Vec<u8>, Vec<u16>)>, hoi4save::Hoi4Error>)
    ensures
        r is Ok <==> hoi4_melted(data@, tokens.deep_view(), verbatim, on_failed) is Some,
        r is Ok ==> hoi4_classify(data@) is Some,
        r is Ok ==> (r->Ok_0 is Some <==> hoi4_classify(data@)->Some_0.is_binary()),
        r is Ok && r->Ok_0 is None ==> hoi4_melted(data@, tokens.deep_view(), verbatim, on_failed)->Some_0
            is None,
        r is Ok && r->Ok_0 is Some ==> hoi4_melted(data@, tokens.deep_view(), verbatim, on_failed)
            == Some(Some((r->Ok_0->Some_0.0@, r->Ok_0->Some_0.1@.to_set()))),
        r is Ok && r->Ok_0 is Some ==> has_prefix(r->Ok_0->Some_0.0@, hoi4_text_magic()),
        r is Ok && r->Ok_0 is Some ==> reports_unknown(
            r->Ok_0->Some_0.0@,
            r->Ok_0->Some_0.1@.to_set(),
            tokens.deep_view(),
        ),
{
    let strategy = match on_failed {
        FailedResolve::Error => hoi4save::FailedResolveStrategy::Error,
        FailedResolve::Stringify => hoi4save::FailedResolveStrategy::Stringify,
        FailedResolve::Ignore => hoi4save::FailedResolveStrategy::Ignore,
    };
    let file = hoi4save::Hoi4File::from_slice(data)?;
    let hoi4save::Encoding::Binary = file.encoding() else { return Ok(None) };
    let options = hoi4save::MeltOptions::new().verbatim(verbatim).on_failed_resolve(strategy);
    let mut out = Vec::new();
    let doc = file.melt(options, tokens, &mut out)?;
    Ok(Some((out, doc.unknown_tokens().iter().copied().collect())))
}

} // verus!
