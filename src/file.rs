use vstd::prelude::*;

use std::collections::HashMap;

use crate::archive::{is_zip_named_readable, is_zip_walkable, zip_layout, zip_layout_of};
use crate::encoding::{
    has_prefix, Encoding, Eu4Entry, FailedResolve, Game, SaveIdKind, MELT_ON_FAILED_RESOLVE,
    MELT_VERBATIM,
};
use crate::errors::{LibError, PdsError};
use crate::games::{
    after_save_id, ck3_classify, ck3_id_line, ck3_id_line_of, ck3_inflate, ck3_inflated, ck3_melt,
    ck3_melt_meta, ck3_meta_melted, ck3_melted, ck3_open, eu4_binary_magic, eu4_classify,
    eu4_entries_readable, eu4_first_entry, eu4_first_entry_melted, eu4_first_entry_of,
    eu4_inflate, eu4_inflated, eu4_melt, eu4_melt_first_entry, eu4_melted, eu4_open, eu4_safe,
    eu4_text_magic, gamestate_readable, hoi4_classify, hoi4_melt, hoi4_melted, hoi4_open,
    hoi4_text_magic, imperator_classify, imperator_id_line, imperator_id_line_of,
    imperator_inflate, imperator_inflated, imperator_melt, imperator_melt_meta,
    imperator_meta_melted, imperator_melted, imperator_open, reports_unknown, save_id_len,
    save_id_magic, save_id_safe, text_save_id,
};
use crate::melter::{MeltedBuffer, MeltedBufferResult};

verus! {

/// How the parser of `game` classifies `data`, or `None` when it refuses it.
pub open spec fn classify(game: Game, data: Seq<u8>) -> Option<Encoding> {
    match game {
        Game::Eu4 => eu4_classify(data),
        Game::Ck3 => ck3_classify(data),
        Game::Imperator => imperator_classify(data),
        Game::Hoi4 => hoi4_classify(data),
    }
}

/// `data` is a save that the parser of `game` opens without fault. This is a
/// sufficient condition: it asks of an archive only what the parser relies on
/// when it opens it.
pub open spec fn safe_for(game: Game, data: Seq<u8>) -> bool {
    match game {
        Game::Eu4 => eu4_safe(data),
        Game::Ck3 | Game::Imperator => save_id_safe(data),
        Game::Hoi4 => true,
    }
}

/// The parser of `game` reads the zipped entries of `data` without fault: a
/// sufficient condition on the entries that it reads.
pub open spec fn readable_for(game: Game, data: Seq<u8>) -> bool {
    match game {
        Game::Eu4 => eu4_entries_readable(data),
        Game::Ck3 | Game::Imperator => gamestate_readable(data),
        Game::Hoi4 => true,
    }
}

/// What the parser of `game` melts `data` into with `tokens` under the given
/// policy: the text and the tokens it could not name, `Some(None)` for text,
/// `None` on failure.
pub open spec fn melted_of(
    game: Game,
    data: Seq<u8>,
    tokens: Map<u16, Seq<char>>,
    verbatim: bool,
    on_failed: FailedResolve,
) -> Option<Option<(Seq<u8>, Set<u16>)>> {
    match game {
        Game::Eu4 => eu4_melted(data, tokens, verbatim, on_failed),
        Game::Ck3 => ck3_melted(data, tokens, verbatim, on_failed),
        Game::Imperator => imperator_melted(data, tokens, verbatim, on_failed),
        Game::Hoi4 => hoi4_melted(data, tokens, verbatim, on_failed),
    }
}

/// The body of a zipped plaintext save of `game`, inflated, or `None` when the
/// parser fails.
pub open spec fn inflated_of(game: Game, data: Seq<u8>) -> Option<Seq<u8>> {
    match game {
        Game::Eu4 => eu4_inflated(data),
        Game::Ck3 => ck3_inflated(data),
        Game::Imperator => imperator_inflated(data),
        Game::Hoi4 => None,
    }
}

/// The header that declares `data`, a save of `game`, to be plaintext: the
/// plaintext magic, or the save id line rewritten with the plaintext kind;
/// `None` when the parser refuses that line.
pub open spec fn text_id_of(game: Game, data: Seq<u8>) -> Option<Seq<u8>> {
    match game {
        Game::Eu4 => Some(eu4_text_magic()),
        Game::Ck3 => ck3_id_line_of(data, SaveIdKind::Text),
        Game::Imperator => imperator_id_line_of(data, SaveIdKind::Text),
        Game::Hoi4 => Some(hoi4_text_magic()),
    }
}

/// `e` is an error of the parser of `game`.
pub open spec fn error_of(game: Game, e: LibError) -> bool {
    match game {
        Game::Eu4 => e is Eu4,
        Game::Ck3 => e is Ck3,
        Game::Imperator => e is Imperator,
        Game::Hoi4 => e is Hoi4,
    }
}

/// `r` is the translated shape holding `body`, flagged when `unknown`, the
/// tokens that the parser could not name, is not empty.
pub open spec fn is_translated(
    r: Result<MeltedBuffer, LibError>,
    body: Seq<u8>,
    unknown: Set<u16>,
) -> bool {
    &&& r is Ok
    &&& r->Ok_0 is Binary
    &&& r->Ok_0->Binary_body@ == body
    &&& r->Ok_0->unknown_tokens == (unknown != Set::<u16>::empty())
}

/// `r` is the text shape holding `header` and `body`.
pub open spec fn is_text_with(
    r: Result<MeltedBuffer, LibError>,
    header: Seq<u8>,
    body: Seq<u8>,
) -> bool {
    &&& r is Ok
    &&& r->Ok_0 is Text
    &&& r->Ok_0->header@ == header
    &&& r->Ok_0->Text_body@ == body
}

/// `r` is a failure of the parser of `game`.
pub open spec fn fails_in(r: Result<MeltedBuffer, LibError>, game: Game) -> bool {
    r is Err && error_of(game, r->Err_0)
}

/// `r` is the internal-fault error: the parser would have faulted.
pub open spec fn faulted(r: Result<MeltedBuffer, LibError>) -> bool {
    r is Err && r->Err_0 is Panic
}

/// What melting `data`, a save of `game` stored as `enc`, with `tokens` gives:
/// plaintext passes through; zipped plaintext is the inflated body behind the
/// header that declares plaintext; binary is what the parser melts it into
/// with unknown sections copied through and unnamed tokens written as
/// placeholders. Each failure of the parser fails the melt with that parser's
/// error, and entries on which the parser would fault give the internal-fault
/// error.
pub open spec fn melt_outcome(
    game: Game,
    data: Seq<u8>,
    enc: Encoding,
    tokens: Map<u16, Seq<char>>,
    r: Result<MeltedBuffer, LibError>,
) -> bool {
    match enc {
        Encoding::Text => r == Ok::<MeltedBuffer, LibError>(MeltedBuffer::Verbatim),
        Encoding::TextZip => match text_id_of(game, data) {
            None => fails_in(r, game),
            Some(h) => if !readable_for(game, data) {
                faulted(r)
            } else {
                match inflated_of(game, data) {
                    Some(b) => is_text_with(r, h, b),
                    None => fails_in(r, game),
                }
            },
        },
        Encoding::Binary | Encoding::BinaryZip => if !readable_for(game, data) {
            faulted(r)
        } else {
            match melted_of(game, data, tokens, MELT_VERBATIM, MELT_ON_FAILED_RESOLVE) {
                Some(Some((b, u))) => is_translated(r, b, u) && reports_unknown(b, u, tokens),
                _ => fails_in(r, game),
            }
        },
    }
}

/// `h` declares uncompressed plaintext for a save of `game`.
pub open spec fn text_header_of(game: Game, h: Seq<u8>) -> bool {
    match game {
        Game::Eu4 => h == eu4_text_magic(),
        Game::Hoi4 => h == hoi4_text_magic(),
        Game::Ck3 | Game::Imperator => text_save_id(h),
    }
}

/// `body`, a melted binary save of `game`, opens with the game's leading
/// bytes: the plaintext magic of EU4 and HOI4, the save id line of CK3 and
/// Imperator.
pub open spec fn melted_opening(game: Game, body: Seq<u8>) -> bool {
    match game {
        Game::Eu4 => has_prefix(body, eu4_text_magic()),
        Game::Hoi4 => has_prefix(body, hoi4_text_magic()),
        Game::Ck3 | Game::Imperator => has_prefix(body, save_id_magic()),
    }
}

/// What a successful melt says beyond its contents: a text header declares
/// plaintext, and a translated body opens with the game's leading bytes.
pub open spec fn melt_marks(game: Game, m: MeltedBuffer) -> bool {
    &&& m is Text ==> text_header_of(game, m->header@)
    &&& m is Binary ==> melted_opening(game, m->Binary_body@)
}

/// The state of a save that this library opened: the encoding is the one
/// that the game's parser found, the parser opens the bytes without fault,
/// HOI4 knows no zips, a CK3 or Imperator save is at least its save id line
/// long, and a zipped CK3 or Imperator save has an archive after that line.
pub open spec fn opened(game: Game, data: Seq<u8>, enc: Encoding) -> bool {
    &&& classify(game, data) == Some(enc)
    &&& safe_for(game, data)
    &&& game is Hoi4 ==> !enc.is_zip()
    &&& (game is Ck3 || game is Imperator) ==> data.len() >= 24
    &&& (game is Ck3 || game is Imperator) && enc.is_zip() ==> zip_layout_of(
        after_save_id(data),
    ) is Some
}

/// Checks that `data` starts with `magic`.
fn starts_with(data: &[u8], magic: &[u8]) -> (r: bool)
    ensures
        r == has_prefix(data@, magic@),
{
    if data.len() < magic.len() {
        return false;
    }
    let mut i: usize = 0;
    while i < magic.len()
        invariant
            i <= magic@.len() <= data@.len(),
            forall|j: int| 0 <= j < i ==> data@[j] == magic@[j],
        decreases magic@.len() - i,
    {
        if data[i] != magic[i] {
            assert(data@.subrange(0, magic@.len() as int)[i as int] != magic@[i as int]);
            return false;
        }
        i = i + 1;
    }
    assert(data@.subrange(0, magic@.len() as int) =~= magic@);
    true
}

/// What follows the save id line of `data`.
fn after_id_line(data: &[u8]) -> (r: &[u8])
    requires
        data@.len() >= 24,
    ensures
        r@ == after_save_id(data@),
{
    let len: usize = if data.len() > 24 && data[23] == 13u8 && data[24] == 10u8 {
        25
    } else {
        24
    };
    assert(len == save_id_len(data@));
    vstd::slice::slice_subrange(data, len, data.len())
}

/// Checks whether `data` starts with EU4's plaintext or binary magic.
fn has_eu4_magic(data: &[u8]) -> (r: bool)
    ensures
        r == (has_prefix(data@, eu4_text_magic()) || has_prefix(data@, eu4_binary_magic())),
{
    let text: Vec<u8> = vec![69u8, 85, 52, 116, 120, 116];
    let binary: Vec<u8> = vec![69u8, 85, 52, 98, 105, 110];
    assert(text@ =~= eu4_text_magic());
    assert(binary@ =~= eu4_binary_magic());
    starts_with(data, text.as_slice()) || starts_with(data, binary.as_slice())
}

/// Checks that the parser of `game` opens `data` without fault.
fn is_safe_for(game: Game, data: &[u8]) -> (r: bool)
    ensures
        r == safe_for(game, data@),
{
    match game {
        Game::Eu4 => {
            if has_eu4_magic(data) {
                return true;
            }
            let names = eu4_names();
            is_zip_walkable(data) && is_zip_named_readable(data, &names, 0)
        },
        Game::Ck3 | Game::Imperator => {
            if data.len() < 24 {
                true
            } else {
                is_zip_walkable(after_id_line(data))
            }
        },
        Game::Hoi4 => true,
    }
}

/// Checks that the parser of `game` reads the zipped entries of `data`
/// without fault.
fn is_readable_for(game: Game, data: &[u8]) -> (r: bool)
    ensures
        r == readable_for(game, data@),
{
    match game {
        Game::Eu4 => {
            if has_eu4_magic(data) {
                return true;
            }
            let names = eu4_names();
            is_zip_named_readable(data, &names, 6)
        },
        Game::Ck3 | Game::Imperator => {
            if data.len() < 24 {
                true
            } else {
                let gamestate: Vec<u8> = vec![103u8, 97, 109, 101, 115, 116, 97, 116, 101];
                assert(gamestate@ =~= crate::games::gamestate_names()[0]);
                let mut names: Vec<Vec<u8>> = Vec::new();
                names.push(gamestate);
                assert(names.deep_view()[0] == crate::games::gamestate_names()[0]);
                assert(names.deep_view() =~= crate::games::gamestate_names());
                is_zip_named_readable(after_id_line(data), &names, 0)
            }
        },
        Game::Hoi4 => true,
    }
}

/// The names of the entries that EU4's parser reads.
fn eu4_names() -> (r: Vec<Vec<u8>>)
    ensures
        r.deep_view() == crate::games::eu4_entry_names(),
{
    let meta: Vec<u8> = vec![109u8, 101, 116, 97];
    let gamestate: Vec<u8> = vec![103u8, 97, 109, 101, 115, 116, 97, 116, 101];
    let ai: Vec<u8> = vec![97u8, 105];
    let ghost names = crate::games::eu4_entry_names();
    assert(meta@ =~= names[0]);
    assert(gamestate@ =~= names[1]);
    assert(ai@ =~= names[2]);
    let mut r: Vec<Vec<u8>> = Vec::new();
    r.push(meta);
    r.push(gamestate);
    r.push(ai);
    assert(r.deep_view()[0] == names[0]);
    assert(r.deep_view()[1] == names[1]);
    assert(r.deep_view()[2] == names[2]);
    assert(r.deep_view() =~= names);
    r
}

/// Whether a melt reported a token that it could not name.
fn any_unknown(unknown: &Vec<u16>) -> (r: bool)
    ensures
        r == (unknown@.to_set() != Set::<u16>::empty()),
{
    if unknown.len() > 0 {
        assert(unknown@.to_set().contains(unknown@[0]));
        true
    } else {
        assert(unknown@.to_set() =~= Set::<u16>::empty());
        false
    }
}

/// `r` is what opening `data` as a save of `game` gives: the save when the
/// parser opens the bytes without fault and accepts them, with the encoding
/// it found (plaintext for EU4 and HOI4 bytes that start with the plaintext
/// magic); the internal-fault error when it would fault; else its error.
pub open spec fn open_outcome<'a>(game: Game, data: Seq<u8>, r: Result<PdsFile<'a>, LibError>) -> bool {
    &&& r is Ok <==> safe_for(game, data) && classify(game, data) is Some
    &&& r is Ok ==> {
        &&& r->Ok_0.wf()
        &&& r->Ok_0.game() == game
        &&& r->Ok_0.data() == data
        &&& Some(r->Ok_0.encoding()) == classify(game, data)
    }
    &&& game is Eu4 && has_prefix(data, eu4_text_magic()) ==> r is Ok && r->Ok_0.encoding()
        == Encoding::Text
    &&& game is Hoi4 && has_prefix(data, hoi4_text_magic()) ==> r is Ok && r->Ok_0.encoding()
        == Encoding::Text
    &&& !safe_for(game, data) ==> r is Err && r->Err_0 is Panic
    &&& safe_for(game, data) && r is Err ==> error_of(game, r->Err_0)
}

/// One save of one game: the borrowed bytes and how they are stored.
pub struct PdsFile<'a> {
    game: Game,
    data: &'a [u8],
    encoding: Encoding,
}

impl<'a> PdsFile<'a> {
    pub closed spec fn game(&self) -> Game {
        self.game
    }

    pub closed spec fn data(&self) -> Seq<u8> {
        self.data@
    }

    pub closed spec fn encoding(&self) -> Encoding {
        self.encoding
    }

    pub closed spec fn wf(&self) -> bool {
        opened(self.game, self.data@, self.encoding)
    }

    /// Opens `data` as a save of `game`; the game's parser decides whether
    /// the bytes are a save and how they are stored. An archive whose
    /// directory the parser would overflow on, or whose entries that the
    /// parser reads on opening reach past the bytes, is refused with the
    /// internal-fault error before the parser sees it.
    pub fn open(game: Game, data: &'a [u8]) -> (r: Result<PdsFile<'a>, LibError>)
        ensures
            open_outcome(game, data@, r),
    {
        if !is_safe_for(game, data) {
            return Err(LibError::Panic);
        }
        let opened = match game {
            Game::Eu4 => match eu4_open(data) {
                Ok(enc) => Ok(enc),
                Err(e) => Err(LibError::Eu4(e)),
            },
            Game::Ck3 => match ck3_open(data) {
                Ok(enc) => Ok(enc),
                Err(e) => Err(LibError::Ck3(e)),
            },
            Game::Imperator => match imperator_open(data) {
                Ok(enc) => Ok(enc),
                Err(e) => Err(LibError::Imperator(e)),
            },
            Game::Hoi4 => match hoi4_open(data) {
                Ok(enc) => Ok(enc),
                Err(e) => Err(LibError::Hoi4(e)),
            },
        };
        match opened {
            Ok(encoding) => Ok(PdsFile { game, data, encoding }),
            Err(e) => Err(e),
        }
    }

    /// The game of this save.
    pub fn game_of(&self) -> (r: Game)
        ensures
            r == self.game(),
    {
        self.game
    }

    /// How this save is stored.
    pub fn encoding_of(&self) -> (r: Encoding)
        ensures
            r == self.encoding(),
    {
        self.encoding
    }

    /// True when the save holds binary tokens, zipped or not.
    pub fn is_binary(&self) -> (r: bool)
        ensures
            r == self.encoding().is_binary(),
    {
        match self.encoding {
            Encoding::Binary | Encoding::BinaryZip => true,
            Encoding::Text | Encoding::TextZip => false,
        }
    }

    /// The part of the save that holds its metadata, where the game's format
    /// lets it be read on its own: any save of CK3 and Imperator, a zipped
    /// save of EU4, no save of HOI4.
    pub fn meta(&self) -> (r: Option<PdsMeta<'a>>)
        requires
            self.wf(),
        ensures
            r is Some <==> has_metadata(self.game(), self.encoding()),
            r is Some ==> {
                &&& r->Some_0.wf()
                &&& r->Some_0.game() == self.game()
                &&& r->Some_0.data() == self.data()
                &&& r->Some_0.encoding() == self.encoding()
            },
    {
        let supported = match self.game {
            Game::Eu4 => match self.encoding {
                Encoding::TextZip | Encoding::BinaryZip => true,
                Encoding::Text | Encoding::Binary => false,
            },
            Game::Ck3 | Game::Imperator => true,
            Game::Hoi4 => false,
        };
        if supported {
            Some(PdsMeta { game: self.game, data: self.data, encoding: self.encoding })
        } else {
            None
        }
    }

    /// Melts the save and hands the outcome over as a single-use result: the
    /// outcome of `melt_file`.
    pub fn melt(&self, tokens: &HashMap<u16, String>) -> (r: MeltedBufferResult)
        requires
            self.wf(),
        ensures
            melt_outcome(
                self.game(),
                self.data(),
                self.encoding(),
                tokens.deep_view(),
                r.as_result(),
            ),
            r is Value ==> melt_marks(self.game(), r->Value_0),
            self.encoding() == Encoding::TextZip ==> text_id_of(self.game(), self.data()) is Some,
    {
        MeltedBufferResult::from_result(self.melt_file(tokens))
    }

    /// Melts the save into plaintext, naming binary tokens through `tokens`.
    ///
    /// Plaintext is passed through without a call to the parser. Zipped
    /// plaintext is inflated and put behind a header that declares plaintext.
    /// Binary content is translated with unknown sections copied through and
    /// unknown tokens written as placeholders.
    pub fn melt_file(&self, tokens: &HashMap<u16, String>) -> (r: Result<MeltedBuffer, LibError>)
        requires
            self.wf(),
        ensures
            melt_outcome(self.game(), self.data(), self.encoding(), tokens.deep_view(), r),
            r is Ok ==> melt_marks(self.game(), r->Ok_0),
            self.encoding() == Encoding::TextZip ==> text_id_of(self.game(), self.data()) is Some,
    {
        match self.encoding {
            Encoding::Text => Ok(MeltedBuffer::Verbatim),
            Encoding::TextZip => self.melt_text_zip(),
            Encoding::Binary | Encoding::BinaryZip => {
                if !is_readable_for(self.game, self.data) {
                    return Err(LibError::Panic);
                }
                self.melt_binary(tokens)
            },
        }
    }

    /// The header that declares this save to be plaintext.
    fn text_header(&self) -> (r: Result<Vec<u8>, LibError>)
        requires
            self.wf(),
        ensures
            r is Ok <==> text_id_of(self.game(), self.data()) is Some,
            r is Ok ==> r->Ok_0@ == text_id_of(self.game(), self.data())->Some_0,
            r is Ok ==> text_header_of(self.game(), r->Ok_0@),
            r is Err ==> error_of(self.game(), r->Err_0),
            r is Ok,
    {
        text_header_for(self.game, self.data)
    }

    /// Inflates zipped plaintext and puts it behind a header that declares
    /// plaintext.
    fn melt_text_zip(&self) -> (r: Result<MeltedBuffer, LibError>)
        requires
            self.wf(),
            self.encoding() == Encoding::TextZip,
        ensures
            melt_outcome(self.game(), self.data(), self.encoding(), Map::empty(), r),
            r is Ok ==> text_header_of(self.game(), r->Ok_0->header@),
            text_id_of(self.game(), self.data()) is Some,
    {
        let header = match self.text_header() {
            Ok(h) => h,
            Err(e) => {
                return Err(e);
            },
        };
        if !is_readable_for(self.game, self.data) {
            return Err(LibError::Panic);
        }
        let body = match self.game {
            Game::Eu4 => match eu4_inflate(self.data) {
                Ok(body) => body,
                Err(e) => {
                    return Err(LibError::Eu4(e));
                },
            },
            Game::Ck3 => match ck3_inflate(self.data) {
                Ok(body) => body,
                Err(e) => {
                    return Err(LibError::Ck3(e));
                },
            },
            Game::Imperator => match imperator_inflate(self.data) {
                Ok(body) => body,
                Err(e) => {
                    return Err(LibError::Imperator(e));
                },
            },
            Game::Hoi4 => {
                // HOI4's parser knows no zipped saves.
                assert(false);
                return Err(LibError::Panic);
            },
        };
        Ok(MeltedBuffer::Text { header, body })
    }

    /// Translates binary content into plaintext.
    fn melt_binary(&self, tokens: &HashMap<u16, String>) -> (r: Result<MeltedBuffer, LibError>)
        requires
            self.wf(),
            self.encoding().is_binary(),
            readable_for(self.game(), self.data()),
        ensures
            melt_outcome(self.game(), self.data(), self.encoding(), tokens.deep_view(), r),
            r is Ok ==> melt_marks(self.game(), r->Ok_0),
    {
        let melted = match self.game {
            Game::Eu4 => match eu4_melt(self.data, tokens, MELT_VERBATIM, MELT_ON_FAILED_RESOLVE) {
                Ok(m) => m,
                Err(e) => {
                    return Err(LibError::Eu4(e));
                },
            },
            Game::Ck3 => match ck3_melt(self.data, tokens, MELT_VERBATIM, MELT_ON_FAILED_RESOLVE) {
                Ok(m) => m,
                Err(e) => {
                    return Err(LibError::Ck3(e));
                },
            },
            Game::Imperator => match imperator_melt(
                self.data,
                tokens,
                MELT_VERBATIM,
                MELT_ON_FAILED_RESOLVE,
            ) {
                Ok(m) => m,
                Err(e) => {
                    return Err(LibError::Imperator(e));
                },
            },
            Game::Hoi4 => match hoi4_melt(self.data, tokens, MELT_VERBATIM, MELT_ON_FAILED_RESOLVE) {
                Ok(m) => m,
                Err(e) => {
                    return Err(LibError::Hoi4(e));
                },
            },
        };
        match melted {
            Some((body, unknown)) => {
                let unknown_tokens = any_unknown(&unknown);
                Ok(MeltedBuffer::Binary { body, unknown_tokens })
            },
            None => {
                // The parser found binary content when the save was opened.
                assert(false);
                Err(LibError::Panic)
            },
        }
    }
}

/// The header that declares `data`, a save of `game` that this library
/// opened, to be plaintext.
fn text_header_for(game: Game, data: &[u8]) -> (r: Result<Vec<u8>, LibError>)
    requires
        classify(game, data@) is Some,
    ensures
        r is Ok <==> text_id_of(game, data@) is Some,
        r is Ok ==> r->Ok_0@ == text_id_of(game, data@)->Some_0,
        r is Ok ==> text_header_of(game, r->Ok_0@),
        r is Err ==> error_of(game, r->Err_0),
        r is Ok,
{
    match game {
        Game::Eu4 => {
            let header: Vec<u8> = vec![69u8, 85, 52, 116, 120, 116];
            assert(header@ =~= eu4_text_magic());
            Ok(header)
        },
        Game::Hoi4 => {
            let header: Vec<u8> = vec![72u8, 79, 73, 52, 116, 120, 116];
            assert(header@ =~= hoi4_text_magic());
            Ok(header)
        },
        Game::Ck3 => match ck3_id_line(data, SaveIdKind::Text) {
            Ok(h) => Ok(h),
            Err(e) => Err(LibError::Ck3(e)),
        },
        Game::Imperator => match imperator_id_line(data, SaveIdKind::Text) {
            Ok(h) => Ok(h),
            Err(e) => Err(LibError::Imperator(e)),
        },
    }
}

/// A save of `game` stored as `enc` has a metadata section that can be read
/// on its own.
pub open spec fn has_metadata(game: Game, enc: Encoding) -> bool {
    match game {
        Game::Eu4 => enc.is_zip(),
        Game::Ck3 | Game::Imperator => true,
        Game::Hoi4 => false,
    }
}

/// The metadata section of a zipped CK3 or Imperator save: the plaintext or
/// binary bytes between its save id line and the archive.
pub open spec fn metadata_section(data: Seq<u8>) -> Seq<u8> {
    after_save_id(data).subrange(0, zip_layout_of(after_save_id(data))->Some_0.1 as int)
}

/// What the parser of `game` melts the metadata section of `data` into.
pub open spec fn meta_melted_of(
    game: Game,
    data: Seq<u8>,
    tokens: Map<u16, Seq<char>>,
    verbatim: bool,
    on_failed: FailedResolve,
) -> Option<Option<(Seq<u8>, Set<u16>)>> {
    match game {
        Game::Ck3 => ck3_meta_melted(data, tokens, verbatim, on_failed),
        Game::Imperator => imperator_meta_melted(data, tokens, verbatim, on_failed),
        _ => None,
    }
}

/// What melting the metadata of `data`, a save of `game` stored as `enc`,
/// with `tokens` gives, with the policy of a whole save. EU4: the first entry
/// of the zip when it is `meta`, inflated behind the header that declares
/// plaintext or melted, and an unsupported operation when it is not. CK3 and
/// Imperator: plaintext passes through; the metadata section of a zipped
/// plaintext save stands behind the header that declares plaintext; binary
/// metadata is what the parser melts it into. Each failure of the parser
/// fails the melt with its error.
pub open spec fn meta_outcome(
    game: Game,
    data: Seq<u8>,
    enc: Encoding,
    tokens: Map<u16, Seq<char>>,
    r: Result<MeltedBuffer, LibError>,
) -> bool {
    match game {
        Game::Eu4 => match eu4_first_entry_of(data) {
            None => fails_in(r, game),
            Some(Some(Eu4Entry::Meta)) => if !eu4_entries_readable(data) {
                faulted(r)
            } else {
                match eu4_first_entry_melted(data, tokens, MELT_VERBATIM, MELT_ON_FAILED_RESOLVE) {
                    Some(Some((b, Some(u)))) => is_translated(r, b, u) && reports_unknown(
                        b,
                        u,
                        tokens,
                    ),
                    Some(Some((b, None))) => is_text_with(r, eu4_text_magic(), b),
                    _ => fails_in(r, game),
                }
            },
            Some(_) => r is Err && r->Err_0 is UnsupportedOperation,
        },
        Game::Ck3 | Game::Imperator => match enc {
            Encoding::Text => r == Ok::<MeltedBuffer, LibError>(MeltedBuffer::Verbatim),
            Encoding::TextZip => match text_id_of(game, data) {
                Some(h) => is_text_with(r, h, metadata_section(data)),
                None => fails_in(r, game),
            },
            Encoding::Binary | Encoding::BinaryZip => match meta_melted_of(
                game,
                data,
                tokens,
                MELT_VERBATIM,
                MELT_ON_FAILED_RESOLVE,
            ) {
                Some(Some((b, u))) => is_translated(r, b, u) && reports_unknown(b, u, tokens),
                _ => fails_in(r, game),
            },
        },
        Game::Hoi4 => false,
    }
}

/// The metadata section of a save.
pub struct PdsMeta<'a> {
    game: Game,
    data: &'a [u8],
    encoding: Encoding,
}

impl<'a> PdsMeta<'a> {
    pub closed spec fn game(&self) -> Game {
        self.game
    }

    pub closed spec fn data(&self) -> Seq<u8> {
        self.data@
    }

    pub closed spec fn encoding(&self) -> Encoding {
        self.encoding
    }

    /// The save was opened by this library and its game lets the metadata be
    /// read on its own.
    pub closed spec fn wf(&self) -> bool {
        &&& opened(self.game, self.data@, self.encoding)
        &&& has_metadata(self.game, self.encoding)
    }

    /// The game of the save.
    pub fn game_of(&self) -> (r: Game)
        ensures
            r == self.game(),
    {
        self.game
    }

    /// Melts the metadata into plaintext, naming binary tokens through
    /// `tokens`, with the policy of a whole save.
    pub fn melt_meta(&self, tokens: &HashMap<u16, String>) -> (r: Result<MeltedBuffer, LibError>)
        requires
            self.wf(),
        ensures
            meta_outcome(self.game(), self.data(), self.encoding(), tokens.deep_view(), r),
            r is Ok ==> melt_marks(self.game(), r->Ok_0),
            (self.game() is Ck3 || self.game() is Imperator) && self.encoding() == Encoding::TextZip
                ==> text_id_of(self.game(), self.data()) is Some,
    {
        match self.game {
            Game::Eu4 => self.melt_eu4_meta(tokens),
            Game::Ck3 | Game::Imperator => match self.encoding {
                Encoding::Text => Ok(MeltedBuffer::Verbatim),
                Encoding::TextZip => self.melt_text_meta(),
                Encoding::Binary | Encoding::BinaryZip => self.melt_binary_meta(tokens),
            },
            Game::Hoi4 => {
                // HOI4 saves have no metadata handle.
                assert(false);
                Err(LibError::Panic)
            },
        }
    }

    /// Melts the metadata and hands the outcome over as a single-use result:
    /// the outcome of `melt_meta`.
    pub fn melt(&self, tokens: &HashMap<u16, String>) -> (r: MeltedBufferResult)
        requires
            self.wf(),
        ensures
            meta_outcome(
                self.game(),
                self.data(),
                self.encoding(),
                tokens.deep_view(),
                r.as_result(),
            ),
            r is Value ==> melt_marks(self.game(), r->Value_0),
    {
        MeltedBufferResult::from_result(self.melt_meta(tokens))
    }

    /// The metadata section of a zipped plaintext CK3 or Imperator save
    /// behind the header that declares plaintext.
    fn melt_text_meta(&self) -> (r: Result<MeltedBuffer, LibError>)
        requires
            self.wf(),
            self.game() is Ck3 || self.game() is Imperator,
            self.encoding() == Encoding::TextZip,
        ensures
            match text_id_of(self.game(), self.data()) {
                Some(h) => is_text_with(r, h, metadata_section(self.data())),
                None => fails_in(r, self.game()),
            },
            r is Ok ==> text_header_of(self.game(), r->Ok_0->header@),
            text_id_of(self.game(), self.data()) is Some,
    {
        let header = match text_header_for(self.game, self.data) {
            Ok(h) => h,
            Err(e) => {
                return Err(e);
            },
        };
        let rest = after_id_line(self.data);
        let offset = match zip_layout(rest) {
            Some((_, offset)) => offset,
            None => {
                // The archive was found when the save was opened.
                assert(false);
                0
            },
        };
        let n = rest.len();
        assert(offset <= n);
        let end: usize = offset as usize;
        let section = vstd::slice::slice_subrange(rest, 0, end);
        let body = vstd::slice::slice_to_vec(section);
        Ok(MeltedBuffer::Text { header, body })
    }

    /// Translates binary CK3 or Imperator metadata into plaintext.
    fn melt_binary_meta(&self, tokens: &HashMap<u16, String>) -> (r: Result<MeltedBuffer, LibError>)
        requires
            self.wf(),
            self.game() is Ck3 || self.game() is Imperator,
            self.encoding().is_binary(),
        ensures
            match meta_melted_of(
                self.game(),
                self.data(),
                tokens.deep_view(),
                MELT_VERBATIM,
                MELT_ON_FAILED_RESOLVE,
            ) {
                Some(Some((b, u))) => is_translated(r, b, u) && reports_unknown(
                    b,
                    u,
                    tokens.deep_view(),
                ),
                _ => fails_in(r, self.game()),
            },
            r is Ok ==> melt_marks(self.game(), r->Ok_0),
    {
        let melted = if let Game::Ck3 = self.game {
            match ck3_melt_meta(self.data, tokens, MELT_VERBATIM, MELT_ON_FAILED_RESOLVE) {
                Ok(m) => m,
                Err(e) => {
                    return Err(LibError::Ck3(e));
                },
            }
        } else {
            match imperator_melt_meta(self.data, tokens, MELT_VERBATIM, MELT_ON_FAILED_RESOLVE) {
                Ok(m) => m,
                Err(e) => {
                    return Err(LibError::Imperator(e));
                },
            }
        };
        match melted {
            Some((body, unknown)) => {
                let unknown_tokens = any_unknown(&unknown);
                Ok(MeltedBuffer::Binary { body, unknown_tokens })
            },
            None => {
                // The parser found binary content when the save was opened.
                assert(false);
                Err(LibError::Panic)
            },
        }
    }

    /// The `meta` entry of a zipped EU4 save, inflated or melted.
    fn melt_eu4_meta(&self, tokens: &HashMap<u16, String>) -> (r: Result<MeltedBuffer, LibError>)
        requires
            self.wf(),
            self.game() is Eu4,
        ensures
            meta_outcome(self.game(), self.data(), self.encoding(), tokens.deep_view(), r),
            r is Ok ==> melt_marks(self.game(), r->Ok_0),
    {
        match eu4_first_entry(self.data) {
            Ok(Some(Eu4Entry::Meta)) => {},
            Ok(_) => {
                return Err(
                    LibError::UnsupportedOperation(String::from_str("zip without a meta entry")),
                );
            },
            Err(e) => {
                return Err(LibError::Eu4(e));
            },
        }
        if !is_readable_for(self.game, self.data) {
            return Err(LibError::Panic);
        }
        match eu4_melt_first_entry(self.data, tokens, MELT_VERBATIM, MELT_ON_FAILED_RESOLVE) {
            Ok(Some((body, Some(unknown)))) => {
                let unknown_tokens = any_unknown(&unknown);
                Ok(MeltedBuffer::Binary { body, unknown_tokens })
            },
            Ok(Some((body, None))) => {
                let header: Vec<u8> = vec![69u8, 85, 52, 116, 120, 116];
                assert(header@ =~= eu4_text_magic());
                Ok(MeltedBuffer::Text { header, body })
            },
            Ok(None) => {
                // The first entry was found above.
                assert(false);
                Err(LibError::Panic)
            },
            Err(e) => Err(LibError::Eu4(e)),
        }
    }
}

/// The outcome of opening a save, handed to a caller: the save or the error,
/// until one of them is taken out.
pub enum PdsFileResult<'a> {
    Value(PdsFile<'a>),
    Failure(LibError),
}

impl<'a> PdsFileResult<'a> {
    /// Opens `data` as a save of `game`.
    pub fn open(game: Game, data: &'a [u8]) -> (r: PdsFileResult<'a>)
        ensures
            open_outcome(
                game,
                data@,
                match r {
                    PdsFileResult::Value(f) => Ok(f),
                    PdsFileResult::Failure(e) => Err(e),
                },
            ),
    {
        match PdsFile::open(game, data) {
            Ok(f) => PdsFileResult::Value(f),
            Err(e) => PdsFileResult::Failure(e),
        }
    }

    /// Taking the error out of this result succeeds.
    pub open spec fn yields_error(&self) -> bool {
        self is Failure
    }

    /// Taking the value out of this result succeeds.
    pub open spec fn yields_value(&self) -> bool {
        self is Value
    }

    pub fn is_err(&self) -> (r: bool)
        ensures
            r == self.yields_error(),
    {
        match self {
            PdsFileResult::Value(_) => false,
            PdsFileResult::Failure(_) => true,
        }
    }

    /// Consumes the result and returns the message of its error; a result
    /// that holds a save is handed back unchanged.
    pub fn take_error(self) -> (r: Result<PdsError, PdsFileResult<'a>>)
        ensures
            r is Ok <==> self.yields_error(),
            self.yields_error() ==> self->Failure_0.described_by(r->Ok_0.text()),
            !self.yields_error() ==> r == Err::<PdsError, PdsFileResult<'a>>(self),
    {
        match self {
            PdsFileResult::Failure(e) => Ok(PdsError::from(&e)),
            PdsFileResult::Value(v) => Err(PdsFileResult::Value(v)),
        }
    }

    /// Consumes the result and returns its save; a result that holds an
    /// error is handed back unchanged.
    pub fn take_value(self) -> (r: Result<PdsFile<'a>, PdsFileResult<'a>>)
        ensures
            r is Ok <==> self.yields_value(),
            self.yields_value() ==> r == Ok::<PdsFile<'a>, PdsFileResult<'a>>(self->Value_0),
            !self.yields_value() ==> r == Err::<PdsFile<'a>, PdsFileResult<'a>>(self),
    {
        match self {
            PdsFileResult::Value(v) => Ok(v),
            PdsFileResult::Failure(e) => Err(PdsFileResult::Failure(e)),
        }
    }
}

/// Exactly one of taking the error and taking the value succeeds on the
/// outcome of opening a save; the other hands the result back.
pub proof fn lemma_file_result_one_branch(r: PdsFileResult)
    ensures
        r.yields_error() != r.yields_value(),
{
}

/// Melting plaintext is idempotent: when a save of `game` melts to the
/// verbatim shape, the caller keeps its bytes unchanged, the game's parser
/// classifies those bytes as plaintext again, and every melt of them, with
/// any token table, yields the verbatim shape again.
pub proof fn lemma_verbatim_round_trip(
    game: Game,
    data: Seq<u8>,
    tokens: Map<u16, Seq<char>>,
    first: Result<MeltedBuffer, LibError>,
    again: Map<u16, Seq<char>>,
    second: Result<MeltedBuffer, LibError>,
)
    requires
        classify(game, data) is Some,
        melt_outcome(game, data, classify(game, data)->Some_0, tokens, first),
        first == Ok::<MeltedBuffer, LibError>(MeltedBuffer::Verbatim),
        melt_outcome(game, data, classify(game, data)->Some_0, again, second),
    ensures
        classify(game, data) == Some(Encoding::Text),
        second == Ok::<MeltedBuffer, LibError>(MeltedBuffer::Verbatim),
{
}

/// Melted output of an EU4 or HOI4 save, opened again, is plaintext and
/// melts to the verbatim shape: feeding melted text back through open and
/// melt does nothing.
pub proof fn lemma_melted_reopens<'a>(
    game: Game,
    body: Seq<u8>,
    reopened: Result<PdsFile<'a>, LibError>,
    tokens: Map<u16, Seq<char>>,
    second: Result<MeltedBuffer, LibError>,
)
    requires
        game is Eu4 || game is Hoi4,
        melted_opening(game, body),
        open_outcome(game, body, reopened),
        melt_outcome(game, body, reopened->Ok_0.encoding(), tokens, second),
    ensures
        reopened is Ok,
        reopened->Ok_0.encoding() == Encoding::Text,
        second == Ok::<MeltedBuffer, LibError>(MeltedBuffer::Verbatim),
{
}

/// A save that reports binary content melts, when it melts, to the
/// translated shape and never to the verbatim one; a save that reports none
/// never melts to the translated shape.
pub proof fn lemma_encoding_agreement(
    game: Game,
    data: Seq<u8>,
    enc: Encoding,
    tokens: Map<u16, Seq<char>>,
    r: Result<MeltedBuffer, LibError>,
)
    requires
        melt_outcome(game, data, enc, tokens, r),
        r is Ok,
    ensures
        enc.is_binary() <==> r->Ok_0 is Binary,
        enc.is_binary() ==> !(r->Ok_0 is Verbatim),
{
}

} // verus!
