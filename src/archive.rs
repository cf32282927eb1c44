//! What the zip reader that the EU4, CK3 and Imperator parsers share reports
//! about an archive, and the checks that those parsers can walk it safely.
//!
//! The parsers trust the sizes and offsets in an archive's central directory:
//! they add them up when they open a save, and slice the save bytes with those
//! of the entries they read. An archive that would make such an addition
//! overflow, or an entry that the parser reads reach past the bytes, makes
//! them fault, so such archives are refused before any parser sees them.
use vstd::prelude::*;

verus! {

/// The number of entries and the offset of the archive's start that the zip
/// reader finds in `data`, or `None` when it reads no archive there.
pub uninterp spec fn zip_layout_of(data: Seq<u8>) -> Option<(usize, u64)>;

/// Where the stored data of entry `i` of the archive in `data` starts, its
/// stored size, its declared inflated size and its name, or `None` when the
/// reader cannot locate the entry.
pub uninterp spec fn zip_entry_of(data: Seq<u8>, i: int) -> Option<(u64, u64, u64, Seq<u8>)>;

/// The end of entry `i` of the archive in `data` is a 64-bit offset.
pub open spec fn entry_end_representable(data: Seq<u8>, i: int) -> bool {
    match zip_entry_of(data, i) {
        Some((start, stored, _, _)) => start + stored <= u64::MAX,
        None => true,
    }
}

/// When entry `i` of the archive in `data` is named one of `names`, it lies
/// within the bytes and declares an inflated size of at least `min_size`
/// bytes and at most `u32::MAX`.
pub open spec fn entry_readable(data: Seq<u8>, i: int, names: Seq<Seq<u8>>, min_size: nat) -> bool {
    match zip_entry_of(data, i) {
        Some((start, stored, inflated, name)) => names.contains(name) ==> {
            &&& start + stored <= data.len()
            &&& min_size <= inflated <= u32::MAX
        },
        None => true,
    }
}

/// A parser can open the archive in `data`, if there is one: it starts within
/// the bytes and each entry that the reader locates ends at a 64-bit offset.
pub open spec fn zip_walkable(data: Seq<u8>) -> bool {
    match zip_layout_of(data) {
        Some((count, offset)) => {
            &&& offset <= data.len()
            &&& forall|i: int| 0 <= i < count ==> #[trigger] entry_end_representable(data, i)
        },
        None => true,
    }
}

/// A parser can read the entries named one of `names` of the archive in
/// `data`, if there is one.
pub open spec fn zip_named_readable(data: Seq<u8>, names: Seq<Seq<u8>>, min_size: nat) -> bool {
    match zip_layout_of(data) {
        Some((count, _)) => forall|i: int|
            0 <= i < count ==> #[trigger] entry_readable(data, i, names, min_size),
        None => true,
    }
}

/// Relies on zip::ZipArchive::new, ZipArchive::len and ZipArchive::offset:
/// the entry count and start offset of the archive in `data`.
#[verifier::external_body]
pub(crate) fn zip_layout(data: &[u8]) -> (r: Option<(usize, u64)>)
    ensures
        r == zip_layout_of(data@),
{
    match zip::ZipArchive::new(std::io::Cursor::new(data)) {
        Ok(archive) => Some((archive.len(), archive.offset())),
        Err(_) => None,
    }
}

/// Relies on zip::ZipArchive::new, ZipArchive::by_index_raw and
/// ZipFile::data_start, compressed_size, size and name: where entry `i`
/// starts, its stored size, its inflated size and its name.
#[verifier::external_body]
pub(crate) fn zip_entry(data: &[u8], i: usize) -> (r: Option<(u64, u64, u64, Vec<u8>)>)
    ensures
        r is Some <==> zip_entry_of(data@, i as int) is Some,
        r is Some ==> zip_entry_of(data@, i as int) == Some(
            (r->Some_0.0, r->Some_0.1, r->Some_0.2, r->Some_0.3@),
        ),
{
    let mut archive = zip::ZipArchive::new(std::io::Cursor::new(data)).ok()?;
    let file = archive.by_index_raw(i).ok()?;
    Some((file.data_start(), file.compressed_size(), file.size(), file.name().as_bytes().to_vec()))
}

/// Checks that a parser can open the archive in `data`.
pub fn is_zip_walkable(data: &[u8]) -> (r: bool)
    ensures
        r == zip_walkable(data@),
{
    let len = data.len() as u64;
    let (count, offset) = match zip_layout(data) {
        Some(layout) => layout,
        None => {
            return true;
        },
    };
    if offset > len {
        return false;
    }
    let mut i: usize = 0;
    while i < count
        invariant
            i <= count,
            len == data@.len(),
            zip_layout_of(data@) == Some((count, offset)),
            forall|j: int| 0 <= j < i ==> #[trigger] entry_end_representable(data@, j),
        decreases count - i,
    {
        if let Some((start, stored, _, _)) = zip_entry(data, i) {
            if stored > u64::MAX - start {
                assert(!entry_end_representable(data@, i as int));
                return false;
            }
        }
        i = i + 1;
    }
    true
}

/// Checks that `name` is one of `names`.
fn is_one_of(name: &Vec<u8>, names: &Vec<Vec<u8>>) -> (r: bool)
    ensures
        r == names.deep_view().contains(name@),
{
    let mut i: usize = 0;
    while i < names.len()
        invariant
            i <= names@.len(),
            forall|j: int| 0 <= j < i ==> names@[j]@ != name@,
        decreases names@.len() - i,
    {
        if bytes_equal(&names[i], name) {
            assert(names.deep_view()[i as int] == name@);
            return true;
        }
        i = i + 1;
    }
    assert(!names.deep_view().contains(name@)) by {
        if names.deep_view().contains(name@) {
            let j = choose|j: int| 0 <= j < names.deep_view().len() && names.deep_view()[j] == name@;
            assert(names@[j]@ == name@);
        }
    }
    false
}

/// Checks that `a` and `b` hold the same bytes.
fn bytes_equal(a: &Vec<u8>, b: &Vec<u8>) -> (r: bool)
    ensures
        r == (a@ == b@),
{
    if a.len() != b.len() {
        return false;
    }
    let mut i: usize = 0;
    while i < a.len()
        invariant
            i <= a@.len() == b@.len(),
            forall|j: int| 0 <= j < i ==> a@[j] == b@[j],
        decreases a@.len() - i,
    {
        if a[i] != b[i] {
            return false;
        }
        i = i + 1;
    }
    assert(a@ =~= b@);
    true
}

/// Checks that a parser can read the entries named one of `names` of the
/// archive in `data`.
pub fn is_zip_named_readable(data: &[u8], names: &Vec<Vec<u8>>, min_size: u64) -> (r: bool)
    ensures
        r == zip_named_readable(data@, names.deep_view(), min_size as nat),
{
    let len = data.len() as u64;
    let count = match zip_layout(data) {
        Some((count, _)) => count,
        None => {
            return true;
        },
    };
    let mut i: usize = 0;
    while i < count
        invariant
            i <= count,
            len == data@.len(),
            zip_layout_of(data@) is Some,
            zip_layout_of(data@)->Some_0.0 == count,
            forall|j: int|
                0 <= j < i ==> #[trigger] entry_readable(data@, j, names.deep_view(), min_size as nat),
        decreases count - i,
    {
        if let Some((start, stored, inflated, name)) = zip_entry(data, i) {
            if is_one_of(&name, names) {
                if start > len || stored > len - start || inflated < min_size || inflated
                    > 0xffff_ffff {
                    assert(!entry_readable(data@, i as int, names.deep_view(), min_size as nat));
                    return false;
                }
            }
        }
        i = i + 1;
    }
    true
}

} // verus!
