use crate::text::occurs_in;
use crate::text::str_contains;
use std::io::Cursor;
use std::io::Read;
use vstd::prelude::*;
use zip::result::ZipError;
use zip::ZipArchive;

verus! {

/// `zip::ZipArchive`, the reader of an archive; nothing inside it is visible
/// to the proofs.
#[verifier::external_type_specification]
#[verifier::external_body]
#[verifier::reject_recursive_types(R)]
pub struct ExZipArchive<R>(ZipArchive<R>);

/// `std::io::Cursor`, the seekable reader over bytes held in memory that the
/// archive reader works on.
#[verifier::external_type_specification]
#[verifier::external_body]
#[verifier::reject_recursive_types(T)]
pub struct ExCursor<T>(Cursor<T>);

/// `zip::result::ZipError`, the reason the archive reader gives when it fails.
#[verifier::external_type_specification]
#[verifier::external_body]
pub struct ExZipError(ZipError);

/// The bytes that an archive reader was opened on.
pub uninterp spec fn archive_source(archive: ZipArchive<Cursor<Vec<u8>>>) -> Seq<u8>;

/// Whether `bytes` open as an archive: whether a central directory is found
/// in them and can be parsed.
pub uninterp spec fn zip_opens(bytes: Seq<u8>) -> bool;

/// The entry names that the central directory of the archive `bytes` lists,
/// in directory order; `None` where a name cannot be decoded.
pub uninterp spec fn zip_names(bytes: Seq<u8>) -> Option<Seq<Seq<char>>>;

/// The decompressed content of the entry called `name` in the archive
/// `bytes`; `None` where there is no such entry or it cannot be read whole.
pub uninterp spec fn zip_entry(bytes: Seq<u8>, name: Seq<char>) -> Option<Seq<u8>>;

/// The views of a list of strings.
pub open spec fn views_of(names: Seq<String>) -> Seq<Seq<char>> {
    names.map_values(|s: String| s@)
}

/// `zip::ZipArchive::new` on a cursor over `bytes`: parses the central
/// directory. Whether that succeeds depends on the bytes alone, and the
/// reader that comes back works on exactly these bytes.
#[verifier::external_body]
fn open_archive(bytes: Vec<u8>) -> (r: Result<ZipArchive<Cursor<Vec<u8>>>, ZipError>)
    ensures
        r is Ok <==> zip_opens(bytes@),
        r matches Ok(archive) ==> archive_source(archive) == bytes@,
{
    ZipArchive::new(Cursor::new(bytes))
}

/// `zip::ZipArchive::file_names`, collected: the names in directory order,
/// or the first failure to decode one. What is listed depends only on the
/// bytes that the reader was opened on.
#[verifier::external_body]
fn archive_names(archive: &ZipArchive<Cursor<Vec<u8>>>) -> (r: Result<Vec<String>, ZipError>)
    ensures
        match r {
            Ok(names) => zip_names(archive_source(*archive)) == Some(views_of(names@)),
            Err(_) => zip_names(archive_source(*archive)) is None,
        },
{
    archive.file_names().map(|name| name.map(|n| n.into_owned())).collect()
}

/// `zip::ZipArchive::by_name` followed by `Read::read_to_end` on the entry it
/// finds: the whole decompressed content, or the failure to find or read it.
/// What is read depends only on the name and on the bytes that the reader
/// was opened on, which stay the same.
#[verifier::external_body]
fn archive_read(archive: &mut ZipArchive<Cursor<Vec<u8>>>, name: &str) -> (r: Result<
    Vec<u8>,
    ZipError,
>)
    ensures
        archive_source(*final(archive)) == archive_source(*old(archive)),
        match r {
            Ok(content) => zip_entry(archive_source(*old(archive)), name@) == Some(content@),
            Err(_) => zip_entry(archive_source(*old(archive)), name@) is None,
        },
{
    let mut entry = archive.by_name(name)?;
    let mut content = Vec::new();
    entry.read_to_end(&mut content)?;
    Ok(content)
}

/// Why no entry came out of an archive.
#[derive(Debug, Clone, Copy, PartialEq, Eq, Structural)]
pub enum SelectionError {
    /// The bytes are no archive, or the wanted entry cannot be read.
    CorruptArchive,
    /// No entry name passes both filters.
    EntryNotFound,
}

/// `name` holds both `prefix` and `token`, wherever and in whatever order.
pub open spec fn passes_filters(name: Seq<char>, prefix: Seq<char>, token: Seq<char>) -> bool {
    occurs_in(prefix, name) && occurs_in(token, name)
}

/// `at` is the place of the first name in `names` that passes both filters.
pub open spec fn is_first_match(
    names: Seq<Seq<char>>,
    prefix: Seq<char>,
    token: Seq<char>,
    at: int,
) -> bool {
    &&& 0 <= at < names.len()
    &&& passes_filters(names[at], prefix, token)
    &&& forall|j: int| 0 <= j < at ==> !passes_filters(#[trigger] names[j], prefix, token)
}

/// No name in `names` passes both filters.
pub open spec fn no_match(names: Seq<Seq<char>>, prefix: Seq<char>, token: Seq<char>) -> bool {
    forall|j: int| 0 <= j < names.len() ==> !passes_filters(#[trigger] names[j], prefix, token)
}

/// The entry names of the archive `bytes`; `None` where the bytes are no
/// archive or its names cannot all be told.
pub open spec fn listing(bytes: Seq<u8>) -> Option<Seq<Seq<char>>> {
    if zip_opens(bytes) {
        zip_names(bytes)
    } else {
        None
    }
}

/// What selection yields on the archive `bytes`: the content of the first
/// entry whose name passes both filters.
pub open spec fn select_spec(bytes: Seq<u8>, prefix: Seq<char>, token: Seq<char>) -> Result<
    Seq<u8>,
    SelectionError,
> {
    match listing(bytes) {
        None => Err(SelectionError::CorruptArchive),
        Some(names) => if exists|at: int| is_first_match(names, prefix, token, at) {
            let at = choose|at: int| is_first_match(names, prefix, token, at);
            match zip_entry(bytes, names[at]) {
                Some(content) => Ok(content),
                None => Err(SelectionError::CorruptArchive),
            }
        } else {
            Err(SelectionError::EntryNotFound)
        },
    }
}

/// The outcome of a selection with the content read as a sequence.
pub open spec fn selection_view(r: Result<Vec<u8>, SelectionError>) -> Result<
    Seq<u8>,
    SelectionError,
> {
    match r {
        Ok(content) => Ok(content@),
        Err(e) => Err(e),
    }
}

/// Two places that are both the first match are the same place.
pub proof fn lemma_first_match_is_unique(
    names: Seq<Seq<char>>,
    prefix: Seq<char>,
    token: Seq<char>,
    a: int,
    b: int,
)
    requires
        is_first_match(names, prefix, token, a),
        is_first_match(names, prefix, token, b),
    ensures
        a == b,
{
    if a < b {
        assert(!passes_filters(names[a], prefix, token));
    } else if b < a {
        assert(!passes_filters(names[b], prefix, token));
    }
}

/// The place of the first of `names` that holds both `prefix` and `token`.
pub fn first_match(names: &Vec<String>, prefix: &str, token: &str) -> (r: Option<usize>)
    ensures
        match r {
            Some(at) => is_first_match(views_of(names@), prefix@, token@, at as int),
            None => no_match(views_of(names@), prefix@, token@),
        },
{
    let mut i: usize = 0;
    while i < names.len()
        invariant
            i <= names.len(),
            forall|j: int|
                0 <= j < i ==> !passes_filters(#[trigger] views_of(names@)[j], prefix@, token@),
        decreases names.len() - i,
    {
        let name = names[i].as_str();
        if str_contains(name, prefix) && str_contains(name, token) {
            return Some(i);
        }
        i = i + 1;
    }
    None
}

/// Opens `raw_bytes` as an archive and returns the content of the first
/// entry whose name holds both `family_prefix` and `table_token`.
pub fn select_entry(raw_bytes: Vec<u8>, family_prefix: &str, table_token: &str) -> (r: Result<
    Vec<u8>,
    SelectionError,
>)
    ensures
        selection_view(r) == select_spec(raw_bytes@, family_prefix@, table_token@),
{
    let mut archive = match open_archive(raw_bytes) {
        Ok(archive) => archive,
        Err(_) => {
            return Err(SelectionError::CorruptArchive);
        },
    };
    let names = match archive_names(&archive) {
        Ok(names) => names,
        Err(_) => {
            return Err(SelectionError::CorruptArchive);
        },
    };
    match first_match(&names, family_prefix, table_token) {
        None => {
            assert forall|at: int|
                !is_first_match(views_of(names@), family_prefix@, table_token@, at) by {
                if 0 <= at < names@.len() {
                    assert(!passes_filters(views_of(names@)[at], family_prefix@, table_token@));
                }
            }
            Err(SelectionError::EntryNotFound)
        },
        Some(at) => {
            proof {
                let chosen = choose|c: int|
                    is_first_match(views_of(names@), family_prefix@, table_token@, c);
                lemma_first_match_is_unique(
                    views_of(names@),
                    family_prefix@,
                    table_token@,
                    at as int,
                    chosen,
                );
            }
            match archive_read(&mut archive, names[at].as_str()) {
                Ok(content) => Ok(content),
                Err(_) => Err(SelectionError::CorruptArchive),
            }
        },
    }
}

/// Where exactly one entry name passes both filters and that entry can be
/// read, selection yields that entry's content.
pub proof fn law_single_match_is_selected(
    bytes: Seq<u8>,
    prefix: Seq<char>,
    token: Seq<char>,
    at: int,
)
    requires
        listing(bytes) is Some,
        0 <= at < listing(bytes)->Some_0.len(),
        forall|j: int|
            0 <= j < listing(bytes)->Some_0.len() ==> (passes_filters(
                #[trigger] listing(bytes)->Some_0[j],
                prefix,
                token,
            ) <==> j == at),
        zip_entry(bytes, listing(bytes)->Some_0[at]) is Some,
    ensures
        select_spec(bytes, prefix, token) == Ok::<Seq<u8>, SelectionError>(
            zip_entry(bytes, listing(bytes)->Some_0[at])->Some_0,
        ),
{
    let names = listing(bytes)->Some_0;
    assert(passes_filters(names[at], prefix, token));
    assert(is_first_match(names, prefix, token, at));
    let chosen = choose|c: int| is_first_match(names, prefix, token, c);
    lemma_first_match_is_unique(names, prefix, token, at, chosen);
}

/// Where the bytes open as an archive and no entry name passes both
/// filters, selection reports that the entry was not found.
pub proof fn law_no_match_is_not_found(bytes: Seq<u8>, prefix: Seq<char>, token: Seq<char>)
    requires
        listing(bytes) is Some,
        no_match(listing(bytes)->Some_0, prefix, token),
    ensures
        select_spec(bytes, prefix, token) == Err::<Seq<u8>, SelectionError>(
            SelectionError::EntryNotFound,
        ),
{
    let names = listing(bytes)->Some_0;
    assert forall|at: int| !is_first_match(names, prefix, token, at) by {
        if 0 <= at < names.len() {
            assert(!passes_filters(names[at], prefix, token));
        }
    }
}

} // verus!
