//! Reading a cached image back: the extension of a cached file is not
//! recorded anywhere, so the file for an index is found by its stem among the
//! entries of the project's directory.

use vstd::prelude::*;
use crate::encoding::{base64_fits, base64_standard, encode_standard};
use crate::image_cache::{
    content_type_of, extension_of, file_name_of, get_content_type, lemma_file_name_last_dot,
    CacheError, CachedFileData,
};
use crate::text::{
    chars_eq, chars_last_index_of, decimal, is_last_index_of, str_chars, u64_to_string,
};

verus! {

/// The entry's name has a dot, and what stands before its last dot is the
/// decimal form of `index`.
pub open spec fn entry_matches(name: Seq<char>, index: nat) -> bool {
    exists|at: int| is_last_index_of(name, '.', at) && name.subrange(0, at) == decimal(index)
}

/// What stands behind the last dot of the entry's name; nothing, if the name
/// has no dot.
pub open spec fn entry_extension(name: Seq<char>) -> Seq<char> {
    if exists|at: int| is_last_index_of(name, '.', at) {
        name.subrange((choose|at: int| is_last_index_of(name, '.', at)) + 1, name.len() as int)
    } else {
        Seq::empty()
    }
}

/// `at` is the place of the first entry that matches `index`.
pub open spec fn is_first_match(names: Seq<Seq<char>>, index: nat, at: int) -> bool {
    &&& 0 <= at < names.len()
    &&& entry_matches(names[at], index)
    &&& forall|q: int| 0 <= q < at ==> !entry_matches(#[trigger] names[q], index)
}

/// No entry matches `index`.
pub open spec fn no_match(names: Seq<Seq<char>>, index: nat) -> bool {
    forall|q: int| 0 <= q < names.len() ==> !entry_matches(#[trigger] names[q], index)
}

/// The names of the entries, as sequences of characters.
pub open spec fn texts_of(names: Seq<String>) -> Seq<Seq<char>> {
    Seq::new(names.len(), |i: int| names[i]@)
}

/// A name has at most one last dot.
pub proof fn lemma_last_dot_unique(name: Seq<char>, a: int, b: int)
    requires
        is_last_index_of(name, '.', a),
        is_last_index_of(name, '.', b),
    ensures
        a == b,
{
}

/// Whether what stands before the last dot of `name` is `digits`.
fn stem_is(name: &Vec<char>, digits: &Vec<char>) -> (r: bool)
    ensures
        r == (exists|at: int| is_last_index_of(name@, '.', at) && name@.subrange(0, at) == digits@),
{
    match chars_last_index_of(name, '.') {
        Some(at) => {
            let mut stem: Vec<char> = Vec::new();
            let mut k: usize = 0;
            while k < at
                invariant
                    k <= at,
                    at < name.len(),
                    stem@ == name@.subrange(0, k as int),
                decreases at - k,
            {
                stem.push(name[k]);
                assert(stem@ =~= name@.subrange(0, k + 1));
                k += 1;
            }
            let same = chars_eq(&stem, digits);
            proof {
                if !same {
                    assert forall|other: int|
                        !(is_last_index_of(name@, '.', other) && name@.subrange(0, other)
                            == digits@) by {
                        if is_last_index_of(name@, '.', other) {
                            lemma_last_dot_unique(name@, at as int, other);
                        }
                    }
                }
            }
            same
        },
        None => false,
    }
}

/// The place of the first entry of a project's directory that holds the file
/// with index `file_index`: the first whose name, up to its last dot, is the
/// index in decimal. Which entry comes first is up to the listing.
pub fn find_cached_file(names: &Vec<String>, file_index: usize) -> (found: Option<usize>)
    ensures
        match found {
            Some(at) => is_first_match(texts_of(names@), file_index as nat, at as int),
            None => no_match(texts_of(names@), file_index as nat),
        },
{
    let digits_text = u64_to_string(file_index as u64);
    let digits = str_chars(digits_text.as_str());
    let ghost texts = texts_of(names@);
    let mut q: usize = 0;
    while q < names.len()
        invariant
            q <= names.len(),
            texts == texts_of(names@),
            digits@ == decimal(file_index as nat),
            forall|p: int| 0 <= p < q ==> !entry_matches(#[trigger] texts[p], file_index as nat),
        decreases names.len() - q,
    {
        let name = str_chars(names[q].as_str());
        assert(texts[q as int] == names[q as int]@);
        if stem_is(&name, &digits) {
            return Some(q);
        }
        q += 1;
    }
    None
}

/// Decides which entry of the project's directory is to be read for the file
/// with index `file_index`. `listing` holds the names of the directory's
/// entries, or nothing if the project has no directory.
pub fn locate_cached_file(cache_dir: &str, listing: Option<&Vec<String>>, file_index: usize) -> (r:
    Result<usize, CacheError>)
    ensures
        listing is None ==> (r matches Err(CacheError::DirMissing { dir }) && dir@ == cache_dir@),
        listing matches Some(names) ==> match r {
            Ok(at) => is_first_match(texts_of(names@), file_index as nat, at as int),
            Err(e) => no_match(texts_of(names@), file_index as nat) && e == (CacheError::NotFound {
                index: file_index,
            }),
        },
{
    match listing {
        None => Err(CacheError::DirMissing { dir: cache_dir.to_owned() }),
        Some(names) => match find_cached_file(names, file_index) {
            Some(at) => Ok(at),
            None => Err(CacheError::NotFound { index: file_index }),
        },
    }
}

/// Decides which entry is to be read where the listing of the project's
/// directory broke off. `names` holds the names of the entries that were
/// listed before it did, and `cause` says why it did. An entry that was
/// listed by then is read as from a whole listing; where none of them holds
/// the file, the read fails with the cause.
pub fn locate_in_broken_listing(names: &Vec<String>, cause: String, file_index: usize) -> (r:
    Result<usize, CacheError>)
    ensures
        match r {
            Ok(at) => is_first_match(texts_of(names@), file_index as nat, at as int),
            Err(e) => no_match(texts_of(names@), file_index as nat) && e == (CacheError::WalkDir {
                cause,
            }),
        },
{
    match find_cached_file(names, file_index) {
        Some(at) => Ok(at),
        None => Err(CacheError::WalkDir { cause }),
    }
}

/// The extension of an entry's name: what stands behind its last dot.
pub fn extension_of_entry(file_name: &str) -> (ext: String)
    ensures
        ext@ == entry_extension(file_name@),
{
    let name = str_chars(file_name);
    match chars_last_index_of(&name, '.') {
        Some(at) => {
            proof {
                let chosen = choose|c: int| is_last_index_of(file_name@, '.', c);
                lemma_last_dot_unique(file_name@, at as int, chosen);
            }
            let total = file_name.unicode_len();
            file_name.substring_char(at + 1, total).to_owned()
        },
        None => {
            let ext = String::new();
            assert(ext@ =~= entry_extension(file_name@));
            ext
        },
    }
}

/// A cached file as the front end displays it: its bytes in base64, and the
/// content type that goes with the extension in its name.
pub fn load_cached_file(file_name: &str, data: &[u8]) -> (file: CachedFileData)
    requires
        base64_fits(data@.len()),
    ensures
        file.b64@ == base64_standard(data@),
        file.content_type@ == content_type_of(entry_extension(file_name@)),
{
    let ext = extension_of_entry(file_name);
    CachedFileData { b64: encode_standard(data), content_type: get_content_type(ext.as_str()) }
}

/// The file that a download wrote for an index is the one that a later read
/// of that index finds, and it is served with the content type of the
/// extension that its URL named: if the directory holds the file's name, and
/// no entry before it has the same stem, the read picks it.
pub proof fn lemma_read_finds_downloaded_file(
    names: Seq<Seq<char>>,
    at: int,
    index: nat,
    url: Seq<char>,
)
    requires
        0 <= at < names.len(),
        names[at] == file_name_of(index, url),
        forall|q: int| 0 <= q < at ==> !entry_matches(#[trigger] names[q], index),
    ensures
        is_first_match(names, index, at),
        entry_extension(names[at]) == extension_of(url),
        content_type_of(entry_extension(names[at])) == content_type_of(extension_of(url)),
{
    lemma_file_name_last_dot(index, url);
    let name = file_name_of(index, url);
    let dot = decimal(index).len() as int;
    assert(is_last_index_of(name, '.', dot));
    let chosen = choose|c: int| is_last_index_of(name, '.', c);
    lemma_last_dot_unique(name, dot, chosen);
}

/// In a directory that holds nothing but the files of one download, the
/// file for an index is found wherever it stands: no other file has its stem.
pub proof fn lemma_only_own_file_matches(index: nat, other: nat, url: Seq<char>)
    requires
        index != other,
    ensures
        !entry_matches(file_name_of(other, url), index),
{
    lemma_file_name_last_dot(other, url);
    let name = file_name_of(other, url);
    if entry_matches(name, index) {
        let at = choose|at: int|
            is_last_index_of(name, '.', at) && name.subrange(0, at) == decimal(index);
        lemma_last_dot_unique(name, at, decimal(other).len() as int);
        crate::text::lemma_decimal_injective(index, other);
    }
}

} // verus!
