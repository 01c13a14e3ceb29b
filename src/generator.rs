//! The generator: where a document comes from, where its staged copy goes,
//! and how its new content is made.
use vstd::prelude::*;
use vstd::string::*;
use crate::outline::{document, lemma_views_push, scan_lines, title_entry, views};

verus! {

/// Lowercase hexadecimal SHA-256 digest of the UTF-8 encoding of a text.
pub uninterp spec fn sha256_hex_of(s: Seq<char>) -> Seq<char>;

/// The file stem of a path, as `std::path::Path::file_stem` finds it.
pub uninterp spec fn path_stem(p: Seq<char>) -> Option<Seq<char>>;

/// The extension of a path, as `std::path::Path::extension` finds it.
pub uninterp spec fn path_extension(p: Seq<char>) -> Option<Seq<char>>;

/// A path with its last component replaced, as `std::path::PathBuf::set_file_name` does it.
pub uninterp spec fn path_with_file_name(p: Seq<char>, name: Seq<char>) -> Seq<char>;

/// Relies on sha2's `Sha256::digest` and the lowercase hex formatting of its
/// output: the result depends on the text alone.
#[verifier::external_body]
fn sha256_hex(s: &str) -> (r: String)
    ensures
        r@ == sha256_hex_of(s@),
{
    format!("{:x}", <sha2::Sha256 as sha2::Digest>::digest(s.as_bytes()))
}

/// Relies on `std::path::Path::file_stem`: the stem depends on the path alone.
#[verifier::external_body]
fn file_stem(p: &str) -> (r: Option<String>)
    ensures
        match r {
            Some(s) => path_stem(p@) == Some(s@),
            None => path_stem(p@) is None,
        },
{
    std::path::Path::new(p).file_stem().map(|s| s.to_string_lossy().into_owned())
}

/// Relies on `std::path::Path::extension`: the extension depends on the path alone.
#[verifier::external_body]
fn file_extension(p: &str) -> (r: Option<String>)
    ensures
        match r {
            Some(s) => path_extension(p@) == Some(s@),
            None => path_extension(p@) is None,
        },
{
    std::path::Path::new(p).extension().map(|s| s.to_string_lossy().into_owned())
}

/// Relies on `std::path::PathBuf::set_file_name`: the new path depends on the
/// path and the name alone.
#[verifier::external_body]
fn with_file_name(p: &str, name: &str) -> (r: String)
    ensures
        r@ == path_with_file_name(p@, name@),
{
    let mut b = std::path::PathBuf::from(p);
    b.set_file_name(name);
    b.to_string_lossy().into_owned()
}

/// What can go wrong while generating an outlined document.
#[derive(Debug, PartialEq, Eq)]
pub enum GeneratorError {
    /// The staging file's name could not be derived from the source path.
    PathError,
    /// A file could not be opened, written, copied or removed.
    IOError(String),
    /// A line could not be decoded as text.
    ReadError(String),
}

/// The staging file name for a stem, its digest and an optional extension:
/// `<stem>_<digest>` or `<stem>_<digest>.<extension>`.
pub open spec fn staging_name(stem: Seq<char>, digest: Seq<char>, ext: Option<Seq<char>>) -> Seq<
    char,
> {
    match ext {
        Some(e) => stem + seq!['_'] + digest + seq!['.'] + e,
        None => stem + seq!['_'] + digest,
    }
}

/// The staging path of a source path, if its stem can be found.
pub open spec fn staging_path(p: Seq<char>) -> Option<Seq<char>> {
    match path_stem(p) {
        Some(stem) => Some(
            path_with_file_name(p, staging_name(stem, sha256_hex_of(stem), path_extension(p))),
        ),
        None => None,
    }
}

/// Builds the staging file name from a stem, the digest of that stem and an
/// optional extension.
pub fn staging_file_name(stem: &str, digest: &str, ext: Option<&str>) -> (r: String)
    ensures
        r@ == staging_name(
            stem@,
            digest@,
            match ext {
                Some(e) => Some(e@),
                None => None,
            },
        ),
{
    proof {
        reveal_strlit("_");
        reveal_strlit(".");
    }
    let mut r = String::from_str(stem);
    r.append("_");
    r.append(digest);
    match ext {
        Some(e) => {
            r.append(".");
            r.append(e);
        },
        None => {},
    }
    r
}

/// The staging path of a source path: its file name replaced by the stem,
/// `_`, the SHA-256 digest of the stem in hex, and the extension if any.
/// `None` exactly when the path has no file stem.
pub fn add_hash_to_filename(path: &str) -> (r: Option<String>)
    ensures
        match r {
            Some(p) => staging_path(path@) == Some(p@),
            None => staging_path(path@) is None,
        },
{
    let stem = match file_stem(path) {
        Some(s) => s,
        None => {
            return None;
        },
    };
    let ext = file_extension(path);
    let digest = sha256_hex(stem.as_str());
    let name = match &ext {
        Some(e) => staging_file_name(stem.as_str(), digest.as_str(), Some(e.as_str())),
        None => staging_file_name(stem.as_str(), digest.as_str(), None),
    };
    Some(with_file_name(path, name.as_str()))
}

/// The mathematical content of a generator.
pub struct GeneratorView {
    pub file_path: Seq<char>,
    pub staging_path: Seq<char>,
    pub title_message: Seq<char>,
    pub tab_space_size: nat,
}

/// Turns a document into the same document headed by an outline of its
/// headings, staged in a file next to the source.
pub struct MarkDownTitleGenerator {
    file_path: String,
    temporary_file_path: String,
    title_message: String,
    tab_space_size: u8,
}

impl View for MarkDownTitleGenerator {
    type V = GeneratorView;

    closed spec fn view(&self) -> GeneratorView {
        GeneratorView {
            file_path: self.file_path@,
            staging_path: self.temporary_file_path@,
            title_message: self.title_message@,
            tab_space_size: self.tab_space_size as nat,
        }
    }
}

impl MarkDownTitleGenerator {
    /// A generator for the document at `file_path`. Fails with `PathError`
    /// exactly when the path has no file stem to derive the staging name from.
    pub fn new(file_path: &str, title_message: String, tab_space_size: u8) -> (r: Result<
        Self,
        GeneratorError,
    >)
        ensures
            r is Ok <==> staging_path(file_path@) is Some,
            r is Err ==> r == Err::<Self, GeneratorError>(GeneratorError::PathError),
            r matches Ok(g) ==> {
                &&& g@.file_path == file_path@
                &&& Some(g@.staging_path) == staging_path(file_path@)
                &&& g@.title_message == title_message@
                &&& g@.tab_space_size == tab_space_size as nat
            },
    {
        let staging = match add_hash_to_filename(file_path) {
            Some(p) => p,
            None => {
                return Err(GeneratorError::PathError);
            },
        };
        Ok(MarkDownTitleGenerator {
            file_path: String::from_str(file_path),
            temporary_file_path: staging,
            title_message,
            tab_space_size,
        })
    }

    /// The new content for a document given as its lines: the title entry,
    /// one outline entry per heading kept, an empty line, then the body.
    pub fn generate(&self, lines: &Vec<String>, skip_first_title: bool) -> (r: Vec<String>)
        ensures
            views(r@) == document(
                self@.title_message,
                views(lines@),
                self@.tab_space_size,
                skip_first_title,
            ),
    {
        let (outline, body) = scan_lines(lines, self.tab_space_size, skip_first_title);
        let mut r: Vec<String> = Vec::new();
        proof { reveal_strlit("# "); }
        let mut title = String::from_str("# ");
        title.append(self.title_message.as_str());
        assert(title@ =~= title_entry(self@.title_message));
        proof { lemma_views_push(r@, title); }
        r.push(title);
        assert(views(r@) =~= seq![title_entry(self@.title_message)]);
        let mut i: usize = 0;
        while i < outline.len()
            invariant
                i <= outline@.len(),
                views(r@) == seq![title_entry(self@.title_message)] + views(outline@).take(i as int),
            decreases outline.len() - i,
        {
            proof { lemma_views_push(r@, outline@[i as int]); }
            r.push(outline[i].clone());
            assert(views(r@) =~= seq![title_entry(self@.title_message)] + views(outline@).take(
                i + 1,
            ));
            i = i + 1;
        }
        assert(views(outline@).take(i as int) =~= views(outline@));
        let ghost head = views(r@);
        let empty = String::new();
        proof { lemma_views_push(r@, empty); }
        r.push(empty);
        assert(views(r@) =~= head + seq![Seq::<char>::empty()]);
        let ghost mid = views(r@);
        let mut j: usize = 0;
        while j < body.len()
            invariant
                j <= body@.len(),
                views(r@) == mid + views(body@).take(j as int),
            decreases body.len() - j,
        {
            proof { lemma_views_push(r@, body@[j as int]); }
            r.push(body[j].clone());
            assert(views(r@) =~= mid + views(body@).take(j + 1));
            j = j + 1;
        }
        assert(views(body@).take(j as int) =~= views(body@));
        assert(views(r@) =~= document(
            self@.title_message,
            views(lines@),
            self@.tab_space_size,
            skip_first_title,
        ));
        r
    }

    /// The path of the source document.
    pub fn file_path(&self) -> (r: &String)
        ensures
            r@ == self@.file_path,
    {
        &self.file_path
    }

    /// The path of the staging file.
    pub fn staging_file_path(&self) -> (r: &String)
        ensures
            r@ == self@.staging_path,
    {
        &self.temporary_file_path
    }
}

} // verus!
