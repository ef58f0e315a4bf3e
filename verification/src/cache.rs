//! The cache of what was last applied at the registrar, and the file that
//! keeps it between runs.
//!
//! The file is a JSON object with the members `hash` and `last_ip`. `Cache`
//! works on an image of the file in memory: whoever owns the disk loads the
//! image before the first call and carries it out after the last.

use crate::json;
use crate::json::{json_parse, json_text, member_text, member_unsigned, Json, Members};
use vstd::prelude::*;

verus! {

/// What the cache file records: the fingerprint and the address of the last
/// update that went through. Zero and the empty text stand for "none yet".
#[derive(Debug, Clone, PartialEq, Eq)]
pub struct CacheContent {
    pub hash: u64,
    pub last_ip: String,
}

/// A `CacheContent` as a mathematical value.
pub struct CacheContentView {
    pub hash: u64,
    pub last_ip: Seq<char>,
}

impl View for CacheContent {
    type V = CacheContentView;

    open spec fn view(&self) -> CacheContentView {
        CacheContentView { hash: self.hash, last_ip: self.last_ip@ }
    }
}

/// Why the text of a cache file could not be read as a `CacheContent`.
#[derive(Debug, Clone, Copy, PartialEq, Eq, Structural)]
pub enum CacheError {
    /// The text is not JSON.
    NotJson,
    /// The text is JSON, but not an object with an unsigned 64-bit `hash`.
    NoHash,
    /// The object has its `hash`, but no `last_ip` that is a string.
    NoLastIp,
}

/// The store: the path of the cache file, and the image of that file.
///
/// `stored` is `None` while the file does not exist, and its text otherwise.
/// Nothing else writes the file while a run works on its image.
#[derive(Debug, Clone, PartialEq, Eq)]
pub struct Cache {
    pub path: String,
    pub stored: Option<String>,
}

/// The text of a file by its image: a file that does not exist has none.
pub open spec fn text_of_file(image: Option<Seq<char>>) -> Seq<char> {
    match image {
        Some(text) => text,
        None => Seq::empty(),
    }
}

/// What reading the store returns, by the image of the file before.
pub open spec fn read_result(image: Option<Seq<char>>) -> Result<CacheContentView, CacheError> {
    CacheContentView::decode(text_of_file(image))
}

/// The image of the file after a read: a file that did not exist is now there,
/// and empty; one that existed is as it was.
pub open spec fn after_read(image: Option<Seq<char>>) -> Option<Seq<char>> {
    Some(text_of_file(image))
}

/// The image of the file after a write: the text for the content, whatever
/// the file held before.
pub open spec fn after_write(image: Option<Seq<char>>, content: CacheContentView) -> Option<
    Seq<char>,
> {
    Some(content.encode())
}

/// The image of the file after a clear: the file does not exist.
pub open spec fn after_clear(image: Option<Seq<char>>) -> Option<Seq<char>> {
    None
}

impl CacheContentView {
    /// The content that stands for "nothing recorded".
    pub open spec fn blank() -> CacheContentView {
        CacheContentView { hash: 0, last_ip: Seq::empty() }
    }

    /// The content that two members of a parsed file give: `hash` has to be
    /// there, then `last_ip`.
    pub open spec fn from_members(hash: Option<u64>, last_ip: Option<Seq<char>>) -> Result<
        CacheContentView,
        CacheError,
    > {
        match hash {
            None => Err(CacheError::NoHash),
            Some(hash) => match last_ip {
                None => Err(CacheError::NoLastIp),
                Some(last_ip) => Ok(CacheContentView { hash, last_ip }),
            },
        }
    }

    /// The content that a JSON value stands for.
    pub open spec fn from_json(json: Json) -> Result<CacheContentView, CacheError> {
        Self::from_members(member_unsigned(json, "hash"@), member_text(json, "last_ip"@))
    }

    /// The content that the text of a cache file stands for. An empty text is
    /// a cache in which nothing is recorded; any other text has to be JSON.
    pub open spec fn decode(text: Seq<char>) -> Result<CacheContentView, CacheError> {
        if text.len() == 0 {
            Ok(Self::blank())
        } else {
            match json_parse(text) {
                None => Err(CacheError::NotJson),
                Some(json) => Self::from_json(json),
            }
        }
    }

    /// The JSON object that stands for the content.
    pub open spec fn to_json(self) -> Json {
        Json::Object(
            Members::empty().insert("hash"@, Json::Unsigned(self.hash)).insert(
                "last_ip"@,
                Json::Text(self.last_ip),
            ),
        )
    }

    /// The text of the cache file for the content.
    pub open spec fn encode(self) -> Seq<char> {
        json_text(self.to_json())
    }
}

/// Whether a result of reading the cache is the one that the model gives.
pub open spec fn reads_as(
    got: Result<CacheContent, CacheError>,
    expected: Result<CacheContentView, CacheError>,
) -> bool {
    match got {
        Ok(content) => expected == Ok::<CacheContentView, CacheError>(content@),
        Err(error) => expected == Err::<CacheContentView, CacheError>(error),
    }
}

impl CacheContent {
    /// The content of a cache in which nothing is recorded.
    pub fn blank() -> (content: CacheContent)
        ensures
            content@ == CacheContentView::blank(),
    {
        CacheContent { hash: 0, last_ip: String::new() }
    }

    /// The content that the members `hash` and `last_ip` of a parsed file
    /// give, each `None` where the file lacks it or holds another kind of
    /// value under its name.
    pub fn from_members(hash: Option<u64>, last_ip: Option<String>) -> (content: Result<
        CacheContent,
        CacheError,
    >)
        ensures
            reads_as(
                content,
                CacheContentView::from_members(
                    hash,
                    match last_ip {
                        Some(text) => Some(text@),
                        None => None,
                    },
                ),
            ),
    {
        match hash {
            None => Err(CacheError::NoHash),
            Some(hash) => match last_ip {
                None => Err(CacheError::NoLastIp),
                Some(last_ip) => Ok(CacheContent { hash, last_ip }),
            },
        }
    }

    /// Reads the text of a cache file. An empty text gives the blank content.
    /// Any other text is parsed by `serde_json` and has to be an object with
    /// an unsigned `hash` and a string `last_ip`; members besides these two
    /// are passed over.
    pub fn decode(text: &str) -> (content: Result<CacheContent, CacheError>)
        ensures
            reads_as(content, CacheContentView::decode(text@)),
    {
        if text.is_empty() {
            return Ok(CacheContent::blank());
        }
        match json::parse(text) {
            Err(_) => Err(CacheError::NotJson),
            Ok(value) => {
                let hash = json::unsigned_member(&value, "hash");
                let last_ip = json::text_member(&value, "last_ip");
                CacheContent::from_members(hash, last_ip)
            },
        }
    }

    /// The text of the cache file for this content: the JSON object with the
    /// members `hash` and `last_ip`, printed by `serde_json`.
    pub fn encode(&self) -> (text: String)
        ensures
            text@ == self@.encode(),
    {
        let mut members = json::no_members();
        json::put(&mut members, "hash", json::unsigned(self.hash));
        json::put(&mut members, "last_ip", json::text(self.last_ip.as_str()));
        let value = json::object(members);
        json::print(&value)
    }
}

impl Cache {
    /// The image of the file as a mathematical value.
    pub open spec fn image(&self) -> Option<Seq<char>> {
        match self.stored {
            Some(text) => Some(text@),
            None => None,
        }
    }

    /// The store for the file at `path`, with the image that was loaded from
    /// there: `None` if no file was found.
    pub fn new(path: String, stored: Option<String>) -> (cache: Cache)
        ensures
            cache.path == path,
            cache.stored == stored,
    {
        Cache { path, stored }
    }

    /// Reads the cache. A file that does not exist is created empty. An empty
    /// file gives the blank content, any other is decoded, and a text that
    /// does not decode is an error: it is never taken for a blank cache.
    pub fn read(&mut self) -> (content: Result<CacheContent, CacheError>)
        ensures
            final(self).path == old(self).path,
            final(self).image() == after_read(old(self).image()),
            reads_as(content, read_result(old(self).image())),
    {
        let text = match self.stored.take() {
            Some(text) => text,
            None => String::new(),
        };
        let content = CacheContent::decode(text.as_str());
        self.stored = Some(text);
        content
    }

    /// Replaces the whole file by the text for `cache_content`, and creates it
    /// if it does not exist.
    pub fn write(&mut self, cache_content: CacheContent)
        ensures
            final(self).path == old(self).path,
            final(self).image() == after_write(old(self).image(), cache_content@),
    {
        self.stored = Some(cache_content.encode());
    }

    /// Deletes the file. Nothing happens if it does not exist.
    pub fn clear(&mut self)
        ensures
            final(self).path == old(self).path,
            final(self).image() == after_clear(old(self).image()),
    {
        self.stored = None;
    }
}

/// Reading where no file exists gives the blank content, without an error, and
/// leaves an empty file behind.
pub proof fn read_of_missing_file()
    ensures
        read_result(None) == Ok::<CacheContentView, CacheError>(CacheContentView::blank()),
        after_read(None) == Some(Seq::<char>::empty()),
{
}

/// Reading an empty file gives the blank content, as reading where no file
/// exists does, and leaves the file as it is.
pub proof fn read_of_empty_file()
    ensures
        read_result(Some(Seq::empty())) == read_result(None),
        read_result(Some(Seq::empty())) == Ok::<CacheContentView, CacheError>(
            CacheContentView::blank(),
        ),
        after_read(Some(Seq::empty())) == Some(Seq::<char>::empty()),
{
}

/// Reading a file whose text is not empty and not JSON fails with `NotJson`:
/// it does not give the blank content, and the file stays as it is.
pub proof fn read_of_corrupt_file(text: Seq<char>)
    requires
        text.len() > 0,
        json_parse(text) is None,
    ensures
        read_result(Some(text)) == Err::<CacheContentView, CacheError>(CacheError::NotJson),
        after_read(Some(text)) == Some(text),
{
}

/// A read returns `Ok` exactly for a file that is missing or empty, or whose
/// text parses to an object with an unsigned `hash` and a string `last_ip`.
pub proof fn read_succeeds_iff(image: Option<Seq<char>>)
    ensures
        read_result(image) is Ok <==> (text_of_file(image).len() == 0 || (json_parse(
            text_of_file(image),
        ) matches Some(json) && member_unsigned(json, "hash"@) is Some && member_text(
            json,
            "last_ip"@,
        ) is Some)),
{
}

/// Clearing twice is clearing once, and a read after a clear gives the blank
/// content.
pub proof fn clear_is_idempotent(image: Option<Seq<char>>)
    ensures
        after_clear(after_clear(image)) == after_clear(image),
        read_result(after_clear(image)) == Ok::<CacheContentView, CacheError>(
            CacheContentView::blank(),
        ),
{
}

/// A read right after a write decodes the very text that the write encoded,
/// and leaves that text in the file.
pub proof fn read_after_write(image: Option<Seq<char>>, content: CacheContentView)
    ensures
        read_result(after_write(image, content)) == CacheContentView::decode(content.encode()),
        after_read(after_write(image, content)) == after_write(image, content),
{
}

/// A second read returns what the first returned, and changes nothing.
pub proof fn read_is_repeatable(image: Option<Seq<char>>)
    ensures
        read_result(after_read(image)) == read_result(image),
        after_read(after_read(image)) == after_read(image),
{
}

} // verus!
