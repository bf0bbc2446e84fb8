//! What the file server answers for a path, once the path has been read.

use vstd::prelude::*;
use vstd::string::*;

use crate::strings::{joined, owned};

verus! {

/// The status of an answer that carries what was asked for.
pub const STATUS_OK: u16 = 200;

/// The status of an answer for a path that does not exist.
pub const STATUS_NOT_FOUND: u16 = 404;

/// The status of an answer for a path that could not be read.
pub const STATUS_INTERNAL_SERVER_ERROR: u16 = 500;

/// One entry of a directory that is being listed.
#[derive(Debug, Clone, PartialEq, Eq)]
pub struct DirectoryEntry {
    /// The entry's path below the directory that is served.
    pub path: String,
    /// The entry's file name.
    pub name: String,
}

/// What reading a path gave.
#[derive(Debug, Clone, PartialEq, Eq)]
pub enum PathRead {
    /// Nothing exists at the path; the field shows the path.
    Missing(String),
    /// The path is a directory with these entries.
    Directory(Vec<DirectoryEntry>),
    /// The path is a directory that could not be listed; the field says why.
    UnreadableDirectory(String),
    /// The path is a file with this content.
    File(String),
    /// The path is a file that could not be read; the field says why.
    UnreadableFile(String),
}

/// The answer to a request: a status, a body, and whether the body is HTML.
#[derive(Debug, Clone, PartialEq, Eq)]
pub struct PathResponse {
    /// The HTTP status code.
    pub status: u16,
    /// Whether the body is to be sent as HTML rather than as plain text.
    pub html: bool,
    /// The body.
    pub body: String,
}

/// The list item that links to one entry.
pub open spec fn entry_html(path: Seq<char>, name: Seq<char>) -> Seq<char> {
    "<li><a href=\"/static/"@ + path + "\">"@ + name + "</a></li>"@
}

/// The list items of the first `count` entries, in order.
pub open spec fn entries_html(entries: Seq<DirectoryEntry>, count: nat) -> Seq<char>
    decreases count,
{
    if count == 0 || count > entries.len() {
        Seq::empty()
    } else {
        entries_html(entries, (count - 1) as nat) + entry_html(
            entries[count - 1].path@,
            entries[count - 1].name@,
        )
    }
}

/// The page that lists a directory: one linked item per entry, in order.
pub open spec fn listing_html(entries: Seq<DirectoryEntry>) -> Seq<char> {
    "<html><body><ul>"@ + entries_html(entries, entries.len()) + "</ul></body></html>"@
}

/// Renders the page that lists a directory.
pub fn directory_listing(entries: &Vec<DirectoryEntry>) -> (page: String)
    ensures
        page@ == listing_html(entries@),
{
    let mut page = owned("<html><body><ul>");
    let mut i: usize = 0;
    while i < entries.len()
        invariant
            i <= entries.len(),
            page@ == "<html><body><ul>"@ + entries_html(entries@, i as nat),
        decreases entries.len() - i,
    {
        let entry = &entries[i];
        let ghost before = page@;
        page.append("<li><a href=\"/static/");
        page.append(entry.path.as_str());
        page.append("\">");
        page.append(entry.name.as_str());
        page.append("</a></li>");
        assert(page@ =~= before + entry_html(entry.path@, entry.name@));
        assert(page@ =~= "<html><body><ul>"@ + entries_html(entries@, (i + 1) as nat));
        i = i + 1;
    }
    page.append("</ul></body></html>");
    page
}

/// The status that answers `read`.
pub open spec fn response_status(read: PathRead) -> u16 {
    match read {
        PathRead::Missing(_) => STATUS_NOT_FOUND,
        PathRead::Directory(_) => STATUS_OK,
        PathRead::File(_) => STATUS_OK,
        PathRead::UnreadableDirectory(_) => STATUS_INTERNAL_SERVER_ERROR,
        PathRead::UnreadableFile(_) => STATUS_INTERNAL_SERVER_ERROR,
    }
}

/// The body that answers `read`.
pub open spec fn response_body(read: PathRead) -> Seq<char> {
    match read {
        PathRead::Missing(shown) => "File "@ + shown@ + " not found"@,
        PathRead::Directory(entries) => listing_html(entries@),
        PathRead::File(content) => content@,
        PathRead::UnreadableDirectory(reason) => "Failed to read directory: "@ + reason@,
        PathRead::UnreadableFile(reason) => "Failed to read file: "@ + reason@,
    }
}

/// Answers a request from what reading its path gave: a listing for a
/// directory and the content for a file, both as HTML with status 200; a
/// plain message with status 404 for a missing path, and with status 500 for
/// one that could not be read.
pub fn respond(read: &PathRead) -> (response: PathResponse)
    ensures
        response.status == response_status(*read),
        response.body@ == response_body(*read),
        response.html == (response.status == STATUS_OK),
{
    match read {
        PathRead::Missing(shown) => {
            let mut body = joined("File ", shown.as_str());
            body.append(" not found");
            PathResponse { status: STATUS_NOT_FOUND, html: false, body }
        },
        PathRead::Directory(entries) => PathResponse {
            status: STATUS_OK,
            html: true,
            body: directory_listing(entries),
        },
        PathRead::File(content) => PathResponse {
            status: STATUS_OK,
            html: true,
            body: content.clone(),
        },
        PathRead::UnreadableDirectory(reason) => PathResponse {
            status: STATUS_INTERNAL_SERVER_ERROR,
            html: false,
            body: joined("Failed to read directory: ", reason.as_str()),
        },
        PathRead::UnreadableFile(reason) => PathResponse {
            status: STATUS_INTERNAL_SERVER_ERROR,
            html: false,
            body: joined("Failed to read file: ", reason.as_str()),
        },
    }
}

} // verus!
