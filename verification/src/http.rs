//! The request-to-page mapping used by the connection handler.
//!
//! The surrounding binary reads a request off the network, hands its first
//! line to [`classify_request`], and serves the page file that the
//! resulting [`PageRequest`] names, under its status line. Everything that
//! touches the network, the clock or the disk stays with that binary; only
//! the mapping itself lives here.

use vstd::prelude::*;

verus! {

/// The pages a request line can resolve to.
#[derive(Clone, Copy, Debug, PartialEq, Eq, Structural)]
pub enum PageRequest {
    /// The root page.
    Root,
    /// The root page again, but served only after a deliberate delay.
    Sleep,
    /// Anything else: answered with the not-found page.
    NotFound,
}

/// The page that a request line resolves to: the root page, plain or
/// delayed, for its two exact request lines, and the not-found page for
/// every other line.
pub open spec fn spec_classify(line: Seq<char>) -> PageRequest {
    if line == "GET / HTTP/1.1"@ {
        PageRequest::Root
    } else if line == "GET /sleep HTTP/1.1"@ {
        PageRequest::Sleep
    } else {
        PageRequest::NotFound
    }
}

/// Resolves the first line of a request to the page it asks for.
pub fn classify_request(line: &String) -> (r: PageRequest)
    ensures
        r == spec_classify(line@),
{
    let root: String = "GET / HTTP/1.1".to_string();
    let sleep: String = "GET /sleep HTTP/1.1".to_string();
    if *line == root {
        PageRequest::Root
    } else if *line == sleep {
        PageRequest::Sleep
    } else {
        PageRequest::NotFound
    }
}

impl PageRequest {
    /// The status line that the response for this page carries.
    pub fn status_line(&self) -> (r: &'static str)
        ensures
            r@ == self.spec_status_line(),
    {
        match self {
            PageRequest::Root => "HTTP/1.1 200 OK",
            PageRequest::Sleep => "HTTP/1.1 200 OK",
            PageRequest::NotFound => "HTTP/1.1 404 NOT FOUND",
        }
    }

    /// The status line as a sequence of characters: success for the two
    /// recognised request lines, not-found for the rest.
    pub open spec fn spec_status_line(&self) -> Seq<char> {
        match self {
            PageRequest::Root => "HTTP/1.1 200 OK"@,
            PageRequest::Sleep => "HTTP/1.1 200 OK"@,
            PageRequest::NotFound => "HTTP/1.1 404 NOT FOUND"@,
        }
    }

    /// The name of the page file served for this page, to be looked up
    /// under the content directory.
    pub fn page_file(&self) -> (r: &'static str)
        ensures
            r@ == self.spec_page_file(),
    {
        match self {
            PageRequest::Root => "hello.html",
            PageRequest::Sleep => "hello.html",
            PageRequest::NotFound => "404.html",
        }
    }

    /// The page file name as a sequence of characters.
    pub open spec fn spec_page_file(&self) -> Seq<char> {
        match self {
            PageRequest::Root => "hello.html"@,
            PageRequest::Sleep => "hello.html"@,
            PageRequest::NotFound => "404.html"@,
        }
    }
}

} // verus!
