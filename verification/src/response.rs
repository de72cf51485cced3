//! What goes back to the client: a status line and a body.

use vstd::prelude::*;

verus! {

/// The head of a response that carries a result.
pub const OK_RESPONSE: &'static str = "HTTP/1.1 200 OK\r\nContent-Type: application/json\r\n\r\n";

/// The head of a response that says that something does not exist.
pub const NOT_FOUND: &'static str = "HTTP/1.1 404 NOT FOUND\r\n\r\n";

/// The head of a response that says that the request could not be served.
pub const INTERNAL_SERVER_ERROR: &'static str = "HTTP/1.1 500 INTERNAL SERVER ERROR\r\n\r\n";

/// A response: the status line with the headers and the blank line that ends
/// them, and the body that follows.
#[derive(Debug, Clone, PartialEq, Eq)]
pub struct Response {
    pub status_line: String,
    pub content: String,
}

/// A response as a mathematical value.
pub struct ResponseView {
    pub status_line: Seq<char>,
    pub content: Seq<char>,
}

impl View for Response {
    type V = ResponseView;

    open spec fn view(&self) -> ResponseView {
        ResponseView { status_line: self.status_line@, content: self.content@ }
    }
}

impl ResponseView {
    /// The response that carries `content` as a result.
    pub open spec fn ok(content: Seq<char>) -> ResponseView {
        ResponseView { status_line: OK_RESPONSE@, content }
    }

    /// The response that says, in the words of `content`, what does not exist.
    pub open spec fn not_found(content: Seq<char>) -> ResponseView {
        ResponseView { status_line: NOT_FOUND@, content }
    }

    /// The one response to every failure.
    pub open spec fn error() -> ResponseView {
        ResponseView { status_line: INTERNAL_SERVER_ERROR@, content: "Error"@ }
    }

    /// The text that is sent: the status line, then the body.
    pub open spec fn text(self) -> Seq<char> {
        self.status_line + self.content
    }
}

impl Response {
    /// The response that carries `content` as a result.
    pub fn ok(content: String) -> (response: Response)
        ensures
            response@ == ResponseView::ok(content@),
    {
        Response { status_line: String::from_str(OK_RESPONSE), content }
    }

    /// The response that says, in the words of `content`, what does not exist.
    pub fn not_found(content: &str) -> (response: Response)
        ensures
            response@ == ResponseView::not_found(content@),
    {
        Response { status_line: String::from_str(NOT_FOUND), content: String::from_str(content) }
    }

    /// The one response to every failure.
    pub fn error() -> (response: Response)
        ensures
            response@ == ResponseView::error(),
    {
        Response {
            status_line: String::from_str(INTERNAL_SERVER_ERROR),
            content: String::from_str("Error"),
        }
    }

    /// The text that is sent: the status line, then the body.
    pub fn to_text(&self) -> (text: String)
        ensures
            text@ == self@.text(),
    {
        let mut text = self.status_line.clone();
        text.append(self.content.as_str());
        text
    }
}

} // verus!
