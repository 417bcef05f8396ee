//! A plain-value model of the protocol responses the generated code emits.
//!
//! The HTTP runtime is an external collaborator; the compiler passes only
//! decide what status, headers and body a response carries.  Those three
//! are therefore held as plain values, and the host glue converts them
//! into the runtime's own response type at the edge.

use vstd::prelude::*;

verus! {

/// The mathematical content of a [`Response`] or a [`ResponseBuilder`]:
/// status code, header list in insertion order, and body text.
#[verifier::ext_equal]
pub struct ResponseView {
    pub status: u16,
    pub headers: Seq<(Seq<char>, Seq<char>)>,
    pub body: Seq<char>,
}

/// A finished protocol response: status, headers in insertion order, body.
#[derive(Debug)]
pub struct Response {
    pub status: u16,
    pub headers: Vec<(String, String)>,
    pub body: String,
}

impl View for Response {
    type V = ResponseView;

    open spec fn view(&self) -> ResponseView {
        ResponseView { status: self.status, headers: self.headers.deep_view(), body: self.body@ }
    }
}

/// A response under construction: a status with headers appended so far,
/// awaiting a body.  Mirrors the response-builder capability the
/// collaborator offers (`response_builder_at`, `append_header`, `body`).
#[derive(Debug)]
pub struct ResponseBuilder {
    pub status: u16,
    pub headers: Vec<(String, String)>,
}

impl View for ResponseBuilder {
    type V = ResponseView;

    open spec fn view(&self) -> ResponseView {
        ResponseView { status: self.status, headers: self.headers.deep_view(), body: Seq::empty() }
    }
}

/// Starts a response at the given status code, with no headers yet.
pub fn response_builder_at(status: u16) -> (b: ResponseBuilder)
    ensures
        b@ =~~= (ResponseView { status: status, headers: Seq::empty(), body: Seq::empty() }),
{
    let b = ResponseBuilder { status, headers: Vec::new() };
    proof {
        assert(b.headers.deep_view() =~~= Seq::<(Seq<char>, Seq<char>)>::empty());
    }
    b
}

impl ResponseBuilder {
    /// Appends one header to the end of the header list; everything else
    /// is kept.
    pub fn append_header(&mut self, name: String, value: String)
        ensures
            final(self).status == old(self).status,
            final(self).headers.deep_view() =~~= old(self).headers.deep_view().push(
                (name@, value@),
            ),
    {
        let ghost before = self.headers.deep_view();
        let ghost n = name@;
        let ghost v = value@;
        self.headers.push((name, value));
        proof {
            assert(self.headers.deep_view() =~~= before.push((n, v)));
        }
    }

    /// Finishes the builder into a response with the given body, keeping
    /// the status and the headers appended so far.
    pub fn body(self, body: String) -> (r: Response)
        ensures
            r@ =~~= (ResponseView { status: self@.status, headers: self@.headers, body: body@ }),
    {
        Response { status: self.status, headers: self.headers, body }
    }
}

} // verus!
