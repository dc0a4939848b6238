//! The sign-in page and the exchange that authenticates a session.

use vstd::prelude::*;
use crate::text::{contains, contains_text};

pub mod submit;

verus! {

/// What the template of the sign-in page is rendered with: nothing.
#[derive(Clone, Copy, Debug, PartialEq, Eq, Structural)]
pub struct AuthContext {}

/// What a request for the sign-in page is answered with.
#[derive(Clone, Copy, Debug, PartialEq, Eq, Structural)]
pub enum Page {
    /// The rendered template of the page.
    Template(AuthContext),
    /// The page as a file from the directory of static pages.
    File,
    /// A short note, for clients that do not ask for a page.
    NoOp,
}

impl Page {
    /// The name of the template, the name of the file, or the note.
    pub fn name(&self) -> (name: &'static str)
        ensures
            name@ == (match self {
                Page::Template(_) => "pages/auth"@,
                Page::File => "auth.html"@,
                Page::NoOp => "no-op"@,
            }),
    {
        match self {
            Page::Template(_) => "pages/auth",
            Page::File => "auth.html",
            Page::NoOp => "no-op",
        }
    }
}

/// Whether a client that sends `accept` as what it accepts takes a page: it
/// does when it names pages in the hypertext markup language.
pub fn accepts_html(accept: &str) -> (accepted: bool)
    ensures
        accepted == contains_text(accept@, "text/html"@),
{
    contains(accept, "text/html")
}

/// Chooses the answer to a request for the sign-in page: a client that
/// accepts a page gets the template where there is one and the file where
/// there is none; any other client gets the note.
pub fn get(accepts_html: bool, has_template: bool) -> (page: Page)
    ensures
        page == if !accepts_html {
            Page::NoOp
        } else if has_template {
            Page::Template(AuthContext {  })
        } else {
            Page::File
        },
{
    if accepts_html {
        if has_template {
            return Page::Template(AuthContext {  });
        }
        return Page::File;
    }
    Page::NoOp
}

} // verus!
