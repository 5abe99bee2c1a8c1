//! The page that greets a visitor of the web server.
use vstd::prelude::*;

verus! {

/// The start page, in HTML.
pub const INDEX_PAGE: &'static str =
    "<html><body><h1>Привет от Rust Ботa!</h1><p>Web интерфейс активен. Посетите <a href=\"/static/chat.html\">веб-чат</a> или <a href=\"/static/\">статическую страницу</a>.</p></body></html>";

} // verus!
