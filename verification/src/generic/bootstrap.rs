//! The script that starts a generic instance: it imports `run` from the
//! `mod.ts` that sits beside the instance's source link, and calls it.
use vstd::prelude::*;
use vstd::string::*;

use crate::error::{Error, ErrorKind};
use crate::text::push_str;

verus! {

/// The serialization of the absolute URL that url's `Url::parse` reads
/// from a text, or `None` where it refuses the text.
pub uninterp spec fn spec_url_parse(input: Seq<char>) -> Option<Seq<char>>;

/// The serialization of the URL that url's `Url::join` gives for a text
/// taken relative to a base URL (given by its serialization), or `None`
/// where it refuses the text.
pub uninterp spec fn spec_url_join(base: Seq<char>, input: Seq<char>) -> Option<Seq<char>>;

/// Reads an absolute URL (url's `Url::parse`) and gives its serialization
/// (`Url::as_str`). The result is named, not stated: URL parsing is the
/// WHATWG algorithm.
#[verifier::external_body]
fn parse_url(input: &str) -> (r: Option<String>)
    ensures
        r.deep_view() == spec_url_parse(input@),
{
    url::Url::parse(input).ok().map(|u| u.as_str().to_string())
}

/// Resolves a text relative to a base URL (url's `Url::join`; the base,
/// given by its serialization, is read back with `Url::parse`) and gives the
/// serialization of the result. The result is named, not stated.
#[verifier::external_body]
fn join_url(base: &str, input: &str) -> (r: Option<String>)
    ensures
        r.deep_view() == spec_url_join(base@, input@),
{
    url::Url::parse(base).ok().and_then(|b| b.join(input).ok()).map(|u| u.as_str().to_string())
}

/// The text of the start script for the module at the given URL.
pub open spec fn spec_bootstrap_text(module_url: Seq<char>) -> Seq<char> {
    "import { run } from \""@ + module_url + "\";\n                run();\n            "@
}

/// The start script for the module at the given URL.
pub fn bootstrap_text(module_url: &str) -> (s: String)
    ensures
        s@ == spec_bootstrap_text(module_url@),
{
    let mut s = String::from_str("import { run } from \"");
    push_str(&mut s, module_url);
    push_str(&mut s, "\";\n                run();\n            ");
    s
}

/// The start script of a generic instance whose source is at the given
/// link, when the link is a URL: it runs `mod.ts` resolved against the
/// link.
pub open spec fn spec_bootstrap(link: Seq<char>) -> Option<Seq<char>> {
    match spec_url_parse(link) {
        Some(base) => match spec_url_join(base, "mod.ts"@) {
            Some(m) => Some(spec_bootstrap_text(m)),
            None => None,
        },
        None => None,
    }
}

/// The start script of a generic instance whose source is at the given
/// link; an internal error `Invalid URL` where the link, or `mod.ts` beside
/// it, is not a URL.
pub fn bootstrap_script(link_to_source: &str) -> (r: Result<String, Error>)
    ensures
        match spec_bootstrap(link_to_source@) {
            Some(t) => r is Ok && r->Ok_0@ == t,
            None => r is Err && r->Err_0.kind == ErrorKind::Internal && r->Err_0.source@
                == "Invalid URL"@,
        },
{
    let base = match parse_url(link_to_source) {
        Some(b) => b,
        None => {
            return Err(Error::new(ErrorKind::Internal, "Invalid URL"));
        },
    };
    let module = match join_url(base.as_str(), "mod.ts") {
        Some(m) => m,
        None => {
            return Err(Error::new(ErrorKind::Internal, "Invalid URL"));
        },
    };
    Ok(bootstrap_text(module.as_str()))
}

} // verus!
