//! The URLs of the Beacon API.

use vstd::prelude::*;

verus! {

/// A URL that has been parsed.
#[derive(Clone, Debug)]
pub struct BeaconUrl {
    /// The normalised text of the URL.
    pub text: String,
    /// The scheme, in lower case and without the colon.
    pub scheme: String,
}

/// What a [`BeaconUrl`] holds.
pub struct UrlParts {
    pub text: Seq<char>,
    pub scheme: Seq<char>,
}

impl View for BeaconUrl {
    type V = UrlParts;

    open spec fn view(&self) -> UrlParts {
        UrlParts { text: self.text@, scheme: self.scheme@ }
    }
}

/// What `url::Url::parse` makes of a text: the normalised text and the scheme, or why it
/// is no absolute URL.
pub uninterp spec fn url_parsed(text: Seq<char>) -> Result<(Seq<char>, Seq<char>), Seq<char>>;

/// The text that `url::Url::join` gives for an input relative to the URL that `base` parses
/// to, or why there is none.
pub uninterp spec fn url_joined(base: Seq<char>, input: Seq<char>) -> Result<Seq<char>, Seq<char>>;

/// Calls `url::Url::parse`. The text and the scheme of the URL, or the words of the error,
/// are a function of the given text alone.
#[verifier::external_body]
fn url_parse(text: &str) -> (result: Result<(String, String), String>)
    ensures
        match result {
            Ok(parts) => url_parsed(text@) == Ok::<(Seq<char>, Seq<char>), Seq<char>>(
                (parts.0@, parts.1@),
            ),
            Err(words) => url_parsed(text@) == Err::<(Seq<char>, Seq<char>), Seq<char>>(words@),
        },
{
    match url::Url::parse(text) {
        Ok(url) => Ok((url.as_str().to_owned(), url.scheme().to_owned())),
        Err(error) => Err(error.to_string()),
    }
}

/// Calls `url::Url::join` on the URL that `base` parses to. The text of the URL, or the
/// words of the error, are a function of the two given texts alone.
#[verifier::external_body]
fn url_join(base: &str, input: &str) -> (result: Result<String, String>)
    ensures
        match result {
            Ok(text) => url_joined(base@, input@) == Ok::<Seq<char>, Seq<char>>(text@),
            Err(words) => url_joined(base@, input@) == Err::<Seq<char>, Seq<char>>(words@),
        },
{
    match url::Url::parse(base) {
        Ok(base) => match base.join(input) {
            Ok(url) => Ok(url.as_str().to_owned()),
            Err(error) => Err(error.to_string()),
        },
        Err(error) => Err(error.to_string()),
    }
}

/// What a text is parsed to, as a [`BeaconUrl`] holds it.
pub open spec fn parsed_url(text: Seq<char>) -> Result<UrlParts, Seq<char>> {
    match url_parsed(text) {
        Ok(parts) => Ok(UrlParts { text: parts.0, scheme: parts.1 }),
        Err(words) => Err(words),
    }
}

impl BeaconUrl {
    /// Parses an absolute URL; the error is in words.
    pub fn parse(text: &str) -> (result: Result<BeaconUrl, String>)
        ensures
            match result {
                Ok(url) => parsed_url(text@) == Ok::<UrlParts, Seq<char>>(url@),
                Err(words) => parsed_url(text@) == Err::<UrlParts, Seq<char>>(words@),
            },
    {
        match url_parse(text) {
            Ok((text, scheme)) => Ok(BeaconUrl { text, scheme }),
            Err(words) => Err(words),
        }
    }

    /// The URL that `path` stands for relative to this one; the error is in words.
    pub fn join(&self, path: &str) -> (result: Result<String, String>)
        ensures
            match result {
                Ok(text) => url_joined(self@.text, path@) == Ok::<Seq<char>, Seq<char>>(text@),
                Err(words) => url_joined(self@.text, path@) == Err::<Seq<char>, Seq<char>>(
                    words@,
                ),
            },
    {
        url_join(self.text.as_str(), path)
    }
}

/// A URL that has been parsed holds the text and the scheme that the parser gave, each in its
/// place, and a text that is no URL is refused with the words of the parser.
pub proof fn parsed_parts_keep_their_places(text: &str, result: Result<BeaconUrl, String>)
    requires
        call_ensures(BeaconUrl::parse, (text,), result),
    ensures
        match url_parsed(text@) {
            Ok(parts) => result matches Ok(url) && url.text@ == parts.0 && url.scheme@ == parts.1,
            Err(words) => result matches Err(said) && said@ == words,
        },
{
}

/// A path is joined to the text of the URL, and not to anything else of it.
pub proof fn paths_are_joined_to_the_text(
    url: BeaconUrl,
    path: &str,
    result: Result<String, String>,
)
    requires
        call_ensures(BeaconUrl::join, (&url, path), result),
    ensures
        match url_joined(url.text@, path@) {
            Ok(text) => result matches Ok(joined) && joined@ == text,
            Err(words) => result matches Err(said) && said@ == words,
        },
{
}

} // verus!
