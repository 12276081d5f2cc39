//! Validated media URLs.

use crate::error::DomainError;
use crate::text::same_text;
use vstd::prelude::*;

verus! {

/// What `url::Url::parse` makes of `input`: on success the URL's
/// serialization, its scheme and its host (if any); on failure the text of
/// the parse error.
pub uninterp spec fn url_parse_outcome(input: Seq<char>) -> Result<(Seq<char>, Seq<char>, Option<Seq<char>>), Seq<char>>;

/// The view of an optional string.
pub open spec fn opt_view(o: Option<String>) -> Option<Seq<char>> {
    match o {
        Some(s) => Some(s@),
        None => None,
    }
}

/// What `url::Url::parse` reports of a URL it accepted.
#[derive(Debug, Clone)]
pub struct ParsedUrl {
    /// `Url::as_str`: the serialization.
    pub serialization: String,
    /// `Url::scheme`: lower-cased, without the ':'.
    pub scheme: String,
    /// `Url::host_str`.
    pub host: Option<String>,
}

/// The plain view of a parse outcome.
pub open spec fn parsed_view(p: Result<ParsedUrl, String>) -> Result<(Seq<char>, Seq<char>, Option<Seq<char>>), Seq<char>> {
    match p {
        Ok(u) => Ok((u.serialization@, u.scheme@, opt_view(u.host))),
        Err(m) => Err(m@),
    }
}

/// Parses `input` with `url::Url::parse` and reads back `as_str`, `scheme`
/// and `host_str` of the result, or the `Display` text of the parse error.
/// The contract claims that the outcome is a function of `input` alone and
/// that the serialization begins with the scheme and a ':' (the parser
/// writes the scheme, then ':', and `scheme` slices it back out); what the
/// parser accepts is left unsaid.
#[verifier::external_body]
fn parse_url(input: &str) -> (res: Result<ParsedUrl, String>)
    ensures
        parsed_view(res) == url_parse_outcome(input@),
        res matches Ok(u) ==> (u.scheme@ + ":"@).is_prefix_of(u.serialization@),
{
    match url::Url::parse(input) {
        Ok(u) => Ok(ParsedUrl {
            serialization: u.as_str().to_string(),
            scheme: u.scheme().to_string(),
            host: u.host_str().map(|h| h.to_string()),
        }),
        Err(e) => Err(e.to_string()),
    }
}

/// A URL accepted for download: absolute, with scheme http or https and a
/// non-empty host. Its text always begins with `http:` or `https:`.
#[derive(Debug, PartialEq, Eq)]
pub struct MediaUrl {
    href: String,
}

/// The text begins with the `http:` or `https:` scheme prefix.
pub open spec fn is_web_text(text: Seq<char>) -> bool {
    "http:"@.is_prefix_of(text) || "https:"@.is_prefix_of(text)
}

impl Clone for MediaUrl {
    fn clone(&self) -> (r: Self)
        ensures
            r@ == self@,
    {
        proof {
            use_type_invariant(self);
        }
        MediaUrl { href: self.href.clone() }
    }
}

impl MediaUrl {
    #[verifier::type_invariant]
    spec fn well_formed(self) -> bool {
        is_web_text(self.href@)
    }
}

impl View for MediaUrl {
    type V = Seq<char>;

    closed spec fn view(&self) -> Seq<char> {
        self.href@
    }
}

/// Whether a scheme is accepted for media URLs.
pub open spec fn is_web_scheme(scheme: Seq<char>) -> bool {
    scheme == "http"@ || scheme == "https"@
}

/// `res` is what validating the parse outcome `outcome` gives: parse
/// errors are invalid URLs, other schemes than http(s) are unsupported, a
/// URL without host is invalid, anything else is accepted as is.
pub open spec fn validates(
    outcome: Result<(Seq<char>, Seq<char>, Option<Seq<char>>), Seq<char>>,
    res: Result<MediaUrl, DomainError>,
) -> bool {
    match outcome {
        Err(msg) => res matches Err(DomainError::InvalidUrl(m)) && m@ == msg,
        Ok((ser, scheme, host)) => {
            if !is_web_scheme(scheme) {
                res matches Err(DomainError::UnsupportedScheme(s)) && s@ == scheme
            } else if host is None || host == Some(Seq::<char>::empty()) {
                res matches Err(DomainError::InvalidUrl(m)) && m@ == "missing host"@
            } else {
                res matches Ok(u) && u@ == ser
            }
        },
    }
}

/// The outcome `MediaUrl::parse` owes for `input`.
pub open spec fn media_url_outcome(input: Seq<char>, res: Result<MediaUrl, DomainError>) -> bool {
    validates(url_parse_outcome(input), res)
}

/// The text of the error `MediaUrl::parse` reports for `input`, or `None`
/// when it accepts it.
pub open spec fn rejection_text(input: Seq<char>) -> Option<Seq<char>> {
    match url_parse_outcome(input) {
        Err(msg) => Some("invalid URL: "@ + msg),
        Ok((ser, scheme, host)) => {
            if !is_web_scheme(scheme) {
                Some("unsupported URL scheme: "@ + scheme)
            } else if host is None || host == Some(Seq::<char>::empty()) {
                Some("invalid URL: "@ + "missing host"@)
            } else {
                None
            }
        },
    }
}

/// A rejected input is reported with the text `rejection_text` gives, and
/// an accepted one has none.
pub proof fn rejection_text_describes_outcome(input: Seq<char>, res: Result<MediaUrl, DomainError>)
    requires
        media_url_outcome(input, res),
    ensures
        res is Ok <==> rejection_text(input) is None,
        res matches Err(e) ==> rejection_text(input) == Some(crate::error::domain_error_text(e)),
{
}

impl MediaUrl {
    /// Parse and validate a URL string. Only the http and https schemes are
    /// accepted, and the URL must name a host.
    pub fn parse(input: &str) -> (res: Result<MediaUrl, DomainError>)
        ensures
            media_url_outcome(input@, res),
            res is Ok ==> (url_parse_outcome(input@)->Ok_0.1 + ":"@).is_prefix_of(res->Ok_0@),
    {
        MediaUrl::from_parsed(parse_url(input))
    }

    /// Validate what the URL parser made of the input; a parsed URL's text
    /// begins with its scheme and ':'.
    pub fn from_parsed(parsed: Result<ParsedUrl, String>) -> (res: Result<MediaUrl, DomainError>)
        requires
            parsed matches Ok(u) ==> (u.scheme@ + ":"@).is_prefix_of(u.serialization@),
        ensures
            validates(parsed_view(parsed), res),
            res is Ok ==> parsed->Ok_0.serialization@ == res->Ok_0@,
    {
        match parsed {
            Err(msg) => Err(DomainError::InvalidUrl(msg)),
            Ok(ParsedUrl { serialization, scheme, host }) => {
                if !(same_text(scheme.as_str(), "http") || same_text(scheme.as_str(), "https")) {
                    return Err(DomainError::UnsupportedScheme(scheme));
                }
                match host {
                    None => Err(DomainError::InvalidUrl(String::from_str("missing host"))),
                    Some(h) => {
                        if h.as_str().is_empty() {
                            assert(h@ =~= Seq::<char>::empty());
                            Err(DomainError::InvalidUrl(String::from_str("missing host")))
                        } else {
                            proof {
                                reveal_strlit("http");
                                reveal_strlit("https");
                                reveal_strlit("http:");
                                reveal_strlit("https:");
                                reveal_strlit(":");
                                if scheme@ == "http"@ {
                                    assert("http:"@ =~= scheme@ + ":"@);
                                } else {
                                    assert("https:"@ =~= scheme@ + ":"@);
                                }
                            }
                            Ok(MediaUrl { href: serialization })
                        }
                    },
                }
            },
        }
    }

    /// The URL as text (its serialization).
    pub fn as_str(&self) -> (s: &str)
        ensures
            s@ == self@,
            is_web_text(s@),
    {
        proof {
            use_type_invariant(self);
        }
        self.href.as_str()
    }
}

/// Every accepted URL had a web scheme and a non-empty host, and its text is
/// the serialization of the parsed URL.
pub proof fn accepted_url_is_web(input: Seq<char>, res: Result<MediaUrl, DomainError>)
    requires
        media_url_outcome(input, res),
        res is Ok,
    ensures
        url_parse_outcome(input) is Ok,
        is_web_scheme(url_parse_outcome(input)->Ok_0.1),
        url_parse_outcome(input)->Ok_0.2 is Some,
        url_parse_outcome(input)->Ok_0.2->Some_0.len() > 0,
        url_parse_outcome(input)->Ok_0.0 == res->Ok_0@,
{
    let h = url_parse_outcome(input)->Ok_0.2->Some_0;
    if h.len() == 0 {
        assert(h =~= Seq::<char>::empty());
    }
}

} // verus!
