//! Request targets as they may appear in logs: without query and fragment.
use vstd::prelude::*;
use vstd::string::*;
use crate::utf8_text::optional_text;

verus! {

/// The parts of a URI that a log may show.
#[derive(Debug, Clone, PartialEq, Eq)]
pub struct UriParts {
    pub scheme: Option<String>,
    pub authority: Option<String>,
    pub path: String,
}

/// What the `http` crate reads from the text of a URI: its scheme, its authority and its path, or
/// nothing when the text is no URI.
pub uninterp spec fn parsed_uri(text: Seq<char>) -> Option<
    (Option<Seq<char>>, Option<Seq<char>>, Seq<char>),
>;

/// Whether a text holds neither the mark of a query nor that of a fragment.
pub open spec fn unmarked(text: Seq<char>) -> bool {
    !text.contains('?') && !text.contains('#')
}

/// A text, or `<unknown>` where there is none.
pub open spec fn or_unknown(text: Option<Seq<char>>) -> Seq<char> {
    match text {
        Some(text) => text,
        None => "<unknown>"@,
    }
}

/// A URI as a log shows it.
pub open spec fn redacted(
    scheme: Option<Seq<char>>,
    authority: Option<Seq<char>>,
    path: Seq<char>,
) -> Seq<char> {
    or_unknown(scheme) + "://"@ + or_unknown(authority) + path
}

/// The text of a URI as a log shows it, or nothing when the text is no URI.
pub open spec fn redacted_text(uri: Seq<char>) -> Option<Seq<char>> {
    match parsed_uri(uri) {
        Some(parts) => Some(redacted(parts.0, parts.1, parts.2)),
        None => None,
    }
}

impl UriParts {
    /// The parts as texts.
    pub open spec fn texts(&self) -> (Option<Seq<char>>, Option<Seq<char>>, Seq<char>) {
        (optional_text(self.scheme), optional_text(self.authority), self.path@)
    }

    /// The parts as a log shows them.
    pub open spec fn shown(&self) -> Seq<char> {
        redacted(self.texts().0, self.texts().1, self.texts().2)
    }
}

/// Reads a URI with `http::Uri`'s `FromStr`, and takes from it `scheme_str`, the text of
/// `authority` and `path`. What those are on a given text is [`parsed_uri`]; beyond that, none of
/// them holds a `?` or a `#`, because the parser ends the authority and the path before either
/// and admits neither in a scheme.
#[verifier::external_body]
fn parse_uri(text: &str) -> (parts: Option<UriParts>)
    ensures
        match parts {
            Some(parts) => parsed_uri(text@) == Some(parts.texts()),
            None => parsed_uri(text@) is None,
        },
        parts matches Some(parts) ==> {
            &&& (parts.scheme matches Some(scheme) ==> unmarked(scheme@))
            &&& (parts.authority matches Some(authority) ==> unmarked(authority@))
            &&& unmarked(parts.path@)
        },
{
    let uri = text.parse::<tokio_tungstenite::tungstenite::http::Uri>().ok()?;
    Some(UriParts {
        scheme: uri.scheme_str().map(str::to_string),
        authority: uri.authority().map(|authority| authority.as_str().to_string()),
        path: uri.path().to_string(),
    })
}

/// Shows the parts of a URI as a log does.
pub fn redacted_parts(parts: &UriParts) -> (text: String)
    ensures
        text@ == parts.shown(),
{
    let mut text = match &parts.scheme {
        Some(scheme) => scheme.clone(),
        None => "<unknown>".to_owned(),
    };
    text.append("://");
    match &parts.authority {
        Some(authority) => {
            text.append(authority.as_str());
        },
        None => {
            text.append("<unknown>");
        },
    }
    text.append(parts.path.as_str());
    text
}

/// Shows a URI as a log does, without its query and fragment; nothing when `uri` is no URI.
pub fn redacted_uri(uri: &str) -> (text: Option<String>)
    ensures
        optional_text(text) == redacted_text(uri@),
        text matches Some(text) ==> unmarked(text@),
{
    match parse_uri(uri) {
        Some(parts) => {
            let text = redacted_parts(&parts);
            proof {
                redaction_hides_queries(parts.texts().0, parts.texts().1, parts.texts().2);
            }
            Some(text)
        },
        None => None,
    }
}

proof fn lemma_unmarked_concat(a: Seq<char>, b: Seq<char>)
    requires
        unmarked(a),
        unmarked(b),
    ensures
        unmarked(a + b),
{
    assert forall|i: int| 0 <= i < (a + b).len() implies (a + b)[i] != '?' && (a + b)[i]
        != '#' by {
        if i < a.len() {
            assert(a.contains((a + b)[i]));
        } else {
            assert((a + b)[i] == b[i - a.len()]);
            assert(b.contains((a + b)[i]));
        }
    }
}

/// A redacted URI holds neither a query nor a fragment when its parts hold none.
pub proof fn redaction_hides_queries(
    scheme: Option<Seq<char>>,
    authority: Option<Seq<char>>,
    path: Seq<char>,
)
    requires
        scheme matches Some(scheme) ==> unmarked(scheme),
        authority matches Some(authority) ==> unmarked(authority),
        unmarked(path),
    ensures
        unmarked(redacted(scheme, authority, path)),
{
    reveal_strlit("<unknown>");
    reveal_strlit("://");
    lemma_unmarked_concat(or_unknown(scheme), "://"@);
    lemma_unmarked_concat(or_unknown(scheme) + "://"@, or_unknown(authority));
    lemma_unmarked_concat(or_unknown(scheme) + "://"@ + or_unknown(authority), path);
}

/// A log shows the scheme, the authority and the path in this order, `<unknown>` for a scheme or an
/// authority that is not there, and nothing of what the parts do not hold.
pub proof fn logs_show_all_parts(parts: UriParts)
    ensures
        parts.scheme matches Some(scheme) ==> (parts.authority matches Some(authority)
            ==> parts.shown() == scheme@ + "://"@ + authority@ + parts.path@),
        parts.scheme matches Some(scheme) ==> parts.authority is None ==> parts.shown() == scheme@
            + "://<unknown>"@ + parts.path@,
        parts.scheme is None ==> (parts.authority matches Some(authority) ==> parts.shown()
            == "<unknown>://"@ + authority@ + parts.path@),
        parts.scheme is None && parts.authority is None ==> parts.shown()
            == "<unknown>://<unknown>"@ + parts.path@,
{
    reveal_strlit("<unknown>");
    reveal_strlit("://");
    reveal_strlit("://<unknown>");
    reveal_strlit("<unknown>://");
    reveal_strlit("<unknown>://<unknown>");
    if let Some(scheme) = parts.scheme {
        assert(scheme@ + "://"@ + "<unknown>"@ =~= scheme@ + "://<unknown>"@);
    }
    assert("<unknown>"@ + "://"@ =~= "<unknown>://"@);
    assert("<unknown>"@ + "://"@ + "<unknown>"@ =~= "<unknown>://<unknown>"@);
}

/// A text is shown exactly when it is a URI, by the parts that it has as one; what holds no query
/// mark and no fragment mark holds neither character anywhere.
pub proof fn texts_are_shown_by_their_parts(uri: Seq<char>, parts: UriParts, text: Seq<char>)
    ensures
        redacted_text(uri) is Some <==> parsed_uri(uri) is Some,
        parsed_uri(uri) == Some(
            (optional_text(parts.scheme), optional_text(parts.authority), parts.path@),
        ) ==> redacted_text(uri) == Some(parts.shown()),
        unmarked(text) ==> forall|i: int|
            0 <= i < text.len() ==> #[trigger] text[i] != '?' && text[i] != '#',
{
    if unmarked(text) {
        assert forall|i: int| 0 <= i < text.len() implies #[trigger] text[i] != '?' && text[i]
            != '#' by {
            assert(text.contains(text[i]));
        }
    }
}

} // verus!
