//! URIs, which name topics, procedures, errors and realms.

use regex::Regex;
use vstd::prelude::*;

use crate::json::{Json, JsonModel};

pub mod known_uri;

verus! {

/// The pattern of a loosely valid URI, as the WAMP protocol gives it.
pub const RELAXED_PATTERN: &'static str = r"^([^\s\.#]+\.)*([^\s\.#]+)$";

/// The pattern of a strictly valid URI, as the WAMP protocol gives it.
pub const STRICT_PATTERN: &'static str = r"^(([0-9a-z_]+\.)|\.)*([0-9a-z_]+)?$";

/// A character with the Unicode property `White_Space`.
pub open spec fn is_white_space(c: char) -> bool {
    ||| '\u{9}' <= c <= '\u{d}'
    ||| c == '\u{20}'
    ||| c == '\u{85}'
    ||| c == '\u{a0}'
    ||| c == '\u{1680}'
    ||| '\u{2000}' <= c <= '\u{200a}'
    ||| '\u{2028}' <= c <= '\u{2029}'
    ||| c == '\u{202f}'
    ||| c == '\u{205f}'
    ||| c == '\u{3000}'
}

/// A character that a component of a loosely valid URI may contain.
pub open spec fn is_relaxed_char(c: char) -> bool {
    !is_white_space(c) && c != '.' && c != '#'
}

/// A character that a component of a strictly valid URI may contain.
pub open spec fn is_strict_char(c: char) -> bool {
    '0' <= c <= '9' || 'a' <= c <= 'z' || c == '_'
}

/// One or more nonempty components, separated by single dots.
pub open spec fn is_relaxed_uri(text: Seq<char>) -> bool {
    &&& text.len() > 0
    &&& text[0] != '.'
    &&& text.last() != '.'
    &&& forall|i: int| 0 <= i < text.len() ==> is_relaxed_char(#[trigger] text[i]) || text[i] == '.'
    &&& forall|i: int, j: int|
        0 <= i && j == i + 1 && j < text.len() ==> !(#[trigger] text[i] == '.' && #[trigger] text[j]
            == '.')
}

/// Any number of components, possibly empty ones, separated by dots.
pub open spec fn is_strict_uri(text: Seq<char>) -> bool {
    forall|i: int| 0 <= i < text.len() ==> is_strict_char(#[trigger] text[i]) || text[i] == '.'
}

/// Whether a pattern matches somewhere in `text`, from `regex::Regex::is_match`.
///
/// The two patterns are anchored at both ends, so a match is a match of the whole text. In the
/// first, `\s` stands for the Unicode white space characters and `[^\s\.#]+\.` for a nonempty
/// component and its dot. In the second, every alternative is made of the characters `0` to `9`,
/// `a` to `z` and `_` and of dots, and any text made of these can be cut into such alternatives. No
/// other pattern is handed in: `Regex::new` fails on what is not a pattern.
#[verifier::external_body]
fn regex_is_match(pattern: &str, text: &str) -> (matched: bool)
    requires
        pattern@ == RELAXED_PATTERN@ || pattern@ == STRICT_PATTERN@,
    ensures
        pattern@ == RELAXED_PATTERN@ ==> matched == is_relaxed_uri(text@),
        pattern@ == STRICT_PATTERN@ ==> matched == is_strict_uri(text@),
{
    Regex::new(pattern).unwrap().is_match(text)
}

/// An RFC3989 URI.
///
/// These are used to identify topics, procedures, and errors in WAMP. A URI
/// consists of a number of "."-separated textual components. URI components must not contain
/// whitespace or the "#" character, and it is recommended that their components contain only
/// lower-case letters, digits, and "_".
///
/// An example of a well-formed URI is `"org.company.application.service"`.
#[derive(Debug, Eq, Hash)]
pub struct Uri(String);

impl View for Uri {
    type V = Seq<char>;

    closed spec fn view(&self) -> Seq<char> {
        self.0@
    }
}

impl Uri {
    /// Constructs a URI from a textual representation, skipping all validation.
    ///
    /// It is highly recommended to use [`Uri::relaxed`] or [`Uri::strict`] instead, unless you are
    /// writing a transport implementation.
    pub fn raw(text: String) -> (uri: Self)
        ensures
            uri@ == text@,
    {
        Uri(text)
    }

    /// Constructs and validates a URI from a textual representation.
    ///
    /// Returns `None` if validation fails.
    pub fn relaxed(text: &str) -> (uri: Option<Self>)
        ensures
            match uri {
                Some(u) => is_relaxed_uri(text@) && u@ == text@,
                None => !is_relaxed_uri(text@),
            },
    {
        if regex_is_match(RELAXED_PATTERN, text) {
            Some(Uri(text.to_owned()))
        } else {
            None
        }
    }

    /// Constructs and strictly validates a URI from a textual representation.
    ///
    /// Returns `None` if validation fails. A strict validation enforces that URI components only
    /// contain lower-case letters, digits, and "_".
    pub fn strict(text: &str) -> (uri: Option<Self>)
        ensures
            match uri {
                Some(u) => is_strict_uri(text@) && u@ == text@,
                None => !is_strict_uri(text@),
            },
    {
        if regex_is_match(STRICT_PATTERN, text) {
            Some(Uri(text.to_owned()))
        } else {
            None
        }
    }

    /// Copies the raw string representation of this Uri and returns it.
    pub fn to_raw(&self) -> (text: String)
        ensures
            text@ == self@,
    {
        self.0.clone()
    }
}

impl Clone for Uri {
    fn clone(&self) -> (uri: Self)
        ensures
            uri@ == self@,
    {
        Uri(self.0.clone())
    }
}

impl PartialEq for Uri {
    fn eq(&self, other: &Self) -> (same: bool) {
        self.0 == other.0
    }
}

impl vstd::std_specs::cmp::PartialEqSpecImpl for Uri {
    open spec fn obeys_eq_spec() -> bool {
        true
    }

    open spec fn eq_spec(&self, other: &Self) -> bool {
        self@ == other@
    }
}

impl<'a> PartialEq<&'a str> for Uri {
    fn eq(&self, other: &&'a str) -> (same: bool) {
        self.0 == (*other).to_owned()
    }
}

impl<'a> vstd::std_specs::cmp::PartialEqSpecImpl<&'a str> for Uri {
    open spec fn obeys_eq_spec() -> bool {
        true
    }

    open spec fn eq_spec(&self, other: &&'a str) -> bool {
        self@ == other@
    }
}

/// A strictly valid URI is loosely valid too if and only if it has no empty component.
pub proof fn lemma_strict_without_empty_components(text: Seq<char>)
    requires
        is_strict_uri(text),
    ensures
        is_relaxed_uri(text) <==> {
            &&& text.len() > 0
            &&& text[0] != '.'
            &&& text.last() != '.'
            &&& forall|i: int, j: int|
                0 <= i && j == i + 1 && j < text.len() ==> !(#[trigger] text[i] == '.'
                    && #[trigger] text[j] == '.')
        },
{
}

impl Uri {
    /// The JSON form of this URI: a string.
    pub fn to_json(&self) -> (json: Json)
        ensures
            json@ == JsonModel::Str(self@),
    {
        Json::String(self.0.clone())
    }

    /// Reads a URI, skipping all validation. Only strings are URIs.
    pub fn from_json(json: &Json) -> (uri: Option<Self>)
        ensures
            match uri {
                Some(uri) => json@ == JsonModel::Str(uri@),
                None => !(json@ is Str),
            },
    {
        match json.as_str() {
            Some(text) => Some(Uri(text.to_owned())),
            None => None,
        }
    }
}

/// Two loosely valid URIs with a dot between them are one, and only they are: a loosely valid URI
/// can be cut at any dot.
pub proof fn lemma_relaxed_is_cut_at_dots(a: Seq<char>, b: Seq<char>)
    ensures
        is_relaxed_uri(a.push('.') + b) <==> is_relaxed_uri(a) && is_relaxed_uri(b),
{
    let text = a.push('.') + b;
    let n = a.len() as int;
    assert(text[n] == '.');
    if is_relaxed_uri(text) {
        assert(n > 0);
        assert(b.len() > 0) by {
            if b.len() == 0 {
                assert(text.last() == text[n]);
            }
        }
        assert(text[n - 1] != '.');
        assert(text[n + 1] != '.');
        assert(a[0] == text[0]);
        assert(a.last() == text[n - 1]);
        assert(b[0] == text[n + 1]);
        assert(b.last() == text.last());
        assert forall|i: int| 0 <= i < a.len() implies is_relaxed_char(#[trigger] a[i]) || a[i]
            == '.' by {
            assert(a[i] == text[i]);
        }
        assert forall|i: int| 0 <= i < b.len() implies is_relaxed_char(#[trigger] b[i]) || b[i]
            == '.' by {
            assert(b[i] == text[n + 1 + i]);
        }
        assert forall|i: int, j: int| 0 <= i && j == i + 1 && j < a.len() implies !(#[trigger] a[i]
            == '.' && #[trigger] a[j] == '.') by {
            assert(a[i] == text[i] && a[j] == text[j]);
        }
        assert forall|i: int, j: int| 0 <= i && j == i + 1 && j < b.len() implies !(#[trigger] b[i]
            == '.' && #[trigger] b[j] == '.') by {
            assert(b[i] == text[n + 1 + i] && b[j] == text[n + 1 + j]);
        }
    }
    if is_relaxed_uri(a) && is_relaxed_uri(b) {
        assert(text[0] == a[0]);
        assert(text.last() == b.last());
        assert forall|i: int| 0 <= i < text.len() implies is_relaxed_char(#[trigger] text[i])
            || text[i] == '.' by {
            if i < n {
                assert(text[i] == a[i]);
            } else if i > n {
                assert(text[i] == b[i - n - 1]);
            }
        }
        assert forall|i: int, j: int| 0 <= i && j == i + 1 && j < text.len() implies !(
        #[trigger] text[i] == '.' && #[trigger] text[j] == '.') by {
            if j < n {
                assert(text[i] == a[i] && text[j] == a[j]);
            } else if j == n {
                assert(text[i] == a.last());
            } else if i == n {
                assert(text[j] == b[0]);
            } else {
                assert(text[i] == b[i - n - 1] && text[j] == b[j - n - 1]);
            }
        }
    }
}

/// Without a dot, a text is a loosely valid URI if and only if it is not empty and has neither white
/// space nor "#" in it.
pub proof fn lemma_relaxed_component(text: Seq<char>)
    requires
        !text.contains('.'),
    ensures
        is_relaxed_uri(text) <==> text.len() > 0 && !text.contains('#') && forall|i: int|
            0 <= i < text.len() ==> !is_white_space(#[trigger] text[i]),
{
    assert forall|i: int| 0 <= i < text.len() implies #[trigger] text[i] != '.' by {
        if text[i] == '.' {
            assert(text.contains('.'));
        }
    }
    if is_relaxed_uri(text) {
        if text.contains('#') {
            let i = choose|i: int| 0 <= i < text.len() && text[i] == '#';
            assert(is_relaxed_char(text[i]) || text[i] == '.');
        }
    } else if text.len() > 0 && !text.contains('#') {
        if forall|i: int| 0 <= i < text.len() ==> !is_white_space(#[trigger] text[i]) {
            assert forall|i: int| 0 <= i < text.len() implies is_relaxed_char(#[trigger] text[i])
                || text[i] == '.' by {
                if text[i] == '#' {
                    assert(text.contains('#'));
                }
            }
        }
    }
}

/// Among the characters of ASCII, the space and the controls from tab to carriage return are white
/// space, and no others are.
pub proof fn lemma_ascii_white_space(c: char)
    requires
        c <= '\u{7f}',
    ensures
        is_white_space(c) <==> c == ' ' || '\u{9}' <= c <= '\u{d}',
{
}

/// A text is a strictly valid URI if and only if both of its parts are, wherever it is cut; nothing
/// is one, and a single character is one if it is a digit, a lower-case letter, "_" or a dot.
pub proof fn lemma_strict_is_cut_anywhere(a: Seq<char>, b: Seq<char>, c: char)
    ensures
        is_strict_uri(Seq::empty()),
        is_strict_uri(seq![c]) <==> '0' <= c <= '9' || 'a' <= c <= 'z' || c == '_' || c == '.',
        is_strict_uri(a + b) <==> is_strict_uri(a) && is_strict_uri(b),
{
    let one = seq![c];
    assert(one[0] == c);
    let text = a + b;
    if is_strict_uri(text) {
        assert forall|i: int| 0 <= i < a.len() implies is_strict_char(#[trigger] a[i]) || a[i]
            == '.' by {
            assert(text[i] == a[i]);
        }
        assert forall|i: int| 0 <= i < b.len() implies is_strict_char(#[trigger] b[i]) || b[i]
            == '.' by {
            assert(text[a.len() + i] == b[i]);
        }
    }
}

} // verus!
