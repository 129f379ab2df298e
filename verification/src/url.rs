//! The address of a request.
//!
//! Parsing and editing are the work of the `url` crate, as `reqwest` hands it
//! on. The functions marked `external_body` below call it; what they promise
//! of it is stated, not proved. A URL is held as text, and every edit parses
//! the text, edits the URL and writes it out again. Nothing is taken for
//! granted of what was written out: that it parses again, and to a URL whose
//! path can grow, is tested each time.
use vstd::prelude::*;

verus! {

/// The serialization of the URL that `reqwest::Url::parse` makes of `input`,
/// where `input` is an absolute URL.
pub uninterp spec fn normal_form(input: Seq<char>) -> Option<Seq<char>>;

/// What `url::PathSegmentsMut::push` makes of the URL that the text `url`
/// parses to, written out: `segment` is the last segment of the path.
pub uninterp spec fn with_segment(url: Seq<char>, segment: Seq<char>) -> Seq<char>;

/// What `form_urlencoded::Serializer::append_pair` makes of the URL that the
/// text `url` parses to, written out: the pair of `name` and `value` is the
/// last of the query.
pub uninterp spec fn with_pair(url: Seq<char>, name: Seq<char>, value: Seq<char>) -> Seq<char>;

/// Where in the serialization `url` the scheme and its colon end.
pub open spec fn after_scheme(url: Seq<char>) -> int
    decreases url.len(),
{
    if url.len() == 0 {
        0
    } else if url[0] == ':' {
        1
    } else {
        1 + after_scheme(url.skip(1))
    }
}

/// Whether nothing can be appended to the path of the URL whose
/// serialization is `url`: whether no slash follows the scheme and its colon.
pub open spec fn cannot_be_a_base(url: Seq<char>) -> bool {
    !(after_scheme(url) < url.len() && url[after_scheme(url)] == '/')
}

/// Whether `text` parses, and to a URL to whose path segments can be added.
pub open spec fn is_base(text: Seq<char>) -> bool {
    normal_form(text) matches Some(url) && !cannot_be_a_base(url)
}

/// How many bytes `text` takes, as `str::len` counts them.
pub open spec fn byte_len(text: Seq<char>) -> nat {
    vstd::utf8::encode_utf8(text).len() as usize as nat
}

/// Whether the URL that `text` parses to has room for `bytes` more: whether
/// it is sure to stay within the 32 bits in which offsets into a URL are
/// kept.
pub open spec fn has_room(text: Seq<char>, bytes: nat) -> bool {
    normal_form(text) matches Some(url) && byte_len(url) + bytes <= u32::MAX
}

/// Whether `segment` can be pushed onto the path of `url`: there is room for
/// it, of which encoding takes at most three bytes for one, and what comes
/// out is a URL whose path can grow.
pub open spec fn segment_fits(url: Seq<char>, segment: Seq<char>) -> bool {
    &&& is_base(url)
    &&& has_room(url, 3 * byte_len(segment) + 1)
    &&& is_base(with_segment(url, segment))
}

/// Whether the pair of `name` and `value` can be appended to the query of
/// `url`: there is room for it, of which encoding takes at most three bytes
/// for one, and what comes out is a URL whose path can grow.
pub open spec fn pair_fits(url: Seq<char>, name: Seq<char>, value: Seq<char>) -> bool {
    &&& is_base(url)
    &&& has_room(url, 3 * byte_len(name) + 3 * byte_len(value) + 2)
    &&& is_base(with_pair(url, name, value))
}

/// Calls `reqwest::Url::parse` and hands back the URL written out.
#[verifier::external_body]
fn parse_text(input: &str) -> (text: Option<String>)
    ensures
        text is None <==> normal_form(input@) is None,
        text matches Some(t) ==> normal_form(input@) == Some(t@),
{
    match reqwest::Url::parse(input) {
        Ok(url) => Some(url.into()),
        Err(_) => None,
    }
}

/// Calls `reqwest::Url::cannot_be_a_base` on the URL that `text` parses to.
/// It holds where no slash follows the scheme and its colon. A text that
/// does not parse is answered with `true`.
#[verifier::external_body]
fn text_cannot_be_a_base(text: &str) -> (cannot: bool)
    ensures
        cannot == !is_base(text@),
{
    match reqwest::Url::parse(text) {
        Ok(url) => url.cannot_be_a_base(),
        Err(_) => true,
    }
}

/// Calls `url::PathSegmentsMut::push` on the URL that `url` parses to, and
/// hands back the URL written out. The crate panics where a URL outgrows
/// 32 bits: `requires` leaves that out.
#[verifier::external_body]
fn push_segment(url: &str, segment: &str) -> (text: String)
    requires
        is_base(url@),
        has_room(url@, 3 * byte_len(segment@) + 1),
    ensures
        text@ == with_segment(url@, segment@),
{
    let mut url = reqwest::Url::parse(url).unwrap();
    url.path_segments_mut().unwrap().push(segment);
    url.into()
}

/// Calls `form_urlencoded::Serializer::append_pair` on the query of the URL
/// that `url` parses to, and hands back the URL written out. The crate
/// panics where a URL outgrows 32 bits: `requires` leaves that out.
#[verifier::external_body]
fn append_pair(url: &str, name: &str, value: &str) -> (text: String)
    requires
        has_room(url@, 3 * byte_len(name@) + 3 * byte_len(value@) + 2),
    ensures
        text@ == with_pair(url@, name@, value@),
{
    let mut url = reqwest::Url::parse(url).unwrap();
    url.query_pairs_mut().append_pair(name, value);
    url.into()
}

/// Whether the URL that `text` parses to has room for `bytes` more.
fn room(text: &str, bytes: u128) -> (fits: bool)
    ensures
        fits == has_room(text@, bytes as nat),
{
    match parse_text(text) {
        Some(url) => match bytes.checked_add(url.as_str().len() as u128) {
            Some(sum) => sum <= u32::MAX as u128,
            None => false,
        },
        None => false,
    }
}

/// A URL to which a path segment and query pairs can be added.
pub struct Url {
    text: String,
}

impl View for Url {
    type V = Seq<char>;

    closed spec fn view(&self) -> Seq<char> {
        self.text@
    }
}

impl Url {
    #[verifier::type_invariant]
    spec fn wf(self) -> bool {
        is_base(self.text@)
    }

    /// Parses `input`. There is a URL exactly where `input` is an absolute
    /// URL and what it is written out as parses to a URL whose path can
    /// grow.
    pub fn parse(input: &str) -> (url: Option<Url>)
        ensures
            match url {
                Some(u) => normal_form(input@) == Some(u@) && is_base(u@),
                None => normal_form(input@) matches Some(t) ==> !is_base(t),
            },
    {
        match parse_text(input) {
            Some(text) => if text_cannot_be_a_base(text.as_str()) {
                None
            } else {
                Some(Url { text })
            },
            None => None,
        }
    }

    /// The URL as text.
    pub fn as_str(&self) -> (text: &str)
        ensures
            text@ == self@,
            is_base(text@),
    {
        proof {
            use_type_invariant(self);
        }
        self.text.as_str()
    }

    /// The URL with `segment` pushed onto its path, where that can be done.
    fn pushed(&self, segment: &str) -> (text: Option<String>)
        ensures
            text is Some <==> segment_fits(self@, segment@),
            text matches Some(t) ==> t@ == with_segment(self@, segment@),
    {
        proof {
            use_type_invariant(self);
        }
        if !room(self.text.as_str(), 3 * (segment.len() as u128) + 1) {
            return None;
        }
        let text = push_segment(self.text.as_str(), segment);
        if text_cannot_be_a_base(text.as_str()) {
            None
        } else {
            Some(text)
        }
    }

    /// The URL with the pair of `name` and `value` appended to its query,
    /// where that can be done.
    fn appended(&self, name: &str, value: &str) -> (text: Option<String>)
        ensures
            text is Some <==> pair_fits(self@, name@, value@),
            text matches Some(t) ==> t@ == with_pair(self@, name@, value@),
    {
        proof {
            use_type_invariant(self);
        }
        if !room(self.text.as_str(), 3 * (name.len() as u128) + 3 * (value.len() as u128) + 2) {
            return None;
        }
        let text = append_pair(self.text.as_str(), name, value);
        if text_cannot_be_a_base(text.as_str()) {
            None
        } else {
            Some(text)
        }
    }

    /// Whether `segment` can be pushed onto the path. The answer comes from
    /// trying it on a copy.
    pub fn takes_segment(&self, segment: &str) -> (fits: bool)
        ensures
            fits == segment_fits(self@, segment@),
    {
        self.pushed(segment).is_some()
    }

    /// Whether the pair of `name` and `value` can be appended to the query.
    /// The answer comes from trying it on a copy.
    pub fn takes_pair(&self, name: &str, value: &str) -> (fits: bool)
        ensures
            fits == pair_fits(self@, name@, value@),
    {
        self.appended(name, value).is_some()
    }

    /// Appends `segment` to the path.
    pub fn push(self, segment: &str) -> (url: Url)
        requires
            segment_fits(self@, segment@),
        ensures
            url@ == with_segment(self@, segment@),
    {
        Url { text: push_segment(self.text.as_str(), segment) }
    }

    /// Appends `segment` to the path where that can be done, and else hands
    /// the URL back as it is.
    pub fn try_push(self, segment: &str) -> (url: Result<Url, Url>)
        ensures
            match url {
                Ok(u) => segment_fits(self@, segment@) && u@ == with_segment(self@, segment@),
                Err(u) => !segment_fits(self@, segment@) && u@ == self@,
            },
    {
        if self.takes_segment(segment) {
            Ok(self.push(segment))
        } else {
            Err(self)
        }
    }

    /// Appends the pair of `name` and `value` to the query.
    pub fn append_pair(self, name: &str, value: &str) -> (url: Url)
        requires
            pair_fits(self@, name@, value@),
        ensures
            url@ == with_pair(self@, name@, value@),
    {
        Url { text: append_pair(self.text.as_str(), name, value) }
    }

    /// Appends the pair of `name` and `value` to the query where that can be
    /// done, and else hands the URL back as it is.
    pub fn try_append_pair(self, name: &str, value: &str) -> (url: Result<Url, Url>)
        ensures
            match url {
                Ok(u) => pair_fits(self@, name@, value@) && u@ == with_pair(
                    self@,
                    name@,
                    value@,
                ),
                Err(u) => !pair_fits(self@, name@, value@) && u@ == self@,
            },
    {
        if self.takes_pair(name, value) {
            Ok(self.append_pair(name, value))
        } else {
            Err(self)
        }
    }

    /// A copy of the URL.
    pub fn duplicate(&self) -> (url: Url)
        ensures
            url@ == self@,
    {
        proof {
            use_type_invariant(self);
        }
        Url { text: self.text.clone() }
    }
}

} // verus!
