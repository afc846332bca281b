//! Absolute URIs, cut into the parts that a download looks at.

use crate::path::{is_absolute, lemma_segments_nonempty, lemma_segments_step, segments};
use crate::text::{chars_of, opt_view, slice_of};
use vstd::prelude::*;
use vstd::string::StringExecFns;

verus! {

/// The parts of a URI as mathematical text.
pub struct UriText {
    /// Scheme and authority: all that stands before the path.
    pub origin: Seq<char>,
    /// The path, percent-encoded.
    pub path: Seq<char>,
    /// Query and fragment with their marks: all that stands behind the path.
    pub rest: Seq<char>,
    /// Whether the path is one opaque text, as in `mailto:` and `data:`
    /// URIs, and not a list of segments.
    pub opaque: bool,
}

impl UriText {
    /// The URI written out.
    pub open spec fn text(self) -> Seq<char> {
        self.origin + self.path + self.rest
    }

    /// The same URI with another path.
    pub open spec fn with_path(self, path: Seq<char>) -> UriText {
        UriText { origin: self.origin, path, rest: self.rest, opaque: self.opaque }
    }
}

/// An absolute URI.
#[derive(Clone, Debug)]
pub struct Uri {
    pub origin: String,
    pub path: String,
    pub rest: String,
    pub opaque: bool,
}

impl View for Uri {
    type V = UriText;

    open spec fn view(&self) -> UriText {
        UriText { origin: self.origin@, path: self.path@, rest: self.rest@, opaque: self.opaque }
    }
}

/// The parts of an optional URI.
pub open spec fn opt_uri(uri: Option<Uri>) -> Option<UriText> {
    match uri {
        Some(uri) => Some(uri@),
        None => None,
    }
}

/// The parts that `url::Url::parse` finds in `text`, in their serialized
/// form; `None` where it refuses `text`.
pub uninterp spec fn parsed_uri(text: Seq<char>) -> Option<UriText>;

/// `url::Url::parse`, with the result cut at the two ends of its path
/// (`url::Position::BeforePath` and `AfterPath`) and the answer of
/// `Url::cannot_be_a_base`. The contract only gives the result its name.
#[verifier::external_body]
fn parse_url(text: &str) -> (uri: Option<Uri>)
    ensures
        opt_uri(uri) == parsed_uri(text@),
{
    match url::Url::parse(text) {
        Ok(url) => Some(
            Uri {
                origin: url[..url::Position::BeforePath].to_string(),
                path: url.path().to_string(),
                rest: url[url::Position::AfterPath..].to_string(),
                opaque: url.cannot_be_a_base(),
            },
        ),
        Err(_) => None,
    }
}

/// The last of the segments of `path`: what stands behind its last separator.
pub open spec fn last_segment(path: Seq<char>) -> Seq<char> {
    segments(path).last()
}

/// `path` without its last segment: all up to its last separator, that
/// separator included.
pub open spec fn parent(path: Seq<char>) -> Seq<char> {
    path.take(path.len() - last_segment(path).len())
}

/// The last segment of a path is what stands behind its last separator.
pub proof fn lemma_last_segment_is_suffix(path: Seq<char>)
    ensures
        last_segment(path).len() <= path.len(),
        parent(path) + last_segment(path) == path,
        parent(path).len() > 0 ==> parent(path).last() == '/',
        path.len() > 0 && path.last() != '/' ==> last_segment(path).len() > 0,
    decreases path.len(),
{
    lemma_segments_nonempty(path);
    if path.len() > 0 {
        let init = path.drop_last();
        lemma_last_segment_is_suffix(init);
        lemma_segments_nonempty(init);
        if path.last() == '/' {
            assert(parent(path) =~= path);
            assert(parent(path) + last_segment(path) =~= path);
        } else {
            let before = segments(init);
            assert(last_segment(path) == before.last().push(path.last()));
            assert(parent(path) =~= parent(init));
            assert(parent(path) + last_segment(path) =~= (parent(init)
                + last_segment(init)).push(path.last()));
            assert(init.push(path.last()) =~= path);
        }
    } else {
        assert(parent(path) + last_segment(path) =~= path);
    }
}

/// The last of `segs` that is not empty, if there is one.
pub open spec fn last_nonempty(segs: Seq<Seq<char>>) -> Option<Seq<char>>
    decreases segs.len(),
{
    if segs.len() == 0 {
        None
    } else if segs.last().len() > 0 {
        Some(segs.last())
    } else {
        last_nonempty(segs.drop_last())
    }
}

/// The file name that a URI path ends in: the last of its segments that is
/// not empty. A path that does not start with a separator is no list of
/// segments and names no file.
pub open spec fn path_filename(path: Seq<char>) -> Option<Seq<char>> {
    if is_absolute(path) {
        last_nonempty(segments(path))
    } else {
        None
    }
}

/// The text of the piece of `chars` that an optional index pair delimits.
pub open spec fn opt_piece(chars: Seq<char>, range: Option<(usize, usize)>) -> Option<Seq<char>> {
    match range {
        Some((from, to)) => Some(chars.subrange(from as int, to as int)),
        None => None,
    }
}

/// Where the last segment of `chars` that is not empty begins and ends.
pub fn last_nonempty_segment(chars: &Vec<char>) -> (found: Option<(usize, usize)>)
    ensures
        found matches Some((from, to)) ==> from < to <= chars.len(),
        opt_piece(chars@, found) == last_nonempty(segments(chars@)),
{
    let mut found: Option<(usize, usize)> = None;
    let mut start: usize = 0;
    let mut i: usize = 0;
    proof {
        assert(chars@.take(0) =~= Seq::<char>::empty());
        assert(chars@.subrange(0, 0) =~= Seq::<char>::empty());
        assert(segments(chars@.take(0)).drop_last() =~= Seq::<Seq<char>>::empty());
    }
    while i < chars.len()
        invariant
            start <= i <= chars.len(),
            found matches Some((from, to)) ==> from < to <= i,
            segments(chars@.take(i as int)).len() >= 1,
            segments(chars@.take(i as int)).last() == chars@.subrange(start as int, i as int),
            opt_piece(chars@, found) == last_nonempty(segments(chars@.take(i as int)).drop_last()),
        decreases chars.len() - i,
    {
        proof {
            lemma_segments_step(chars@, i as int);
        }
        let ghost before = segments(chars@.take(i as int));
        if chars[i] == '/' {
            if start < i {
                found = Some((start, i));
            }
            start = i + 1;
            proof {
                assert(before.push(Seq::<char>::empty()).drop_last() =~= before);
                assert(chars@.subrange(start as int, i + 1) =~= Seq::<char>::empty());
            }
        } else {
            proof {
                let grown = before.last().push(chars@[i as int]);
                assert(before.drop_last().push(grown).drop_last() =~= before.drop_last());
                assert(chars@.subrange(start as int, i + 1) =~= grown);
            }
        }
        i += 1;
    }
    proof {
        assert(chars@.take(i as int) =~= chars@);
    }
    if start < i {
        found = Some((start, i));
    }
    found
}

/// Where the last segment of `chars` begins.
pub fn last_segment_start(chars: &Vec<char>) -> (start: usize)
    ensures
        start <= chars.len(),
        start == chars.len() - last_segment(chars@).len(),
        last_segment(chars@) == chars@.subrange(start as int, chars.len() as int),
{
    let mut start: usize = 0;
    let mut i: usize = 0;
    proof {
        assert(chars@.take(0) =~= Seq::<char>::empty());
        assert(chars@.subrange(0, 0) =~= Seq::<char>::empty());
    }
    while i < chars.len()
        invariant
            start <= i <= chars.len(),
            segments(chars@.take(i as int)).len() >= 1,
            segments(chars@.take(i as int)).last() == chars@.subrange(start as int, i as int),
        decreases chars.len() - i,
    {
        proof {
            lemma_segments_step(chars@, i as int);
        }
        if chars[i] == '/' {
            start = i + 1;
            proof {
                assert(chars@.subrange(start as int, i + 1) =~= Seq::<char>::empty());
            }
        } else {
            proof {
                let grown = segments(chars@.take(i as int)).last().push(chars@[i as int]);
                assert(chars@.subrange(start as int, i + 1) =~= grown);
            }
        }
        i += 1;
    }
    proof {
        assert(chars@.take(i as int) =~= chars@);
    }
    start
}

impl Uri {
    /// Reads an absolute URI.
    pub fn parse(text: &str) -> (uri: Option<Uri>)
        ensures
            opt_uri(uri) == parsed_uri(text@),
    {
        parse_url(text)
    }

    /// The URI written out.
    pub fn text(&self) -> (text: String)
        ensures
            text@ == self@.text(),
    {
        let mut text = self.origin.clone();
        text.append(self.path.as_str());
        text.append(self.rest.as_str());
        text
    }

    /// A copy of the URI.
    pub fn duplicate(&self) -> (copy: Uri)
        ensures
            copy@ == self@,
    {
        Uri {
            origin: self.origin.clone(),
            path: self.path.clone(),
            rest: self.rest.clone(),
            opaque: self.opaque,
        }
    }

    /// The file name that the path ends in: its last segment that is not
    /// empty, if the path is a list of segments and has one.
    pub fn filename(&self) -> (name: Option<String>)
        ensures
            opt_view(name) == path_filename(self@.path),
    {
        let chars = chars_of(self.path.as_str());
        if chars.len() > 0 && chars[0] == '/' {
            match last_nonempty_segment(&chars) {
                Some((from, to)) => Some(slice_of(&chars, from, to)),
                None => None,
            }
        } else {
            None
        }
    }
}

} // verus!
