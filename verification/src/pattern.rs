//! Path patterns: literal segments and named parameters, read from text such
//! as `/show/{id}` and matched against the segments of a request path.

use vstd::prelude::*;
use vstd::string::StringExecFns;
use vstd::string::StrSliceExecFns;
use crate::fields::Fields;
use crate::text::{split, split_on, texts};

verus! {

/// One segment of a pattern.
#[derive(Debug)]
pub enum Segment {
    /// Matches exactly this text.
    Literal(String),
    /// Matches any non-empty segment and captures it under this name.
    Param(String),
}

/// The mathematical value of a [`Segment`].
pub ghost enum SegmentView {
    Literal(Seq<char>),
    Param(Seq<char>),
}

impl View for Segment {
    type V = SegmentView;

    open spec fn view(&self) -> SegmentView {
        match self {
            Segment::Literal(text) => SegmentView::Literal(text@),
            Segment::Param(name) => SegmentView::Param(name@),
        }
    }
}

/// Whether a piece of pattern text declares a parameter: a non-empty name
/// between braces.
pub open spec fn is_param_text(piece: Seq<char>) -> bool {
    piece.len() >= 3 && piece[0] == '{' && piece[piece.len() - 1] == '}'
}

/// The segment that a piece of pattern text stands for.
pub open spec fn segment_of(piece: Seq<char>) -> SegmentView {
    if is_param_text(piece) {
        SegmentView::Param(piece.subrange(1, piece.len() - 1))
    } else {
        SegmentView::Literal(piece)
    }
}

/// The segments of a path: its pieces between slashes. A leading slash
/// leaves an empty first segment, a trailing slash an empty last one, so
/// `/app` and `/app/` differ.
pub open spec fn path_segments(path: Seq<char>) -> Seq<Seq<char>> {
    split_on(path, '/')
}

/// The pattern that a pattern text stands for.
pub open spec fn pattern_of(text: Seq<char>) -> Seq<SegmentView> {
    path_segments(text).map_values(|piece: Seq<char>| segment_of(piece))
}

/// Whether one pattern segment accepts one path segment.
pub open spec fn segment_matches(segment: SegmentView, piece: Seq<char>) -> bool {
    match segment {
        SegmentView::Literal(text) => text == piece,
        SegmentView::Param(_) => piece.len() > 0,
    }
}

/// Whether a pattern accepts a path, given as its segments: the same number
/// of segments, each accepted by the pattern segment in its place.
pub open spec fn pattern_matches(pattern: Seq<SegmentView>, pieces: Seq<Seq<char>>) -> bool {
    &&& pattern.len() == pieces.len()
    &&& forall|i: int| 0 <= i < pattern.len() ==> segment_matches(#[trigger] pattern[i], pieces[i])
}

/// The parameters that a pattern captures from the first `upto` segments of
/// a path, in the order of the pattern.
pub open spec fn captures_upto(pattern: Seq<SegmentView>, pieces: Seq<Seq<char>>, upto: int) -> Seq<
    (Seq<char>, Seq<char>),
>
    decreases upto,
{
    if upto <= 0 {
        Seq::empty()
    } else {
        let before = captures_upto(pattern, pieces, upto - 1);
        match pattern[upto - 1] {
            SegmentView::Param(name) => before.push((name, pieces[upto - 1])),
            SegmentView::Literal(_) => before,
        }
    }
}

/// The parameters that a pattern captures from a path that it accepts.
pub open spec fn captures(pattern: Seq<SegmentView>, pieces: Seq<Seq<char>>) -> Seq<
    (Seq<char>, Seq<char>),
> {
    captures_upto(pattern, pieces, pattern.len() as int)
}

/// The views of a list of segments.
pub open spec fn segment_views(segments: Seq<Segment>) -> Seq<SegmentView> {
    segments.map_values(|s: Segment| s@)
}

/// A path pattern.
#[derive(Debug)]
pub struct Pattern {
    segments: Vec<Segment>,
}

impl View for Pattern {
    type V = Seq<SegmentView>;

    closed spec fn view(&self) -> Seq<SegmentView> {
        segment_views(self.segments@)
    }
}

/// Reads one piece of pattern text.
fn parse_segment(piece: &str) -> (segment: Segment)
    ensures
        segment@ == segment_of(piece@),
{
    let n: usize = piece.unicode_len();
    if n >= 3 && piece.get_char(0) == '{' && piece.get_char(n - 1) == '}' {
        Segment::Param(String::from_str(piece.substring_char(1, n - 1)))
    } else {
        Segment::Literal(String::from_str(piece))
    }
}

impl Pattern {
    /// Reads a pattern such as `/show/{id}`: the text is cut at slashes, and
    /// a piece of the form `{name}` declares the parameter `name`.
    pub fn parse(text: &str) -> (pattern: Pattern)
        ensures
            pattern@ == pattern_of(text@),
    {
        let pieces = split(text, '/');
        let n: usize = pieces.len();
        let mut segments: Vec<Segment> = Vec::new();
        let mut i: usize = 0;
        while i < n
            invariant
                texts(pieces@) == path_segments(text@),
                n == pieces@.len(),
                i <= n,
                segments@.len() == i,
                forall|k: int| 0 <= k < i ==> (#[trigger] segments@[k])@ == segment_of(pieces@[k]@),
            decreases n - i,
        {
            let segment = parse_segment(pieces[i].as_str());
            segments.push(segment);
            i = i + 1;
        }
        let pattern = Pattern { segments };
        proof {
            assert forall|k: int| 0 <= k < n implies pattern@[k] == pattern_of(text@)[k] by {
                assert(texts(pieces@)[k] == pieces@[k]@);
            }
            assert(pattern@ =~= pattern_of(text@));
        }
        pattern
    }

    /// The number of segments.
    pub fn len(&self) -> (n: usize)
        ensures
            n == self@.len(),
    {
        self.segments.len()
    }

    /// Whether two patterns are the same: the same segments in the same
    /// order, parameter names included.
    pub fn same_as(&self, other: &Pattern) -> (r: bool)
        ensures
            r == (self@ == other@),
    {
        let n: usize = self.segments.len();
        if other.segments.len() != n {
            return false;
        }
        let mut i: usize = 0;
        while i < n
            invariant
                n == self@.len(),
                n == other@.len(),
                n == self.segments@.len(),
                n == other.segments@.len(),
                i <= n,
                forall|k: int| 0 <= k < i ==> self@[k] == other@[k],
            decreases n - i,
        {
            let same = match (&self.segments[i], &other.segments[i]) {
                (Segment::Literal(a), Segment::Literal(b)) => *a == *b,
                (Segment::Param(a), Segment::Param(b)) => *a == *b,
                _ => false,
            };
            if !same {
                assert(self@[i as int] != other@[i as int]);
                return false;
            }
            assert(self@[i as int] == other@[i as int]);
            i = i + 1;
        }
        assert(self@ =~= other@);
        true
    }

    /// Whether the pattern accepts the path with these segments, whatever
    /// it would capture.
    pub fn accepts(&self, pieces: &Vec<String>) -> (r: bool)
        ensures
            r == pattern_matches(self@, texts(pieces@)),
    {
        let n: usize = self.segments.len();
        if pieces.len() != n {
            return false;
        }
        let mut i: usize = 0;
        while i < n
            invariant
                n == self@.len(),
                n == self.segments@.len(),
                n == pieces@.len(),
                i <= n,
                forall|k: int| 0 <= k < i ==> segment_matches(#[trigger] self@[k], texts(pieces@)[k]),
            decreases n - i,
        {
            let ok = match &self.segments[i] {
                Segment::Literal(text) => *text == pieces[i],
                Segment::Param(_) => !pieces[i].as_str().is_empty(),
            };
            proof {
                assert(texts(pieces@)[i as int] == pieces@[i as int]@);
                assert(self@[i as int] == self.segments@[i as int]@);
            }
            if !ok {
                assert(!segment_matches(self@[i as int], texts(pieces@)[i as int]));
                return false;
            }
            i = i + 1;
        }
        true
    }

    /// Matches the pattern against the segments of a path. On a match the
    /// result holds the captured parameters in pattern order.
    pub fn match_segments(&self, pieces: &Vec<String>) -> (r: Option<Fields>)
        ensures
            match r {
                Some(params) => pattern_matches(self@, texts(pieces@)) && params@ == captures(
                    self@,
                    texts(pieces@),
                ),
                None => !pattern_matches(self@, texts(pieces@)),
            },
    {
        if !self.accepts(pieces) {
            return None;
        }
        let n: usize = self.segments.len();
        let mut params = Fields::new();
        let mut i: usize = 0;
        while i < n
            invariant
                n == self@.len(),
                n == self.segments@.len(),
                n == pieces@.len(),
                i <= n,
                params@ == captures_upto(self@, texts(pieces@), i as int),
            decreases n - i,
        {
            proof {
                assert(texts(pieces@)[i as int] == pieces@[i as int]@);
                assert(self@[i as int] == self.segments@[i as int]@);
            }
            match &self.segments[i] {
                Segment::Param(name) => {
                    params.push(name.clone(), pieces[i].clone());
                },
                Segment::Literal(_) => {},
            }
            i = i + 1;
        }
        Some(params)
    }

    /// Matches the pattern against a path.
    pub fn match_path(&self, path: &str) -> (r: Option<Fields>)
        ensures
            match r {
                Some(params) => pattern_matches(self@, path_segments(path@)) && params@ == captures(
                    self@,
                    path_segments(path@),
                ),
                None => !pattern_matches(self@, path_segments(path@)),
            },
    {
        let pieces = split(path, '/');
        self.match_segments(&pieces)
    }
}

} // verus!

verus! {

/// Different pieces of pattern text stand for different segments.
pub proof fn lemma_segment_of_injective(a: Seq<char>, b: Seq<char>)
    requires
        segment_of(a) == segment_of(b),
    ensures
        a == b,
{
    if is_param_text(a) {
        let inner_a = a.subrange(1, a.len() - 1);
        let inner_b = b.subrange(1, b.len() - 1);
        assert(is_param_text(b));
        assert(inner_a == inner_b);
        assert(inner_a.len() == a.len() - 2);
        assert(inner_b.len() == b.len() - 2);
        assert forall|k: int| 0 <= k < a.len() implies a[k] == b[k] by {
            if 0 < k < a.len() - 1 {
                assert(a[k] == inner_a[k - 1]);
                assert(b[k] == inner_b[k - 1]);
            }
        }
        assert(a =~= b);
    }
}

/// Different pattern texts stand for different patterns.
pub proof fn lemma_pattern_of_injective(a: Seq<char>, b: Seq<char>)
    requires
        pattern_of(a) == pattern_of(b),
    ensures
        a == b,
{
    let pa = path_segments(a);
    let pb = path_segments(b);
    assert(pa.len() == pattern_of(a).len());
    assert(pb.len() == pattern_of(b).len());
    assert forall|k: int| 0 <= k < pa.len() implies pa[k] == pb[k] by {
        assert(pattern_of(a)[k] == segment_of(pa[k]));
        assert(pattern_of(b)[k] == segment_of(pb[k]));
        lemma_segment_of_injective(pa[k], pb[k]);
    }
    assert(pa =~= pb);
    crate::text::lemma_split_injective(a, b, '/');
}

/// A pattern text without parameters accepts exactly the path that is
/// written like it.
pub proof fn lemma_literal_pattern_accepts_itself_only(text: Seq<char>, path: Seq<char>)
    requires
        forall|k: int|
            0 <= k < path_segments(text).len() ==> !is_param_text(#[trigger] path_segments(text)[k]),
    ensures
        pattern_matches(pattern_of(text), path_segments(path)) <==> path == text,
{
    let pattern = pattern_of(text);
    let pt = path_segments(text);
    let pp = path_segments(path);
    assert forall|k: int| 0 <= k < pt.len() implies #[trigger] pattern[k] == SegmentView::Literal(
        pt[k],
    ) by {
        assert(pattern[k] == segment_of(pt[k]));
    }
    if pattern_matches(pattern, pp) {
        assert forall|k: int| 0 <= k < pt.len() implies pt[k] == pp[k] by {
            assert(segment_matches(pattern[k], pp[k]));
        }
        assert(pt =~= pp);
        crate::text::lemma_split_injective(text, path, '/');
    }
    if path == text {
        assert forall|k: int| 0 <= k < pattern.len() implies segment_matches(
            #[trigger] pattern[k],
            pp[k],
        ) by {}
    }
}

/// A pattern text without an opening brace declares no parameter, so it
/// accepts the path that is written like it and no other.
pub proof fn lemma_plain_text_accepts_itself_only(text: Seq<char>)
    requires
        !text.contains('{'),
    ensures
        forall|path: Seq<char>|
            #![trigger pattern_matches(pattern_of(text), path_segments(path))]
            pattern_matches(pattern_of(text), path_segments(path)) <==> path == text,
{
    crate::text::lemma_split_pieces_within(text, '/');
    let pieces = path_segments(text);
    assert forall|k: int| 0 <= k < pieces.len() implies !is_param_text(#[trigger] pieces[k]) by {
        if is_param_text(pieces[k]) {
            assert(text.contains(pieces[k][0]));
        }
    }
    assert forall|path: Seq<char>|
        #![trigger pattern_matches(pattern_of(text), path_segments(path))]
        pattern_matches(pattern_of(text), path_segments(path)) <==> path == text by {
        lemma_literal_pattern_accepts_itself_only(text, path);
    }
}

} // verus!
