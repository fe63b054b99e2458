//! The `Text` value: an ordered, append-only sequence of `Content` segments
//! representing a logically concatenated string. Length and equality range
//! over every segment's canonical bytes; the primary view shows the first
//! segment only. Segments are never merged or re-encoded.

use vstd::prelude::*;
use vstd::seq_lib::lemma_flatten_concat;
use crate::content::{Content, ToContent};

verus! {

/// An ordered sequence of `Content` segments; insertion order is
/// concatenation order.
#[derive(Debug)]
pub struct Text {
    segments: Vec<Content>,
}

/// What it means for a `Text` to equal a foreign source value: the
/// concatenated bytes of every segment equal the bytes that converting the
/// source would give. Equality inspects all segments, even though the
/// primary view shows only the first.
pub open spec fn text_eq_foreign<T: ToContent>(t: Text, a: T) -> bool {
    t.flat() == a.content_bytes()
}

impl View for Text {
    type V = Seq<Seq<u8>>;

    /// The canonical byte views of the segments, in concatenation order.
    closed spec fn view(&self) -> Seq<Seq<u8>> {
        self.segments@.map_values(|c: Content| c@)
    }
}

impl Text {
    /// All of the concatenated bytes: the segment views flattened in order.
    pub open spec fn flat(&self) -> Seq<u8> {
        self@.flatten()
    }

    /// The canonical view of the first segment, or the empty view when
    /// there is no segment.
    pub open spec fn primary(&self) -> Seq<u8> {
        if self@.len() == 0 {
            Seq::<u8>::empty()
        } else {
            self@[0]
        }
    }

    /// Validity of a `Text`: every segment is a valid `Content`.
    pub closed spec fn wf(&self) -> bool {
        forall|i: int| 0 <= i < self.segments@.len() ==> (#[trigger] self.segments@[i]).wf()
    }

    /// A `Text` with no segments.
    pub fn new() -> (t: Text)
        ensures
            t@ =~= Seq::<Seq<u8>>::empty(),
            t.flat() =~= Seq::<u8>::empty(),
            t.wf(),
    {
        let t = Text { segments: Vec::new() };
        proof {
            assert(t@ =~= Seq::<Seq<u8>>::empty());
        }
        t
    }

    /// A `Text` whose sole segment is the given value.
    pub fn from_content(c: Content) -> (t: Text)
        requires
            c.wf(),
        ensures
            t@ =~= seq![c@],
            t.flat() =~= c@,
            t.flat().len() <= usize::MAX,
            t.wf(),
    {
        let ghost v = c@;
        proof {
            c.lemma_view_len_bound();
        }
        let mut segments: Vec<Content> = Vec::new();
        segments.push(c);
        let t = Text { segments };
        proof {
            assert(t@ =~= seq![v]);
            t@.lemma_flatten_one_element();
        }
        t
    }

    /// A `Text` built from any supported source value: the source converts
    /// to one `Content`, which becomes the sole segment.
    pub fn from_value<T: ToContent>(a: T) -> (t: Text)
        ensures
            t@ =~= seq![a.content_bytes()],
            t.flat() =~= a.content_bytes(),
            t.flat().len() <= usize::MAX,
            t.wf(),
    {
        Text::from_content(a.to_content())
    }

    /// How many segments the `Text` holds.
    pub fn segment_count(&self) -> (n: usize)
        ensures
            n == self@.len(),
    {
        self.segments.len()
    }

    /// Byte length: the sum of the segments' byte lengths.
    pub fn len(&self) -> (n: usize)
        requires
            self.flat().len() <= usize::MAX,
        ensures
            n == self.flat().len(),
    {
        let segment_total: usize = self.segments.len();
        let mut acc: usize = 0;
        let mut i: usize = 0;
        proof {
            assert(self@.take(0) =~= Seq::<Seq<u8>>::empty());
        }
        while i < segment_total
            invariant
                segment_total == self@.len(),
                self@ == self.segments@.map_values(|c: Content| c@),
                self.flat().len() <= usize::MAX,
                0 <= i <= segment_total,
                acc == self@.take(i as int).flatten().len(),
            decreases segment_total - i,
        {
            let seg_len = self.segments[i].len();
            proof {
                assert(self@.take(i + 1) =~= self@.take(i as int).push(self@[i as int]));
                self@.take(i as int).lemma_flatten_push(self@[i as int]);
                assert(self@ =~= self@.take(i + 1) + self@.skip(i + 1));
                lemma_flatten_concat(self@.take(i + 1), self@.skip(i + 1));
                assert(self@.take(i + 1).flatten().len() <= self.flat().len());
                assert(self@[i as int] == self.segments@[i as int]@);
            }
            acc = acc + seg_len;
            i = i + 1;
        }
        proof {
            assert(self@.take(segment_total as int) =~= self@);
        }
        acc
    }

    /// True exactly when the concatenated bytes are empty, that is, when
    /// every segment is empty.
    pub fn is_empty(&self) -> (r: bool)
        ensures
            r == (self.flat().len() == 0),
    {
        let segment_total: usize = self.segments.len();
        let mut i: usize = 0;
        while i < segment_total
            invariant
                segment_total == self@.len(),
                self@ == self.segments@.map_values(|c: Content| c@),
                0 <= i <= segment_total,
                forall|j: int| 0 <= j < i ==> self@[j].len() == 0,
            decreases segment_total - i,
        {
            if !self.segments[i].is_empty() {
                proof {
                    assert(self@[i as int] == self.segments@[i as int]@);
                    lemma_flatten_len_is_zero_iff_all_empty(self@);
                }
                return false;
            }
            proof {
                assert(self@[i as int] == self.segments@[i as int]@);
            }
            i = i + 1;
        }
        proof {
            lemma_flatten_len_is_zero_iff_all_empty(self@);
        }
        true
    }

    /// Extends the segment sequence with `other`'s segments, in order;
    /// segments are neither merged nor re-encoded.
    pub fn append(&mut self, other: Text)
        requires
            old(self).wf(),
            other.wf(),
        ensures
            final(self)@ =~= old(self)@ + other@,
            final(self).flat() =~= old(self).flat() + other.flat(),
            final(self).wf(),
    {
        let mut moved = other;
        self.segments.append(&mut moved.segments);
        proof {
            assert(final(self)@ =~= old(self)@ + other@);
            lemma_flatten_concat(old(self)@, other@);
        }
    }

    /// Converts a source value to one `Content` and pushes it as the last
    /// segment.
    pub fn append_value<T: ToContent>(&mut self, a: T)
        requires
            old(self).wf(),
        ensures
            final(self)@ =~= old(self)@.push(a.content_bytes()),
            final(self).flat() =~= old(self).flat() + a.content_bytes(),
            final(self).wf(),
    {
        let c = a.to_content();
        self.segments.push(c);
        proof {
            assert(final(self)@ =~= old(self)@.push(a.content_bytes()));
            old(self)@.lemma_flatten_push(a.content_bytes());
        }
    }

    /// Concatenation, consuming both operands: the result's segments are
    /// `self`'s followed by `other`'s.
    pub fn concat(self, other: Text) -> (r: Text)
        requires
            self.wf(),
            other.wf(),
        ensures
            r@ =~= self@ + other@,
            r.flat() =~= self.flat() + other.flat(),
            r.wf(),
    {
        let mut joined = self;
        joined.append(other);
        joined
    }

    /// Concatenation with a source value, consuming the `Text`: the value
    /// converts to one `Content`, pushed as the last segment.
    pub fn concat_value<T: ToContent>(self, a: T) -> (r: Text)
        requires
            self.wf(),
        ensures
            r@ =~= self@.push(a.content_bytes()),
            r.flat() =~= self.flat() + a.content_bytes(),
            r.wf(),
    {
        let mut joined = self;
        joined.append_value(a);
        joined
    }

    /// The primary view: the canonical view of the first segment only, or
    /// an empty view when there is no segment. Segments after the first
    /// count for length and equality but not here.
    pub fn primary_view(&self) -> (b: &[u8])
        ensures
            b@ == self.primary(),
    {
        if self.segments.len() == 0 {
            let empty: &[u8] = &[];
            proof {
                assert(empty@ =~= Seq::<u8>::empty());
            }
            empty
        } else {
            self.segments[0].canonical_view()
        }
    }

    /// The concatenated bytes of every segment, as one owned buffer.
    pub fn to_flat_vec(&self) -> (out: Vec<u8>)
        ensures
            out@ == self.flat(),
    {
        let segment_total: usize = self.segments.len();
        let mut out: Vec<u8> = Vec::new();
        let mut i: usize = 0;
        proof {
            assert(self@.take(0) =~= Seq::<Seq<u8>>::empty());
            assert(out@ =~= self@.take(0).flatten());
        }
        while i < segment_total
            invariant
                segment_total == self@.len(),
                self@ == self.segments@.map_values(|c: Content| c@),
                0 <= i <= segment_total,
                out@ == self@.take(i as int).flatten(),
            decreases segment_total - i,
        {
            let seg: &[u8] = self.segments[i].canonical_view();
            let seg_len: usize = seg.len();
            let mut j: usize = 0;
            while j < seg_len
                invariant
                    seg_len == seg@.len(),
                    0 <= j <= seg_len,
                    out@ == self@.take(i as int).flatten() + seg@.take(j as int),
                decreases seg_len - j,
            {
                out.push(*vstd::slice::slice_index_get(seg, j));
                proof {
                    assert(seg@.take(j + 1) =~= seg@.take(j as int).push(seg@[j as int]));
                    assert(out@ =~= self@.take(i as int).flatten() + seg@.take(j + 1));
                }
                j = j + 1;
            }
            proof {
                assert(seg@.take(seg_len as int) =~= seg@);
                assert(seg@ == self@[i as int]);
                assert(self@.take(i + 1) =~= self@.take(i as int).push(self@[i as int]));
                self@.take(i as int).lemma_flatten_push(self@[i as int]);
                assert(out@ =~= self@.take(i + 1).flatten());
            }
            i = i + 1;
        }
        proof {
            assert(self@.take(segment_total as int) =~= self@);
        }
        out
    }

    /// Equality of two `Text` values: their concatenated byte streams are
    /// equal, whatever the segmentation.
    pub fn equals(&self, other: &Text) -> (r: bool)
        ensures
            r == (self.flat() == other.flat()),
    {
        let a = self.to_flat_vec();
        let b = other.to_flat_vec();
        crate::content::bytes_eq(a.as_slice(), b.as_slice())
    }

    /// Equality with UTF-8 text: the concatenated bytes of every segment
    /// equal the text's UTF-8 bytes.
    pub fn eq_str(&self, other: &str) -> (r: bool)
        ensures
            r == text_eq_foreign(*self, other),
    {
        let a = self.to_flat_vec();
        crate::content::bytes_eq(a.as_slice(), other.as_bytes())
    }

    /// Equality with owned UTF-8 text; decided by the same bytes as
    /// `eq_str`.
    pub fn eq_string(&self, other: &String) -> (r: bool)
        ensures
            r == text_eq_foreign(*self, *other),
    {
        let a = self.to_flat_vec();
        crate::content::bytes_eq(a.as_slice(), other.as_str().as_bytes())
    }

    /// Equality with platform-native text, by its raw bytes.
    pub fn eq_platform(&self, other: &crate::content::PlatformText) -> (r: bool)
        ensures
            r == text_eq_foreign(*self, other),
    {
        let a = self.to_flat_vec();
        crate::content::bytes_eq(a.as_slice(), other.as_byte_slice())
    }

    /// Equality with a NUL-terminated byte string, by its bytes excluding
    /// the terminator.
    pub fn eq_nul(&self, other: &crate::content::NulBytes) -> (r: bool)
        ensures
            r == text_eq_foreign(*self, other),
    {
        let a = self.to_flat_vec();
        crate::content::bytes_eq(a.as_slice(), other.as_byte_slice())
    }

    /// Equality with a filesystem path, by the path's bytes.
    pub fn eq_path(&self, other: &crate::content::PathText) -> (r: bool)
        ensures
            r == text_eq_foreign(*self, other),
    {
        let a = self.to_flat_vec();
        crate::content::bytes_eq(a.as_slice(), other.as_byte_slice())
    }

    /// Conversion back out to owned UTF-8 text, over every segment's bytes:
    /// valid UTF-8 decodes exactly; anything else falls back to lossy
    /// substitution, never a failure.
    pub fn to_utf8_lossy(&self) -> (r: String)
        ensures
            r@ == crate::content::lossy_decode(self.flat()),
            vstd::utf8::valid_utf8(self.flat()) ==> r@ == vstd::utf8::decode_utf8(self.flat()),
    {
        let flat = self.to_flat_vec();
        crate::content::decode_lossy(flat.as_slice())
    }

    /// The primary view rendered as owned UTF-8 text for display: the first
    /// segment only, decoded lossily. Segments after the first count for
    /// length and equality but not for display.
    pub fn display_string(&self) -> (r: String)
        ensures
            r@ == crate::content::lossy_decode(self.primary()),
    {
        crate::content::decode_lossy(self.primary_view())
    }
}

impl Default for Text {
    /// The default `Text` has no segments.
    fn default() -> (t: Text)
        ensures
            t@ =~= Seq::<Seq<u8>>::empty(),
            t.flat() =~= Seq::<u8>::empty(),
            t.wf(),
    {
        Text::new()
    }
}

impl PartialEq for Text {
    /// The `==` operator on two `Text` values: full concatenated byte
    /// streams, whatever the segmentation.
    fn eq(&self, other: &Text) -> (r: bool) {
        self.equals(other)
    }
}

impl vstd::std_specs::cmp::PartialEqSpecImpl for Text {
    open spec fn obeys_eq_spec() -> bool {
        true
    }

    open spec fn eq_spec(&self, other: &Text) -> bool {
        self.flat() == other.flat()
    }
}

impl<'a> PartialEq<&'a str> for Text {
    /// The `==` operator between a `Text` and UTF-8 text: full-segment
    /// comparison, not just the primary view.
    fn eq(&self, other: &&'a str) -> (r: bool) {
        self.eq_str(*other)
    }
}

impl<'a> vstd::std_specs::cmp::PartialEqSpecImpl<&'a str> for Text {
    open spec fn obeys_eq_spec() -> bool {
        true
    }

    open spec fn eq_spec(&self, other: &&'a str) -> bool {
        text_eq_foreign(*self, *other)
    }
}

impl<'a> PartialEq<Text> for &'a str {
    /// The `==` operator between UTF-8 text and a `Text`; decides the same
    /// byte equality as the other operand order.
    fn eq(&self, other: &Text) -> (r: bool) {
        other.eq_str(*self)
    }
}

impl<'a> vstd::std_specs::cmp::PartialEqSpecImpl<Text> for &'a str {
    open spec fn obeys_eq_spec() -> bool {
        true
    }

    open spec fn eq_spec(&self, other: &Text) -> bool {
        text_eq_foreign(*other, *self)
    }
}

impl PartialEq<String> for Text {
    /// The `==` operator between a `Text` and owned UTF-8 text.
    fn eq(&self, other: &String) -> (r: bool) {
        self.eq_string(other)
    }
}

impl vstd::std_specs::cmp::PartialEqSpecImpl<String> for Text {
    open spec fn obeys_eq_spec() -> bool {
        true
    }

    open spec fn eq_spec(&self, other: &String) -> bool {
        text_eq_foreign(*self, *other)
    }
}

impl PartialEq<Text> for String {
    /// The `==` operator between owned UTF-8 text and a `Text`.
    fn eq(&self, other: &Text) -> (r: bool) {
        other.eq_string(self)
    }
}

impl vstd::std_specs::cmp::PartialEqSpecImpl<Text> for String {
    open spec fn obeys_eq_spec() -> bool {
        true
    }

    open spec fn eq_spec(&self, other: &Text) -> bool {
        text_eq_foreign(*other, *self)
    }
}

impl PartialEq<crate::content::PlatformText> for Text {
    /// The `==` operator between a `Text` and platform-native text.
    fn eq(&self, other: &crate::content::PlatformText) -> (r: bool) {
        self.eq_platform(other)
    }
}

impl vstd::std_specs::cmp::PartialEqSpecImpl<crate::content::PlatformText> for Text {
    open spec fn obeys_eq_spec() -> bool {
        true
    }

    open spec fn eq_spec(&self, other: &crate::content::PlatformText) -> bool {
        text_eq_foreign(*self, other)
    }
}

impl PartialEq<Text> for crate::content::PlatformText {
    /// The `==` operator between platform-native text and a `Text`.
    fn eq(&self, other: &Text) -> (r: bool) {
        other.eq_platform(self)
    }
}

impl vstd::std_specs::cmp::PartialEqSpecImpl<Text> for crate::content::PlatformText {
    open spec fn obeys_eq_spec() -> bool {
        true
    }

    open spec fn eq_spec(&self, other: &Text) -> bool {
        text_eq_foreign(*other, self)
    }
}

impl PartialEq<crate::content::NulBytes> for Text {
    /// The `==` operator between a `Text` and a NUL-terminated byte string.
    fn eq(&self, other: &crate::content::NulBytes) -> (r: bool) {
        self.eq_nul(other)
    }
}

impl vstd::std_specs::cmp::PartialEqSpecImpl<crate::content::NulBytes> for Text {
    open spec fn obeys_eq_spec() -> bool {
        true
    }

    open spec fn eq_spec(&self, other: &crate::content::NulBytes) -> bool {
        text_eq_foreign(*self, other)
    }
}

impl PartialEq<Text> for crate::content::NulBytes {
    /// The `==` operator between a NUL-terminated byte string and a `Text`.
    fn eq(&self, other: &Text) -> (r: bool) {
        other.eq_nul(self)
    }
}

impl vstd::std_specs::cmp::PartialEqSpecImpl<Text> for crate::content::NulBytes {
    open spec fn obeys_eq_spec() -> bool {
        true
    }

    open spec fn eq_spec(&self, other: &Text) -> bool {
        text_eq_foreign(*other, self)
    }
}

impl PartialEq<crate::content::PathText> for Text {
    /// The `==` operator between a `Text` and a filesystem path.
    fn eq(&self, other: &crate::content::PathText) -> (r: bool) {
        self.eq_path(other)
    }
}

impl vstd::std_specs::cmp::PartialEqSpecImpl<crate::content::PathText> for Text {
    open spec fn obeys_eq_spec() -> bool {
        true
    }

    open spec fn eq_spec(&self, other: &crate::content::PathText) -> bool {
        text_eq_foreign(*self, other)
    }
}

impl PartialEq<Text> for crate::content::PathText {
    /// The `==` operator between a filesystem path and a `Text`.
    fn eq(&self, other: &Text) -> (r: bool) {
        other.eq_path(self)
    }
}

impl vstd::std_specs::cmp::PartialEqSpecImpl<Text> for crate::content::PathText {
    open spec fn obeys_eq_spec() -> bool {
        true
    }

    open spec fn eq_spec(&self, other: &Text) -> bool {
        text_eq_foreign(*other, self)
    }
}

impl std::ops::Add<Text> for Text {
    type Output = Text;

    /// The `+` operator on two `Text` values: concatenation, consuming
    /// both operands. Verified callers should use `concat`, whose contract
    /// states the result; `+` is a convenience for unverified callers.
    fn add(self, rhs: Text) -> (r: Text) {
        self.concat(rhs)
    }
}

impl vstd::std_specs::ops::AddSpecImpl<Text> for Text {
    open spec fn obeys_add_spec() -> bool {
        false
    }

    open spec fn add_req(self, rhs: Text) -> bool {
        self.wf() && rhs.wf()
    }

    open spec fn add_spec(self, rhs: Text) -> Text {
        choose|t: Text| t@ == self@ + rhs@
    }
}

impl<T: ToContent> std::ops::Add<T> for Text {
    type Output = Text;

    /// The `+` operator between a `Text` and a source value: converts the
    /// value to one `Content` and pushes it as the last segment, consuming
    /// the `Text`. Verified callers should use `concat_value`, whose
    /// contract states the result.
    fn add(self, rhs: T) -> (r: Text) {
        self.concat_value(rhs)
    }
}

impl<T: ToContent> vstd::std_specs::ops::AddSpecImpl<T> for Text {
    open spec fn obeys_add_spec() -> bool {
        false
    }

    open spec fn add_req(self, rhs: T) -> bool {
        self.wf()
    }

    open spec fn add_spec(self, rhs: T) -> Text {
        choose|t: Text| t@ == self@.push(rhs.content_bytes())
    }
}

/// The conversion capability from a source value straight to a one-segment
/// `Text`.
pub trait Textable: ToContent {
    /// Wraps the value as the sole segment of a new `Text`.
    fn to_text(self) -> (t: Text)
        ensures
            t@ =~= seq![self.content_bytes()],
            t.flat() =~= self.content_bytes(),
            t.wf(),
    ;
}

impl<T: ToContent> Textable for T {
    fn to_text(self) -> (t: Text) {
        Text::from_value(self)
    }
}

/// The sum of the byte lengths of a sequence of segments.
pub open spec fn sum_segment_lengths(ss: Seq<Seq<u8>>) -> nat
    decreases ss.len(),
{
    if ss.len() == 0 {
        0
    } else {
        ss[0].len() + sum_segment_lengths(ss.drop_first())
    }
}

/// Length additivity: however a `Text` was built up from segments, its byte
/// length is the sum of the segments' byte lengths.
pub proof fn lemma_length_additive(t: Text)
    ensures
        t.flat().len() == sum_segment_lengths(t@),
{
    lemma_flatten_len_is_sum(t@);
}

/// The length of a flattened sequence of segments is the sum of the
/// segments' lengths.
pub proof fn lemma_flatten_len_is_sum(ss: Seq<Seq<u8>>)
    ensures
        ss.flatten().len() == sum_segment_lengths(ss),
    decreases ss.len(),
{
    if ss.len() != 0 {
        lemma_flatten_len_is_sum(ss.drop_first());
    }
}

/// A flattened sequence of segments is empty exactly when every segment is
/// empty.
pub proof fn lemma_flatten_len_is_zero_iff_all_empty(ss: Seq<Seq<u8>>)
    ensures
        (ss.flatten().len() == 0) <==> (forall|i: int|
            0 <= i < ss.len() ==> ss[i].len() == 0),
    decreases ss.len(),
{
    if ss.len() != 0 {
        lemma_flatten_len_is_zero_iff_all_empty(ss.drop_first());
        assert(ss.flatten() == ss.first() + ss.drop_first().flatten());
        if ss.flatten().len() == 0 {
            assert forall|i: int| 0 <= i < ss.len() implies ss[i].len() == 0 by {
                if i > 0 {
                    assert(ss[i] == ss.drop_first()[i - 1]);
                }
            }
        } else {
            if ss[0].len() == 0 {
                assert(ss.drop_first().flatten().len() != 0);
                let k = choose|i: int|
                    0 <= i < ss.drop_first().len() && ss.drop_first()[i].len() != 0;
                assert(ss[k + 1] == ss.drop_first()[k]);
            }
        }
    }
}

/// Concatenation concatenates bytes: a `Text` whose segments are `t1`'s
/// followed by `t2`'s holds `t1`'s bytes followed by `t2`'s, so lengths
/// add under concatenation.
pub proof fn lemma_concat_flat(t1: Text, t2: Text, r: Text)
    requires
        r@ == t1@ + t2@,
    ensures
        r.flat() == t1.flat() + t2.flat(),
        r.flat().len() == t1.flat().len() + t2.flat().len(),
{
    lemma_flatten_concat(t1@, t2@);
}

/// Concatenation associativity: however a chain of three `Text` values is
/// parenthesised, the concatenated byte stream is the same.
pub proof fn lemma_concat_associative(t1: Text, t2: Text, t3: Text, grouped_left: Text, grouped_right: Text)
    requires
        grouped_left@ == (t1@ + t2@) + t3@,
        grouped_right@ == t1@ + (t2@ + t3@),
    ensures
        grouped_left.flat() == grouped_right.flat(),
{
    assert((t1@ + t2@) + t3@ =~= t1@ + (t2@ + t3@));
}

} // verus!
