//! The `Content` value: a closed tagged union over four owned byte-sequence
//! representations of string-like data, together with the source types that
//! convert into it.
//!
//! Each variant owns its bytes and yields a canonical byte view; the view is
//! the single point of truth for length, slicing and equality, and is not
//! required to be valid UTF-8.

use vstd::prelude::*;
use vstd::slice::slice_to_vec;
use vstd::std_specs::cmp::PartialEqSpec;
use vstd::utf8::{decode_utf8, encode_utf8, encode_utf8_valid_utf8, valid_utf8};

verus! {

/// The characters that lossy UTF-8 decoding yields for a byte sequence:
/// the decoded characters where the bytes are valid UTF-8, with invalid
/// sequences replaced by the replacement character.
pub uninterp spec fn lossy_decode(bytes: Seq<u8>) -> Seq<char>;

/// Relies on String::from_utf8_lossy: the characters depend on the bytes
/// alone, and bytes that are valid UTF-8 decode to exactly their
/// characters, with no replacement.
#[verifier::external_body]
pub(crate) fn decode_lossy(b: &[u8]) -> (r: String)
    ensures
        r@ == lossy_decode(b@),
        valid_utf8(b@) ==> r@ == decode_utf8(b@),
{
    String::from_utf8_lossy(b).into_owned()
}

/// Relies on String::into_bytes: it returns the string's UTF-8 bytes,
/// consuming the string without copying its storage.
#[verifier::external_body]
fn string_into_bytes(s: String) -> (r: Vec<u8>)
    ensures
        r@ == encode_utf8(s@),
{
    s.into_bytes()
}

/// The discriminant of a `Content` value, as a plain spec-level label.
#[derive(Clone, Copy, PartialEq, Eq, Structural, Debug)]
pub enum ContentKind {
    Utf8String,
    PlatformString,
    NulTerminatedByteString,
    FilesystemPath,
}

/// A string-like owned value: exactly one of four byte-sequence
/// representations.
///
/// - `Utf8String` holds guaranteed-valid UTF-8 text.
/// - `PlatformString` holds text in the host's native encoding, which may
///   not be valid UTF-8.
/// - `NulTerminatedByteString` holds a byte buffer destined for
///   NUL-terminated interop; the stored bytes exclude the terminator and
///   contain no interior NUL.
/// - `FilesystemPath` holds the bytes of a filesystem path.
#[derive(Clone, Debug)]
pub enum Content {
    Utf8String(Vec<u8>),
    PlatformString(Vec<u8>),
    NulTerminatedByteString(Vec<u8>),
    FilesystemPath(Vec<u8>),
}

impl View for Content {
    type V = Seq<u8>;

    /// The canonical byte view: the owned bytes, independent of the variant.
    closed spec fn view(&self) -> Seq<u8> {
        match self {
            Content::Utf8String(b) => b@,
            Content::PlatformString(b) => b@,
            Content::NulTerminatedByteString(b) => b@,
            Content::FilesystemPath(b) => b@,
        }
    }
}

impl Content {
    /// Which of the four representations this value holds.
    pub open spec fn kind(&self) -> ContentKind {
        match self {
            Content::Utf8String(_) => ContentKind::Utf8String,
            Content::PlatformString(_) => ContentKind::PlatformString,
            Content::NulTerminatedByteString(_) => ContentKind::NulTerminatedByteString,
            Content::FilesystemPath(_) => ContentKind::FilesystemPath,
        }
    }

    /// Validity of a `Content` value: a UTF-8 variant holds valid UTF-8, and
    /// a NUL-terminated variant holds no interior NUL byte. The other two
    /// variants carry no constraint beyond owning their bytes.
    pub open spec fn wf(&self) -> bool {
        match self {
            Content::Utf8String(_) => valid_utf8(self@),
            Content::NulTerminatedByteString(_) => forall|i: int|
                0 <= i < self@.len() ==> self@[i] != 0,
            _ => true,
        }
    }

    /// The canonical byte view never exceeds the machine's address range.
    pub proof fn lemma_view_len_bound(&self)
        ensures
            self@.len() <= usize::MAX,
    {
        broadcast use vstd::std_specs::vec::axiom_spec_len;

        match self {
            Content::Utf8String(b) => assert(vstd::std_specs::vec::spec_vec_len(b) == b@.len()),
            Content::PlatformString(b) => assert(vstd::std_specs::vec::spec_vec_len(b) == b@.len()),
            Content::NulTerminatedByteString(b) => assert(vstd::std_specs::vec::spec_vec_len(b)
                == b@.len()),
            Content::FilesystemPath(b) => assert(vstd::std_specs::vec::spec_vec_len(b) == b@.len()),
        }
    }

    /// Which of the four representations this value holds, as a runtime
    /// value.
    pub fn kind_value(&self) -> (k: ContentKind)
        ensures
            k == self.kind(),
    {
        match self {
            Content::Utf8String(_) => ContentKind::Utf8String,
            Content::PlatformString(_) => ContentKind::PlatformString,
            Content::NulTerminatedByteString(_) => ContentKind::NulTerminatedByteString,
            Content::FilesystemPath(_) => ContentKind::FilesystemPath,
        }
    }

    /// Byte length of the canonical view.
    pub fn len(&self) -> (n: usize)
        ensures
            n == self@.len(),
    {
        match self {
            Content::Utf8String(b) => b.len(),
            Content::PlatformString(b) => b.len(),
            Content::NulTerminatedByteString(b) => b.len(),
            Content::FilesystemPath(b) => b.len(),
        }
    }

    /// True exactly when the canonical view holds no bytes.
    pub fn is_empty(&self) -> (r: bool)
        ensures
            r == (self@.len() == 0),
    {
        self.len() == 0
    }

    /// The canonical byte view, borrowed without allocation.
    pub fn canonical_view(&self) -> (b: &[u8])
        ensures
            b@ == self@,
    {
        match self {
            Content::Utf8String(b) => b.as_slice(),
            Content::PlatformString(b) => b.as_slice(),
            Content::NulTerminatedByteString(b) => b.as_slice(),
            Content::FilesystemPath(b) => b.as_slice(),
        }
    }

    /// A sub-range of the canonical view, by byte offsets. The range must
    /// lie within the byte length; offsets are byte offsets, never
    /// character offsets, so a slice through the middle of a multi-byte
    /// UTF-8 sequence is not guaranteed valid UTF-8.
    pub fn slice(&self, start: usize, end: usize) -> (b: &[u8])
        requires
            start <= end <= self@.len(),
        ensures
            b@ == self@.subrange(start as int, end as int),
    {
        vstd::slice::slice_subrange(self.canonical_view(), start, end)
    }
}

/// Byte-for-byte equality of two byte slices.
pub fn bytes_eq(a: &[u8], b: &[u8]) -> (r: bool)
    ensures
        r == (a@ == b@),
{
    if a.len() != b.len() {
        assert(a@.len() != b@.len());
        return false;
    }
    let n: usize = a.len();
    let mut i: usize = 0;
    while i < n
        invariant
            n == a@.len() == b@.len(),
            0 <= i <= n,
            forall|j: int| 0 <= j < i ==> a@[j] == b@[j],
        decreases n - i,
    {
        if *vstd::slice::slice_index_get(a, i) != *vstd::slice::slice_index_get(b, i) {
            return false;
        }
        i = i + 1;
    }
    assert(a@ =~= b@);
    true
}

impl Content {
    /// Cross-variant equality: canonical-view byte equality, irrespective of
    /// which two variants are compared.
    pub fn equals(&self, other: &Content) -> (r: bool)
        ensures
            r == (self@ == other@),
    {
        bytes_eq(self.canonical_view(), other.canonical_view())
    }
}

/// Owned text in the host's native encoding, as its raw bytes; it may not
/// be valid UTF-8. Stands for a platform-native string in this library's
/// value model.
#[derive(Clone, Debug)]
pub struct PlatformText {
    bytes: Vec<u8>,
}

impl View for PlatformText {
    type V = Seq<u8>;

    closed spec fn view(&self) -> Seq<u8> {
        self.bytes@
    }
}

impl PlatformText {
    /// Wraps owned bytes as platform-native text.
    pub fn from_vec(bytes: Vec<u8>) -> (p: PlatformText)
        ensures
            p@ == bytes@,
    {
        PlatformText { bytes }
    }

    /// Copies UTF-8 text into platform-native text; on this model the
    /// native bytes of UTF-8 text are its UTF-8 bytes.
    pub fn from_text(s: &str) -> (p: PlatformText)
        ensures
            p@ == encode_utf8(s@),
    {
        PlatformText { bytes: slice_to_vec(s.as_bytes()) }
    }

    /// The bytes, borrowed without allocation.
    pub fn as_byte_slice(&self) -> (b: &[u8])
        ensures
            b@ == self@,
    {
        self.bytes.as_slice()
    }
}

/// The failure of building a NUL-terminated byte string from bytes that
/// hold an interior NUL: `position` is the offset of the first NUL byte.
#[derive(Clone, Copy, PartialEq, Eq, Structural, Debug)]
pub struct NulError {
    pub position: usize,
}

/// An owned byte buffer destined for NUL-terminated interop: it holds no
/// interior NUL byte, and the stored bytes exclude the terminator. Stands
/// for a NUL-terminated byte string in this library's value model.
#[derive(Debug)]
pub struct NulBytes {
    bytes: Vec<u8>,
}

impl View for NulBytes {
    type V = Seq<u8>;

    closed spec fn view(&self) -> Seq<u8> {
        self.bytes@
    }
}

impl NulBytes {
    /// No byte of the buffer is NUL.
    #[verifier::type_invariant]
    pub closed spec fn inv(self) -> bool {
        forall|i: int| 0 <= i < self.bytes@.len() ==> self.bytes@[i] != 0
    }

    /// Builds a NUL-terminated byte string from owned bytes. Succeeds
    /// exactly when the bytes hold no NUL; otherwise reports the offset of
    /// the first NUL byte, and never silently truncates.
    pub fn new(bytes: Vec<u8>) -> (r: Result<NulBytes, NulError>)
        ensures
            match r {
                Ok(n) => {
                    &&& n@ == bytes@
                    &&& forall|i: int| 0 <= i < bytes@.len() ==> bytes@[i] != 0
                },
                Err(e) => {
                    &&& 0 <= e.position < bytes@.len()
                    &&& bytes@[e.position as int] == 0
                    &&& forall|i: int| 0 <= i < e.position ==> bytes@[i] != 0
                },
            },
    {
        let n: usize = bytes.len();
        let mut i: usize = 0;
        while i < n
            invariant
                n == bytes@.len(),
                0 <= i <= n,
                forall|j: int| 0 <= j < i ==> bytes@[j] != 0,
            decreases n - i,
        {
            if bytes[i] == 0 {
                return Err(NulError { position: i });
            }
            i = i + 1;
        }
        Ok(NulBytes { bytes })
    }

    /// The bytes, excluding any terminator, borrowed without allocation.
    pub fn as_byte_slice(&self) -> (b: &[u8])
        ensures
            b@ == self@,
    {
        self.bytes.as_slice()
    }
}

/// An owned filesystem path, as its raw bytes. Stands for a filesystem
/// path in this library's value model; only platform path-syntax rules
/// apply, so any bytes are accepted.
#[derive(Clone, Debug)]
pub struct PathText {
    bytes: Vec<u8>,
}

impl View for PathText {
    type V = Seq<u8>;

    closed spec fn view(&self) -> Seq<u8> {
        self.bytes@
    }
}

impl PathText {
    /// Wraps owned bytes as a path.
    pub fn from_vec(bytes: Vec<u8>) -> (p: PathText)
        ensures
            p@ == bytes@,
    {
        PathText { bytes }
    }

    /// Copies UTF-8 text into a path; the path's bytes are the UTF-8 bytes.
    pub fn from_text(s: &str) -> (p: PathText)
        ensures
            p@ == encode_utf8(s@),
    {
        PathText { bytes: slice_to_vec(s.as_bytes()) }
    }

    /// The path's bytes, borrowed without allocation.
    pub fn as_byte_slice(&self) -> (b: &[u8])
        ensures
            b@ == self@,
    {
        self.bytes.as_slice()
    }
}

/// The conversion capability: maps each supported source type to exactly
/// one `Content` variant. Conversion is total — it never transcodes, only
/// wraps or copies the existing bytes — and a borrowed source is copied,
/// so the result never aliases externally owned storage.
pub trait ToContent: Sized {
    /// The variant the source type converts into; fixed per type.
    spec fn content_kind(self) -> ContentKind;

    /// The canonical bytes the converted value holds.
    spec fn content_bytes(self) -> Seq<u8>;

    /// Converts the source value into its `Content` variant.
    fn to_content(self) -> (c: Content)
        ensures
            c.wf(),
            c@ == self.content_bytes(),
            c.kind() == self.content_kind(),
    ;
}

impl ToContent for String {
    open spec fn content_kind(self) -> ContentKind {
        ContentKind::Utf8String
    }

    open spec fn content_bytes(self) -> Seq<u8> {
        encode_utf8(self@)
    }

    fn to_content(self) -> (c: Content) {
        broadcast use encode_utf8_valid_utf8;

        Content::Utf8String(string_into_bytes(self))
    }
}

impl<'a> ToContent for &'a str {
    open spec fn content_kind(self) -> ContentKind {
        ContentKind::Utf8String
    }

    open spec fn content_bytes(self) -> Seq<u8> {
        encode_utf8(self@)
    }

    fn to_content(self) -> (c: Content) {
        broadcast use encode_utf8_valid_utf8;

        Content::Utf8String(slice_to_vec(self.as_bytes()))
    }
}

impl ToContent for PlatformText {
    open spec fn content_kind(self) -> ContentKind {
        ContentKind::PlatformString
    }

    open spec fn content_bytes(self) -> Seq<u8> {
        self@
    }

    fn to_content(self) -> (c: Content) {
        Content::PlatformString(self.bytes)
    }
}

impl<'a> ToContent for &'a PlatformText {
    open spec fn content_kind(self) -> ContentKind {
        ContentKind::PlatformString
    }

    open spec fn content_bytes(self) -> Seq<u8> {
        self@
    }

    fn to_content(self) -> (c: Content) {
        Content::PlatformString(slice_to_vec(self.bytes.as_slice()))
    }
}

impl ToContent for NulBytes {
    open spec fn content_kind(self) -> ContentKind {
        ContentKind::NulTerminatedByteString
    }

    open spec fn content_bytes(self) -> Seq<u8> {
        self@
    }

    fn to_content(self) -> (c: Content) {
        proof {
            use_type_invariant(&self);
        }
        Content::NulTerminatedByteString(self.bytes)
    }
}

impl<'a> ToContent for &'a NulBytes {
    open spec fn content_kind(self) -> ContentKind {
        ContentKind::NulTerminatedByteString
    }

    open spec fn content_bytes(self) -> Seq<u8> {
        self@
    }

    fn to_content(self) -> (c: Content) {
        proof {
            use_type_invariant(self);
        }
        Content::NulTerminatedByteString(slice_to_vec(self.bytes.as_slice()))
    }
}

impl ToContent for PathText {
    open spec fn content_kind(self) -> ContentKind {
        ContentKind::FilesystemPath
    }

    open spec fn content_bytes(self) -> Seq<u8> {
        self@
    }

    fn to_content(self) -> (c: Content) {
        Content::FilesystemPath(self.bytes)
    }
}

impl<'a> ToContent for &'a PathText {
    open spec fn content_kind(self) -> ContentKind {
        ContentKind::FilesystemPath
    }

    open spec fn content_bytes(self) -> Seq<u8> {
        self@
    }

    fn to_content(self) -> (c: Content) {
        Content::FilesystemPath(slice_to_vec(self.bytes.as_slice()))
    }
}

impl<'a> ToContent for std::borrow::Cow<'a, str> {
    open spec fn content_kind(self) -> ContentKind {
        ContentKind::Utf8String
    }

    open spec fn content_bytes(self) -> Seq<u8> {
        encode_utf8(self@)
    }

    fn to_content(self) -> (c: Content) {
        broadcast use encode_utf8_valid_utf8;

        match self {
            std::borrow::Cow::Borrowed(s) => Content::Utf8String(slice_to_vec(s.as_bytes())),
            std::borrow::Cow::Owned(s) => Content::Utf8String(string_into_bytes(s)),
        }
    }
}

impl<'a> ToContent for std::borrow::Cow<'a, PlatformText> {
    open spec fn content_kind(self) -> ContentKind {
        ContentKind::PlatformString
    }

    open spec fn content_bytes(self) -> Seq<u8> {
        self@
    }

    fn to_content(self) -> (c: Content) {
        match self {
            std::borrow::Cow::Borrowed(p) => p.to_content(),
            std::borrow::Cow::Owned(p) => p.to_content(),
        }
    }
}

impl<'a> ToContent for std::borrow::Cow<'a, PathText> {
    open spec fn content_kind(self) -> ContentKind {
        ContentKind::FilesystemPath
    }

    open spec fn content_bytes(self) -> Seq<u8> {
        self@
    }

    fn to_content(self) -> (c: Content) {
        match self {
            std::borrow::Cow::Borrowed(p) => p.to_content(),
            std::borrow::Cow::Owned(p) => p.to_content(),
        }
    }
}

impl Content {
    /// Builds a `Content` from any supported source value; equivalent to
    /// the source's own conversion.
    pub fn from_value<T: ToContent>(a: T) -> (c: Content)
        ensures
            c.wf(),
            c@ == a.content_bytes(),
            c.kind() == a.content_kind(),
    {
        a.to_content()
    }
}

/// What it means for a `Content` to equal a foreign source value: the
/// canonical bytes equal the bytes that converting the source would give.
/// Every comparison of a `Content` with a source value, in either operand
/// order, decides exactly this.
pub open spec fn eq_foreign<T: ToContent>(c: Content, a: T) -> bool {
    c@ == a.content_bytes()
}

impl Content {
    /// Equality with UTF-8 text: the canonical bytes are the text's UTF-8
    /// bytes. Compares the borrowed bytes directly, without building an
    /// intermediate `Content`.
    pub fn eq_str(&self, other: &str) -> (r: bool)
        ensures
            r == eq_foreign(*self, other),
    {
        bytes_eq(self.canonical_view(), other.as_bytes())
    }

    /// Equality with owned UTF-8 text; decided by the same byte view as
    /// `eq_str`.
    pub fn eq_string(&self, other: &String) -> (r: bool)
        ensures
            r == eq_foreign(*self, *other),
    {
        bytes_eq(self.canonical_view(), other.as_str().as_bytes())
    }

    /// Equality with platform-native text, by its raw bytes.
    pub fn eq_platform(&self, other: &PlatformText) -> (r: bool)
        ensures
            r == eq_foreign(*self, other),
    {
        bytes_eq(self.canonical_view(), other.as_byte_slice())
    }

    /// Equality with a NUL-terminated byte string, by its bytes excluding
    /// the terminator.
    pub fn eq_nul(&self, other: &NulBytes) -> (r: bool)
        ensures
            r == eq_foreign(*self, other),
    {
        bytes_eq(self.canonical_view(), other.as_byte_slice())
    }

    /// Equality with a filesystem path, by the path's bytes.
    pub fn eq_path(&self, other: &PathText) -> (r: bool)
        ensures
            r == eq_foreign(*self, other),
    {
        bytes_eq(self.canonical_view(), other.as_byte_slice())
    }
}

impl Content {
    /// The canonical bytes rendered as owned UTF-8 text for display: valid
    /// UTF-8 decodes exactly; anything else falls back to lossy
    /// substitution, never a failure.
    pub fn display_string(&self) -> (r: String)
        ensures
            r@ == lossy_decode(self@),
            valid_utf8(self@) ==> r@ == decode_utf8(self@),
    {
        decode_lossy(self.canonical_view())
    }
}

impl PartialEq for Content {
    /// The `==` operator on two `Content` values: cross-variant
    /// canonical-view byte equality.
    fn eq(&self, other: &Content) -> (r: bool) {
        self.equals(other)
    }
}

impl vstd::std_specs::cmp::PartialEqSpecImpl for Content {
    open spec fn obeys_eq_spec() -> bool {
        true
    }

    open spec fn eq_spec(&self, other: &Content) -> bool {
        self@ == other@
    }
}

impl<'a> PartialEq<&'a str> for Content {
    /// The `==` operator between a `Content` and UTF-8 text.
    fn eq(&self, other: &&'a str) -> (r: bool) {
        self.eq_str(*other)
    }
}

impl<'a> vstd::std_specs::cmp::PartialEqSpecImpl<&'a str> for Content {
    open spec fn obeys_eq_spec() -> bool {
        true
    }

    open spec fn eq_spec(&self, other: &&'a str) -> bool {
        eq_foreign(*self, *other)
    }
}

impl<'a> PartialEq<Content> for &'a str {
    /// The `==` operator between UTF-8 text and a `Content`; decides the
    /// same byte equality as the other operand order.
    fn eq(&self, other: &Content) -> (r: bool) {
        other.eq_str(*self)
    }
}

impl<'a> vstd::std_specs::cmp::PartialEqSpecImpl<Content> for &'a str {
    open spec fn obeys_eq_spec() -> bool {
        true
    }

    open spec fn eq_spec(&self, other: &Content) -> bool {
        eq_foreign(*other, *self)
    }
}

impl PartialEq<String> for Content {
    /// The `==` operator between a `Content` and owned UTF-8 text.
    fn eq(&self, other: &String) -> (r: bool) {
        self.eq_string(other)
    }
}

impl vstd::std_specs::cmp::PartialEqSpecImpl<String> for Content {
    open spec fn obeys_eq_spec() -> bool {
        true
    }

    open spec fn eq_spec(&self, other: &String) -> bool {
        eq_foreign(*self, *other)
    }
}

impl PartialEq<Content> for String {
    /// The `==` operator between owned UTF-8 text and a `Content`.
    fn eq(&self, other: &Content) -> (r: bool) {
        other.eq_string(self)
    }
}

impl vstd::std_specs::cmp::PartialEqSpecImpl<Content> for String {
    open spec fn obeys_eq_spec() -> bool {
        true
    }

    open spec fn eq_spec(&self, other: &Content) -> bool {
        eq_foreign(*other, *self)
    }
}

impl PartialEq<PlatformText> for Content {
    /// The `==` operator between a `Content` and platform-native text.
    fn eq(&self, other: &PlatformText) -> (r: bool) {
        self.eq_platform(other)
    }
}

impl vstd::std_specs::cmp::PartialEqSpecImpl<PlatformText> for Content {
    open spec fn obeys_eq_spec() -> bool {
        true
    }

    open spec fn eq_spec(&self, other: &PlatformText) -> bool {
        eq_foreign(*self, other)
    }
}

impl PartialEq<Content> for PlatformText {
    /// The `==` operator between platform-native text and a `Content`.
    fn eq(&self, other: &Content) -> (r: bool) {
        other.eq_platform(self)
    }
}

impl vstd::std_specs::cmp::PartialEqSpecImpl<Content> for PlatformText {
    open spec fn obeys_eq_spec() -> bool {
        true
    }

    open spec fn eq_spec(&self, other: &Content) -> bool {
        eq_foreign(*other, self)
    }
}

impl PartialEq<NulBytes> for Content {
    /// The `==` operator between a `Content` and a NUL-terminated byte
    /// string.
    fn eq(&self, other: &NulBytes) -> (r: bool) {
        self.eq_nul(other)
    }
}

impl vstd::std_specs::cmp::PartialEqSpecImpl<NulBytes> for Content {
    open spec fn obeys_eq_spec() -> bool {
        true
    }

    open spec fn eq_spec(&self, other: &NulBytes) -> bool {
        eq_foreign(*self, other)
    }
}

impl PartialEq<Content> for NulBytes {
    /// The `==` operator between a NUL-terminated byte string and a
    /// `Content`.
    fn eq(&self, other: &Content) -> (r: bool) {
        other.eq_nul(self)
    }
}

impl vstd::std_specs::cmp::PartialEqSpecImpl<Content> for NulBytes {
    open spec fn obeys_eq_spec() -> bool {
        true
    }

    open spec fn eq_spec(&self, other: &Content) -> bool {
        eq_foreign(*other, self)
    }
}

impl PartialEq<PathText> for Content {
    /// The `==` operator between a `Content` and a filesystem path.
    fn eq(&self, other: &PathText) -> (r: bool) {
        self.eq_path(other)
    }
}

impl vstd::std_specs::cmp::PartialEqSpecImpl<PathText> for Content {
    open spec fn obeys_eq_spec() -> bool {
        true
    }

    open spec fn eq_spec(&self, other: &PathText) -> bool {
        eq_foreign(*self, other)
    }
}

impl PartialEq<Content> for PathText {
    /// The `==` operator between a filesystem path and a `Content`.
    fn eq(&self, other: &Content) -> (r: bool) {
        other.eq_path(self)
    }
}

impl vstd::std_specs::cmp::PartialEqSpecImpl<Content> for PathText {
    open spec fn obeys_eq_spec() -> bool {
        true
    }

    open spec fn eq_spec(&self, other: &Content) -> bool {
        eq_foreign(*other, self)
    }
}

/// Equality with a source value is reflexive and symmetric: a `Content`
/// built from a source value equals that value, and which operand comes
/// first makes no difference, since both orders are decided by the same
/// byte comparison.
pub proof fn lemma_eq_foreign_reflexive<T: ToContent>(a: T, c: Content)
    requires
        c@ == a.content_bytes(),
    ensures
        eq_foreign(c, a),
        a.content_bytes() == c@,
{
}

/// Cross-variant transitivity: two `Content` values whose canonical bytes
/// are identical are equal, whatever variants hold them; in particular,
/// values built from source values of different types that convert to the
/// same bytes are equal.
pub proof fn lemma_eq_cross_variant(x: Content, y: Content)
    requires
        x@ == y@,
    ensures
        x.eq_spec(&y),
        y.eq_spec(&x),
{
}

/// Equality of `Content` values is an equivalence: reflexive, symmetric,
/// and transitive over the canonical bytes, whatever the variants.
pub proof fn lemma_eq_equivalence(x: Content, y: Content, z: Content)
    ensures
        x@ == x@,
        (x@ == y@) ==> (y@ == x@),
        (x@ == y@ && y@ == z@) ==> (x@ == z@),
{
}

} // verus!
