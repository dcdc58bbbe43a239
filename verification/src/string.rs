//! Strings that may live in the foreign context.
use std::borrow::Cow;
use std::cmp::Ordering;
use vstd::prelude::*;
use vstd::string::StringSliceAdditionalSpecFns;
use vstd::utf8::{decode_utf8, encode_utf8, valid_utf8};
use crate::context::ContextRoot;
use crate::error::NulError;

verus! {

/// The address of a foreign string, with the root of the context that it
/// lives in.
#[derive(Clone, Copy, Debug, PartialEq, Eq, Structural)]
pub struct ContextPointer {
    /// Address of the first byte of the zero-terminated string.
    pub pointer: usize,
    /// The context that owns the bytes.
    pub context: ContextRoot,
}

/// An immutable string that either lies in the foreign context or belongs to
/// the caller.
///
/// A string that came from the foreign library as valid UTF-8 keeps the
/// address it came from, and goes back to the foreign library as that
/// address, without a copy. Any other string has no address: it is copied
/// into a fresh zero-terminated buffer when it crosses the boundary. Which
/// of the two a string is, is settled when it is made and never changes.
///
/// A string that a compiler instance hands out may be good only until the
/// next mutating call on that instance. `Compiler::short_lived_str` binds
/// such a string to a borrow of the instance, so that no mutating call can
/// be made while the string is in use. For a string made by `from_ptr` the
/// caller vouches.
pub struct ContextStr<'a> {
    pointer: Option<ContextPointer>,
    cow: Cow<'a, str>,
}

/// A zero-terminated string ready for the foreign library.
#[derive(Debug, PartialEq, Eq)]
pub enum MaybeOwnedCString {
    /// A fresh buffer: the bytes of the text, then one zero byte.
    Owned(Vec<u8>),
    /// The foreign string itself.
    Borrowed(ContextPointer),
}

/// What a `MaybeOwnedCString` holds.
pub enum CStringView {
    Owned(Seq<u8>),
    Borrowed(ContextPointer),
}

impl View for MaybeOwnedCString {
    type V = CStringView;

    open spec fn view(&self) -> CStringView {
        match self {
            MaybeOwnedCString::Owned(bytes) => CStringView::Owned(bytes@),
            MaybeOwnedCString::Borrowed(p) => CStringView::Borrowed(*p),
        }
    }
}

impl CStringView {
    /// The address to hand to the foreign library, where it is known here:
    /// that of a foreign string. A fresh buffer has the address that the
    /// allocator gave it.
    pub open spec fn address(self) -> Option<usize> {
        match self {
            CStringView::Owned(_) => None,
            CStringView::Borrowed(p) => Some(p.pointer),
        }
    }
}

impl MaybeOwnedCString {
    /// The address of the foreign string, or `None` for a fresh buffer,
    /// whose address is that of the bytes that `as_bytes_with_nul` returns.
    pub fn as_ptr(&self) -> (p: Option<usize>)
        ensures
            p == self@.address(),
    {
        match self {
            MaybeOwnedCString::Owned(_) => None,
            MaybeOwnedCString::Borrowed(ptr) => Some(ptr.pointer),
        }
    }

    /// The bytes of a fresh buffer, the closing zero included, or `None` for
    /// a foreign string.
    pub fn as_bytes_with_nul(&self) -> (b: Option<&[u8]>)
        ensures
            match self@ {
                CStringView::Owned(bytes) => b is Some && b->Some_0@ == bytes,
                CStringView::Borrowed(_) => b is None,
            },
    {
        match self {
            MaybeOwnedCString::Owned(bytes) => Some(bytes.as_slice()),
            MaybeOwnedCString::Borrowed(_) => None,
        }
    }
}

/// The text that `String::from_utf8_lossy` makes of `bytes`: the decoded
/// text, with U+FFFD in place of each ill-formed part.
pub uninterp spec fn utf8_lossy(bytes: Seq<u8>) -> Seq<char>;

/// No byte of `bytes` is zero.
pub open spec fn nul_free(bytes: Seq<u8>) -> bool {
    forall|i: int| 0 <= i < bytes.len() ==> bytes[i] != 0
}

/// `i` is the index of the first zero byte of `bytes`.
pub open spec fn is_first_nul(bytes: Seq<u8>, i: int) -> bool {
    &&& 0 <= i < bytes.len()
    &&& bytes[i] == 0
    &&& forall|j: int| 0 <= j < i ==> bytes[j] != 0
}

/// The index of the first zero byte of `bytes`, if there is one.
pub open spec fn first_nul(bytes: Seq<u8>) -> int {
    choose|i: int| is_first_nul(bytes, i)
}

/// `String::from_utf8_lossy`. Valid UTF-8 comes back borrowed, as the text
/// that the bytes encode; anything else comes back owned, as the lossy text.
#[verifier::external_body]
fn decode_lossy<'a>(bytes: &'a [u8]) -> (text: Cow<'a, str>)
    ensures
        text@ == utf8_lossy(bytes@),
        valid_utf8(bytes@) ==> text is Borrowed && text@ == decode_utf8(bytes@),
        !valid_utf8(bytes@) ==> text is Owned,
{
    String::from_utf8_lossy(bytes)
}

impl<'a> View for ContextStr<'a> {
    type V = Seq<char>;

    closed spec fn view(&self) -> Seq<char> {
        self.cow@
    }
}

impl<'a> ContextStr<'a> {
    /// A string that keeps a foreign address holds no zero byte: the
    /// foreign string ends at its first zero byte, so the text is all of it.
    #[verifier::type_invariant]
    spec fn whole(self) -> bool {
        self.pointer is Some ==> nul_free(encode_utf8(self.cow@))
    }

    /// The foreign address that the string keeps, if it keeps one.
    pub closed spec fn pointer(&self) -> Option<ContextPointer> {
        self.pointer
    }

    /// The UTF-8 encoding of the text.
    pub open spec fn bytes(&self) -> Seq<u8> {
        encode_utf8(self@)
    }

    /// What wrapping the foreign string at address `ptr`, with the bytes
    /// `bytes` before its closing zero, in the context of `context` gives:
    /// for valid UTF-8 the decoded text with the address kept, else the
    /// lossy text with no address.
    pub open spec fn wraps(&self, ptr: usize, bytes: Seq<u8>, context: ContextRoot) -> bool {
        if valid_utf8(bytes) {
            &&& self.pointer() == Some(ContextPointer { pointer: ptr, context })
            &&& self@ == decode_utf8(bytes)
        } else {
            &&& self.pointer() is None
            &&& self@ == utf8_lossy(bytes)
        }
    }

    /// What wrapping a text of the caller's gives: that text, with no
    /// address.
    pub open spec fn holds(&self, text: Seq<char>) -> bool {
        &&& self.pointer() is None
        &&& self@ == text
    }

    /// What `to_cstring_ptr` returns. A string with an address goes back as
    /// that address. Any other goes as a copy of its bytes with a zero byte
    /// added, unless a zero byte is among them: then it cannot go, and the
    /// error names the first one.
    pub open spec fn materialized(&self) -> Result<CStringView, NulError> {
        match self.pointer() {
            Some(p) => Ok(CStringView::Borrowed(p)),
            None => if nul_free(self.bytes()) {
                Ok(CStringView::Owned(self.bytes().push(0u8)))
            } else {
                Err(NulError { nul_position: first_nul(self.bytes()) as usize })
            },
        }
    }

    /// Wraps a string of the foreign library. `ptr` is its address, `bytes`
    /// are its bytes up to the closing zero, none of them zero, and
    /// `context` is the root of the context that owns them.
    ///
    /// The caller guarantees that the bytes stay where they are, unchanged,
    /// for as long as `'a` lasts, and that they belong to `context`.
    pub fn from_ptr(ptr: usize, bytes: &'a [u8], context: ContextRoot) -> (s: ContextStr<'a>)
        requires
            ptr != 0,
            nul_free(bytes@),
        ensures
            s.wraps(ptr, bytes@, context),
            valid_utf8(bytes@) ==> s.bytes() == bytes@,
            s.pointer() is Some ==> nul_free(s.bytes()),
    {
        let maybe = decode_lossy(bytes);
        proof {
            if valid_utf8(bytes@) {
                vstd::utf8::decode_utf8_encode_utf8(bytes@);
            }
        }
        Self::from_decoded(ptr, maybe, context)
    }

    /// Wraps what decoding made of the foreign string at address `ptr`. A
    /// text that decoding could borrow is the foreign string as it stands,
    /// up to its closing zero, and keeps the address; a text that decoding
    /// had to write anew is a copy, and keeps none.
    pub fn from_decoded(ptr: usize, text: Cow<'a, str>, context: ContextRoot) -> (s: ContextStr<
        'a,
    >)
        requires
            ptr != 0,
            text is Borrowed ==> nul_free(encode_utf8(text@)),
        ensures
            s@ == text@,
            s.pointer() == if text is Borrowed {
                Some(ContextPointer { pointer: ptr, context })
            } else {
                None
            },
            s.pointer() is Some ==> nul_free(s.bytes()),
    {
        let lossless = match &text {
            Cow::Borrowed(_) => true,
            Cow::Owned(_) => false,
        };
        if lossless {
            ContextStr { pointer: Some(ContextPointer { pointer: ptr, context }), cow: text }
        } else {
            ContextStr { pointer: None, cow: text }
        }
    }

    /// Wraps a borrowed text of the caller's. It is copied when it goes to
    /// the foreign library.
    pub fn from_str(str: &'a str) -> (s: ContextStr<'a>)
        ensures
            s.holds(str@),
    {
        ContextStr { pointer: None, cow: Cow::Borrowed(str) }
    }

    /// Wraps an owned text of the caller's. It is copied when it goes to the
    /// foreign library.
    pub fn from_string(str: String) -> (s: ContextStr<'a>)
        ensures
            s.holds(str@),
    {
        ContextStr { pointer: None, cow: Cow::Owned(str) }
    }

    /// The text.
    pub fn as_str(&self) -> (s: &str)
        ensures
            s@ == self@,
    {
        match &self.cow {
            Cow::Borrowed(s) => s,
            Cow::Owned(s) => s.as_str(),
        }
    }

    /// Whether the string keeps a foreign address. One that does holds no
    /// zero byte.
    pub fn is_pointer_backed(&self) -> (r: bool)
        ensures
            r == self.pointer() is Some,
            r ==> nul_free(self.bytes()),
    {
        proof {
            use_type_invariant(self);
        }
        self.pointer.is_some()
    }

    /// The string as a zero-terminated string for the foreign library: the
    /// foreign string itself where this one came from there, else a fresh
    /// copy. Fails for a text with an embedded zero byte.
    pub fn to_cstring_ptr(&self) -> (r: Result<MaybeOwnedCString, NulError>)
        ensures
            match r {
                Ok(c) => self.materialized() == Ok::<CStringView, NulError>(c@),
                Err(e) => self.materialized() == Err::<CStringView, NulError>(e),
            },
            r is Ok <==> nul_free(self.bytes()),
    {
        proof {
            use_type_invariant(self);
        }
        if let Some(ptr) = &self.pointer {
            return Ok(MaybeOwnedCString::Borrowed(*ptr));
        }
        let bytes = self.as_str().as_bytes();
        let mut buffer: Vec<u8> = Vec::new();
        let mut i: usize = 0;
        while i < bytes.len()
            invariant
                self.pointer() is None,
                bytes@ == self.bytes(),
                0 <= i <= bytes@.len(),
                buffer@ == bytes@.subrange(0, i as int),
                forall|j: int| 0 <= j < i ==> bytes@[j] != 0,
            decreases bytes@.len() - i,
        {
            if bytes[i] == 0 {
                proof {
                    first_nul_is(bytes@, i as int);
                }
                return Err(NulError { nul_position: i });
            }
            buffer.push(bytes[i]);
            i = i + 1;
            assert(buffer@ == bytes@.subrange(0, i as int));
        }
        assert(buffer@ == bytes@);
        buffer.push(0);
        Ok(MaybeOwnedCString::Owned(buffer))
    }
}

/// The first zero byte is where the search finds it.
pub proof fn first_nul_is(bytes: Seq<u8>, i: int)
    requires
        is_first_nul(bytes, i),
    ensures
        first_nul(bytes) == i,
        !nul_free(bytes),
{
    let k = first_nul(bytes);
    assert(is_first_nul(bytes, k));
    if k < i {
        assert(bytes[k] != 0);
    }
    if i < k {
        assert(bytes[i] != 0);
    }
}

/// How one text stands to another.
#[derive(Clone, Copy, Debug, PartialEq, Eq, Structural)]
pub enum TextOrder {
    Less,
    Equal,
    Greater,
}

/// The order of two byte strings: by the first byte in which they differ,
/// and a string before every longer string that it begins.
pub open spec fn bytes_order(a: Seq<u8>, b: Seq<u8>) -> TextOrder
    decreases a.len(),
{
    if a.len() == 0 {
        if b.len() == 0 {
            TextOrder::Equal
        } else {
            TextOrder::Less
        }
    } else if b.len() == 0 {
        TextOrder::Greater
    } else if a[0] < b[0] {
        TextOrder::Less
    } else if a[0] > b[0] {
        TextOrder::Greater
    } else {
        bytes_order(a.drop_first(), b.drop_first())
    }
}

/// The order of two byte strings.
fn order_bytes(a: &[u8], b: &[u8]) -> (r: TextOrder)
    ensures
        r == bytes_order(a@, b@),
{
    let mut i: usize = 0;
    assert(a@.subrange(0, a@.len() as int) == a@);
    assert(b@.subrange(0, b@.len() as int) == b@);
    while i < a.len() && i < b.len()
        invariant
            0 <= i <= a@.len(),
            i <= b@.len(),
            bytes_order(a@, b@) == bytes_order(
                a@.subrange(i as int, a@.len() as int),
                b@.subrange(i as int, b@.len() as int),
            ),
        decreases a@.len() - i,
    {
        let ghost rest_a = a@.subrange(i as int, a@.len() as int);
        let ghost rest_b = b@.subrange(i as int, b@.len() as int);
        assert(rest_a[0] == a@[i as int] && rest_b[0] == b@[i as int]);
        if a[i] < b[i] {
            return TextOrder::Less;
        }
        if a[i] > b[i] {
            return TextOrder::Greater;
        }
        assert(rest_a.drop_first() == a@.subrange(i + 1, a@.len() as int));
        assert(rest_b.drop_first() == b@.subrange(i + 1, b@.len() as int));
        i = i + 1;
    }
    assert(a@.subrange(i as int, a@.len() as int).len() == a@.len() - i);
    assert(b@.subrange(i as int, b@.len() as int).len() == b@.len() - i);
    if a.len() == b.len() {
        TextOrder::Equal
    } else if i == a.len() {
        TextOrder::Less
    } else {
        TextOrder::Greater
    }
}

/// Two byte strings are in the order `Equal` exactly when they are the
/// same.
pub proof fn equal_order_is_equality(a: Seq<u8>, b: Seq<u8>)
    ensures
        bytes_order(a, b) == TextOrder::Equal <==> a == b,
    decreases a.len(),
{
    if a.len() > 0 && b.len() > 0 && a[0] == b[0] {
        equal_order_is_equality(a.drop_first(), b.drop_first());
        if a.drop_first() == b.drop_first() {
            assert(a =~= seq![a[0]] + a.drop_first());
            assert(b =~= seq![b[0]] + b.drop_first());
        }
    } else if a.len() == 0 && b.len() == 0 {
        assert(a =~= b);
    }
}

/// Turning two byte strings round turns their order round.
pub proof fn order_turns_round(a: Seq<u8>, b: Seq<u8>)
    ensures
        bytes_order(a, b) == TextOrder::Less <==> bytes_order(b, a) == TextOrder::Greater,
        bytes_order(a, b) == TextOrder::Equal <==> bytes_order(b, a) == TextOrder::Equal,
    decreases a.len(),
{
    if a.len() > 0 && b.len() > 0 && a[0] == b[0] {
        order_turns_round(a.drop_first(), b.drop_first());
    }
}

/// Whether two texts are the same, found by comparing their bytes.
fn text_eq(a: &str, b: &str) -> (r: bool)
    ensures
        r == (a@ == b@),
{
    let x = a.as_bytes();
    let y = b.as_bytes();
    proof {
        vstd::utf8::encode_utf8_decode_utf8(a@);
        vstd::utf8::encode_utf8_decode_utf8(b@);
    }
    if x.len() != y.len() {
        return false;
    }
    let mut i: usize = 0;
    while i < x.len()
        invariant
            x@.len() == y@.len(),
            0 <= i <= x@.len(),
            x@.subrange(0, i as int) == y@.subrange(0, i as int),
            x@ == encode_utf8(a@),
            y@ == encode_utf8(b@),
        decreases x@.len() - i,
    {
        if x[i] != y[i] {
            return false;
        }
        i = i + 1;
        assert(x@.subrange(0, i as int) == x@.subrange(0, i - 1).push(x@[i - 1]));
        assert(y@.subrange(0, i as int) == y@.subrange(0, i - 1).push(y@[i - 1]));
    }
    assert(x@ == x@.subrange(0, i as int));
    assert(y@ == y@.subrange(0, i as int));
    true
}

impl<'a> ContextStr<'a> {
    /// The text. The same as `as_str`.
    pub fn as_ref(&self) -> (s: &str)
        ensures
            s@ == self@,
    {
        self.as_str()
    }

    /// A copy of the text.
    pub fn to_string(&self) -> (s: String)
        ensures
            s@ == self@,
    {
        self.as_str().to_owned()
    }

    /// Whether the text is `other`.
    pub fn eq_str(&self, other: &str) -> (r: bool)
        ensures
            r == (self@ == other@),
    {
        text_eq(self.as_str(), other)
    }

    /// Whether the text is `other`.
    pub fn eq_string(&self, other: &String) -> (r: bool)
        ensures
            r == (self@ == other@),
    {
        text_eq(self.as_str(), other.as_str())
    }
}

impl<'a> crate::sealed::Sealed for ContextStr<'a> {

}

impl<'a> crate::ToStatic for ContextStr<'a> {
    type Static = ContextStr<'static>;

    /// A string with the same text, in memory of its own. It keeps no
    /// foreign address, so it needs no context to stay alive.
    fn to_static(&self) -> (r: ContextStr<'static>)
        ensures
            r.holds(self@),
    {
        ContextStr::from_string(self.to_string())
    }
}

impl<'a> Clone for ContextStr<'a> {
    /// A string with the same text and the same address, if any.
    fn clone(&self) -> (r: Self)
        ensures
            r@ == self@,
            r.pointer() == self.pointer(),
    {
        proof {
            use_type_invariant(self);
        }
        let cow = match &self.cow {
            Cow::Borrowed(s) => Cow::Borrowed(*s),
            Cow::Owned(s) => Cow::Owned(s.clone()),
        };
        ContextStr { pointer: self.pointer, cow }
    }
}

impl<'a> PartialEq for ContextStr<'a> {
    /// Two strings are equal when their texts are, wherever each of them
    /// lives.
    fn eq(&self, other: &Self) -> (r: bool) {
        text_eq(self.as_str(), other.as_str())
    }
}

impl<'a> vstd::std_specs::cmp::PartialEqSpecImpl for ContextStr<'a> {
    open spec fn obeys_eq_spec() -> bool {
        true
    }

    open spec fn eq_spec(&self, other: &Self) -> bool {
        self@ == other@
    }
}

impl<'a> Eq for ContextStr<'a> {

}

impl<'a> PartialOrd for ContextStr<'a> {
    /// Strings are ordered as their texts are: byte by byte, a text before
    /// every longer text that it begins.
    fn partial_cmp(&self, other: &Self) -> (r: Option<Ordering>) {
        match order_bytes(self.as_str().as_bytes(), other.as_str().as_bytes()) {
            TextOrder::Less => Some(Ordering::Less),
            TextOrder::Equal => Some(Ordering::Equal),
            TextOrder::Greater => Some(Ordering::Greater),
        }
    }
}

impl<'a> vstd::std_specs::cmp::PartialOrdSpecImpl for ContextStr<'a> {
    open spec fn obeys_partial_cmp_spec() -> bool {
        true
    }

    open spec fn partial_cmp_spec(&self, other: &Self) -> Option<Ordering> {
        match bytes_order(self.bytes(), other.bytes()) {
            TextOrder::Less => Some(Ordering::Less),
            TextOrder::Equal => Some(Ordering::Equal),
            TextOrder::Greater => Some(Ordering::Greater),
        }
    }
}

/// Equality and order of two strings go by their texts alone, whether the
/// strings keep a foreign address or not, and they agree: two strings are
/// equal exactly when neither comes before the other.
pub proof fn order_agrees_with_equality<'a, 'b>(s: ContextStr<'a>, t: ContextStr<'b>)
    ensures
        s@ == t@ <==> bytes_order(s.bytes(), t.bytes()) == TextOrder::Equal,
{
    equal_order_is_equality(s.bytes(), t.bytes());
    vstd::utf8::encode_utf8_decode_utf8(s@);
    vstd::utf8::encode_utf8_decode_utf8(t@);
}

/// A string that came from the foreign library as valid UTF-8 goes back as
/// the very address it came from, with nothing copied.
pub proof fn foreign_string_returns_its_pointer<'a>(
    s: ContextStr<'a>,
    ptr: usize,
    bytes: Seq<u8>,
    context: ContextRoot,
)
    requires
        s.wraps(ptr, bytes, context),
        valid_utf8(bytes),
    ensures
        s.materialized() == Ok::<CStringView, NulError>(
            CStringView::Borrowed(ContextPointer { pointer: ptr, context }),
        ),
        s.materialized()->Ok_0.address() == Some(ptr),
{
}

/// Among bytes that are not free of zero bytes there is a first zero byte.
pub proof fn first_nul_exists(bytes: Seq<u8>)
    requires
        !nul_free(bytes),
    ensures
        is_first_nul(bytes, first_nul(bytes)),
{
    let k = choose|k: int| 0 <= k < bytes.len() && bytes[k] == 0;
    least_nul_up_to(bytes, k);
}

/// If a zero byte lies at `k`, a first zero byte lies at or before `k`.
proof fn least_nul_up_to(bytes: Seq<u8>, k: int)
    requires
        0 <= k < bytes.len(),
        bytes[k] == 0,
    ensures
        exists|i: int| is_first_nul(bytes, i),
    decreases k,
{
    if exists|j: int| 0 <= j < k && bytes[j] == 0 {
        let j = choose|j: int| 0 <= j < k && bytes[j] == 0;
        least_nul_up_to(bytes, j);
    } else {
        assert(is_first_nul(bytes, k));
    }
}

/// The bytes that encode one character hold a zero byte exactly when the
/// character is U+0000.
proof fn nul_byte_of_scalar(scalar: u32)
    ensures
        nul_free(vstd::utf8::encode_scalar(scalar)) <==> scalar != 0,
{
    let bytes = vstd::utf8::encode_scalar(scalar);
    assert(scalar <= 0x7F ==> ((scalar & 0x7F) as u8 == 0 <==> scalar == 0)) by (bit_vector);
    assert(0xC0u8 | ((scalar >> 6) & 0x1F) as u8 != 0) by (bit_vector);
    assert(0xE0u8 | ((scalar >> 12) & 0x0F) as u8 != 0) by (bit_vector);
    assert(0xF0u8 | ((scalar >> 18) & 0x7) as u8 != 0) by (bit_vector);
    assert(0x80u8 | (scalar & 0x3F) as u8 != 0) by (bit_vector);
    assert(0x80u8 | ((scalar >> 6) & 0x3F) as u8 != 0) by (bit_vector);
    assert(0x80u8 | ((scalar >> 12) & 0x3F) as u8 != 0) by (bit_vector);
    if vstd::utf8::has_width_1_encoding(scalar) {
        assert(bytes[0] == (scalar & 0x7F) as u8);
        assert(bytes.len() == 1);
    } else {
        assert(scalar != 0);
        assert forall|i: int| 0 <= i < bytes.len() implies bytes[i] != 0 by {}
    }
}

/// A text holds a zero byte exactly when it holds the character U+0000: no
/// other character has a zero byte in its encoding.
pub proof fn nul_bytes_are_nul_characters(text: Seq<char>)
    ensures
        nul_free(encode_utf8(text)) <==> !text.contains('\0'),
    decreases text.len(),
{
    if text.len() == 0 {
        assert(!text.contains('\0'));
    } else {
        let head = vstd::utf8::encode_scalar(text[0] as u32);
        let tail = encode_utf8(text.drop_first());
        let rest = text.drop_first();
        nul_byte_of_scalar(text[0] as u32);
        nul_bytes_are_nul_characters(rest);
        vstd::utf8::char_u32_cast(text[0], text[0] as u32);
        vstd::utf8::char_u32_cast('\0', 0u32);
        assert((text[0] as u32 == 0) <==> text[0] == '\0');
        assert(encode_utf8(text) == head + tail);
        if nul_free(head + tail) {
            assert forall|i: int| 0 <= i < head.len() implies head[i] != 0 by {
                assert((head + tail)[i] == head[i]);
            }
            assert forall|i: int| 0 <= i < tail.len() implies tail[i] != 0 by {
                assert((head + tail)[i + head.len()] == tail[i]);
            }
            assert(text[0] != '\0');
            if text.contains('\0') {
                let k = choose|k: int| 0 <= k < text.len() && text[k] == '\0';
                assert(rest[k - 1] == text[k]);
                assert(rest.contains('\0'));
            }
        } else {
            if nul_free(head) && nul_free(tail) {
                assert forall|i: int| 0 <= i < (head + tail).len() implies (head + tail)[i]
                    != 0 by {
                    if i < head.len() {
                        assert((head + tail)[i] == head[i]);
                    } else {
                        assert((head + tail)[i] == tail[i - head.len()]);
                    }
                }
            }
            if !nul_free(head) {
                assert(text[0] == '\0');
                assert(text.contains('\0'));
            } else {
                let k = choose|k: int| 0 <= k < rest.len() && rest[k] == '\0';
                assert(text[k + 1] == rest[k]);
                assert(text.contains('\0'));
            }
        }
    }
}

/// A text of the caller's with a zero byte in it never crosses the
/// boundary: it is refused, and the error points at the first zero byte.
/// Nothing is cut off in silence.
pub proof fn embedded_nul_is_refused<'a>(s: ContextStr<'a>, text: Seq<char>)
    requires
        s.holds(text),
        !nul_free(encode_utf8(text)),
    ensures
        s.materialized() is Err,
        s.bytes().len() <= usize::MAX ==> is_first_nul(
            s.bytes(),
            s.materialized()->Err_0.nul_position as int,
        ),
{
    first_nul_exists(s.bytes());
}

/// A text of the caller's that holds the character U+0000 never crosses
/// the boundary.
pub proof fn nul_character_is_refused<'a>(s: ContextStr<'a>, text: Seq<char>)
    requires
        s.holds(text),
        text.contains('\0'),
    ensures
        s.materialized() is Err,
{
    nul_bytes_are_nul_characters(text);
}

/// A text of the caller's without a zero byte crosses the boundary as a
/// copy of its bytes, closed by a zero byte.
pub proof fn nul_free_text_is_copied<'a>(s: ContextStr<'a>, text: Seq<char>)
    requires
        s.holds(text),
        nul_free(encode_utf8(text)),
    ensures
        s.materialized() == Ok::<CStringView, NulError>(
            CStringView::Owned(encode_utf8(text).push(0u8)),
        ),
        s.materialized()->Ok_0.address() is None,
{
}

} // verus!
