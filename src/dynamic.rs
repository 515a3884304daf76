use std::borrow::Cow;
use std::hash::{Hash, Hasher};
use vstd::prelude::*;
use vstd::std_specs::iter::IteratorSpec;
use vstd::utf8::{encode_utf8, encode_utf8_decode_utf8};

verus! {

/// An immutable textual key. It either borrows text that lives for the whole
/// program, with no allocation, or owns a buffer of its own; equality and
/// hashing look at the text alone.
pub struct Key {
    data: Cow<'static, str>,
}

impl View for Key {
    type V = Seq<char>;

    /// The characters of the key, whatever its representation.
    closed spec fn view(&self) -> Seq<char> {
        self.data@
    }
}

impl Key {
    /// The bytes of the key's content in UTF-8.
    pub open spec fn spec_bytes(&self) -> Seq<u8> {
        encode_utf8(self@)
    }

    /// Whether the key borrows its text instead of owning a buffer.
    pub closed spec fn is_borrowed(&self) -> bool {
        self.data is Borrowed
    }

    /// The number of bytes of the key's text.
    pub fn len(&self) -> (r: usize)
        ensures
            r as int == self.spec_bytes().len(),
    {
        self.as_str().as_bytes().len()
    }

    /// Whether the key's text is empty.
    pub fn is_empty(&self) -> (r: bool)
        ensures
            r == (self@.len() == 0),
            r == (self.spec_bytes().len() == 0),
    {
        proof {
            crate::laws::lemma_no_bytes_iff_no_chars(self@);
        }
        self.as_str().is_empty()
    }

    /// A view of the key's text, borrowed from the key.
    pub fn as_str(&self) -> (r: &str)
        ensures
            r@ == self@,
    {
        match &self.data {
            Cow::Borrowed(s) => s,
            Cow::Owned(s) => s.as_str(),
        }
    }
}

impl Key {
    /// Builds a borrowed key over text that lives for the whole program.
    pub fn from_static(data: &'static str) -> (r: Key)
        ensures
            r@ == data@,
            r.is_borrowed(),
    {
        Key { data: Cow::Borrowed(data) }
    }

    /// Builds an owned key that takes over the buffer of `data`.
    pub fn from_owned(data: String) -> (r: Key)
        ensures
            r@ == data@,
            !r.is_borrowed(),
    {
        Key { data: Cow::Owned(data) }
    }

    /// Copies the content of the key into a fresh owned string.
    pub fn into_string(self) -> (r: String)
        ensures
            r@ == self@,
    {
        match self.data {
            Cow::Borrowed(s) => s.to_owned(),
            Cow::Owned(s) => s,
        }
    }

    /// Whether the content of the key is byte for byte the text `other`.
    pub fn eq_str(&self, other: &str) -> (r: bool)
        ensures
            r == (self@ == other@),
    {
        let s = self.as_str();
        let a = s.as_bytes();
        let b = other.as_bytes();
        proof {
            encode_utf8_decode_utf8(self@);
            encode_utf8_decode_utf8(other@);
            assert(a@ == encode_utf8(self@));
            assert(b@ == encode_utf8(other@));
        }
        if a.len() != b.len() {
            return false;
        }
        let mut i: usize = 0;
        while i < a.len()
            invariant
                a@ == encode_utf8(self@),
                b@ == encode_utf8(other@),
                a@.len() == b@.len(),
                i <= a@.len(),
                forall|j: int| 0 <= j < i ==> a@[j] == b@[j],
            decreases a@.len() - i,
        {
            if a[i] != b[i] {
                assert(a@[i as int] != b@[i as int]);
                return false;
            }
            i = i + 1;
        }
        assert(a@ =~= b@);
        true
    }
}

impl Default for Key {
    /// The empty key, borrowed.
    fn default() -> (r: Key)
        ensures
            r@ == Seq::<char>::empty(),
            r.is_borrowed(),
    {
        proof {
            reveal_strlit("");
        }
        Key::from_static("")
    }
}

impl Clone for Key {
    /// Borrowed keys share their text; owned keys copy their buffer.
    fn clone(&self) -> (r: Key)
        ensures
            r@ == self@,
            r.is_borrowed() == self.is_borrowed(),
    {
        match &self.data {
            Cow::Borrowed(s) => Key::from_static(s),
            Cow::Owned(s) => Key::from_owned(s.clone()),
        }
    }
}

impl From<&'static str> for Key {
    fn from(data: &'static str) -> (r: Key)
        ensures
            r@ == data@,
            r.is_borrowed(),
    {
        Key { data: Cow::Borrowed(data) }
    }
}

impl vstd::std_specs::convert::FromSpecImpl<&'static str> for Key {
    open spec fn obeys_from_spec() -> bool {
        true
    }

    closed spec fn from_spec(v: &'static str) -> Key {
        Key { data: Cow::Borrowed(v) }
    }
}

impl From<String> for Key {
    fn from(data: String) -> (r: Key)
        ensures
            r@ == data@,
            !r.is_borrowed(),
    {
        Key { data: Cow::Owned(data) }
    }
}

impl vstd::std_specs::convert::FromSpecImpl<String> for Key {
    open spec fn obeys_from_spec() -> bool {
        true
    }

    closed spec fn from_spec(v: String) -> Key {
        Key { data: Cow::Owned(v) }
    }
}

impl From<Key> for String {
    fn from(s: Key) -> (r: String)
        ensures
            r@ == s@,
    {
        s.into_string()
    }
}

/// Only the characters of the result are pinned down, by the `ensures` above;
/// no spec value stands for the string itself.
impl vstd::std_specs::convert::FromSpecImpl<Key> for String {
    open spec fn obeys_from_spec() -> bool {
        false
    }

    open spec fn from_spec(v: Key) -> String {
        arbitrary()
    }
}

impl AsRef<str> for Key {
    fn as_ref(&self) -> (r: &str)
        ensures
            r@ == self@,
    {
        self.as_str()
    }
}

impl PartialEq<Self> for Key {
    fn eq(&self, other: &Self) -> (r: bool) {
        self.eq_str(other.as_str())
    }
}

impl vstd::std_specs::cmp::PartialEqSpecImpl<Self> for Key {
    open spec fn obeys_eq_spec() -> bool {
        true
    }

    open spec fn eq_spec(&self, other: &Self) -> bool {
        self@ == other@
    }
}

impl Eq for Key {
}

impl PartialEq<str> for Key {
    fn eq(&self, other: &str) -> (r: bool) {
        self.eq_str(other)
    }
}

impl vstd::std_specs::cmp::PartialEqSpecImpl<str> for Key {
    open spec fn obeys_eq_spec() -> bool {
        true
    }

    open spec fn eq_spec(&self, other: &str) -> bool {
        self@ == other@
    }
}

impl<'a> PartialEq<&'a str> for Key {
    fn eq(&self, other: &&'a str) -> (r: bool) {
        self.eq_str(*other)
    }
}

impl<'a> vstd::std_specs::cmp::PartialEqSpecImpl<&'a str> for Key {
    open spec fn obeys_eq_spec() -> bool {
        true
    }

    open spec fn eq_spec(&self, other: &&'a str) -> bool {
        self@ == (*other)@
    }
}

impl PartialEq<String> for Key {
    fn eq(&self, other: &String) -> (r: bool) {
        self.eq_str(other.as_str())
    }
}

impl vstd::std_specs::cmp::PartialEqSpecImpl<String> for Key {
    open spec fn obeys_eq_spec() -> bool {
        true
    }

    open spec fn eq_spec(&self, other: &String) -> bool {
        self@ == other@
    }
}

/// Relies on `String::push`: appends one character at the end.
#[verifier::external_body]
fn push_char(s: &mut String, c: char)
    ensures
        final(s)@ == old(s)@.push(c),
{
    s.push(c)
}

/// Relies on `Vec::from_iter`: calls `next` until it returns `None` and keeps
/// the items in order, so an iterator that obeys vstd's iterator laws yields
/// the items that it has left.
#[verifier::external_body]
fn collect_items<T, I: Iterator<Item = T>>(iter: I) -> (r: Vec<T>)
    ensures
        iter.obeys_prophetic_iter_laws() ==> r@ == iter.remaining(),
{
    Vec::from_iter(iter)
}

/// Relies on `String::push_str`: appends the characters of `part` at the end.
#[verifier::external_body]
fn push_text(s: &mut String, part: &str)
    ensures
        final(s)@ == old(s)@ + part@,
{
    s.push_str(part)
}

/// An item that a key can be assembled from: a character or a piece of text.
pub trait KeyPart: Sized {
    /// The characters that the item contributes.
    spec fn part_view(&self) -> Seq<char>;

    /// Appends the characters of the item to `buf`.
    fn append_to(&self, buf: &mut String)
        ensures
            final(buf)@ == old(buf)@ + self.part_view(),
    ;
}

impl KeyPart for char {
    open spec fn part_view(&self) -> Seq<char> {
        seq![*self]
    }

    fn append_to(&self, buf: &mut String) {
        push_char(buf, *self);
        assert(buf@ =~= old(buf)@ + seq![*self]);
    }
}

impl<'a> KeyPart for &'a char {
    open spec fn part_view(&self) -> Seq<char> {
        seq![**self]
    }

    fn append_to(&self, buf: &mut String) {
        push_char(buf, **self);
        assert(buf@ =~= old(buf)@ + seq![**self]);
    }
}

impl<'a> KeyPart for &'a str {
    open spec fn part_view(&self) -> Seq<char> {
        (*self)@
    }

    fn append_to(&self, buf: &mut String) {
        push_text(buf, *self);
    }
}

impl KeyPart for String {
    open spec fn part_view(&self) -> Seq<char> {
        self@
    }

    fn append_to(&self, buf: &mut String) {
        push_text(buf, self.as_str());
    }
}

impl<'a> KeyPart for &'a String {
    open spec fn part_view(&self) -> Seq<char> {
        (*self)@
    }

    fn append_to(&self, buf: &mut String) {
        push_text(buf, self.as_str());
    }
}

impl<'a> KeyPart for Cow<'a, str> {
    open spec fn part_view(&self) -> Seq<char> {
        self@
    }

    fn append_to(&self, buf: &mut String) {
        match self {
            Cow::Borrowed(s) => push_text(buf, s),
            Cow::Owned(s) => push_text(buf, s.as_str()),
        }
    }
}

/// The characters of `items`, one item after another.
pub open spec fn parts_view<T: KeyPart>(items: Seq<T>) -> Seq<char>
    decreases items.len(),
{
    if items.len() == 0 {
        Seq::empty()
    } else {
        parts_view(items.drop_last()) + items.last().part_view()
    }
}

impl Key {
    /// Builds an owned key from the characters of `items`, concatenated in
    /// order, whatever their number.
    pub fn from_parts<T: KeyPart>(items: &[T]) -> (r: Key)
        ensures
            r@ == parts_view(items@),
            !r.is_borrowed(),
    {
        let mut buf = String::new();
        let mut i: usize = 0;
        while i < items.len()
            invariant
                i <= items@.len(),
                buf@ == parts_view(items@.subrange(0, i as int)),
            decreases items@.len() - i,
        {
            items[i].append_to(&mut buf);
            assert(items@.subrange(0, i + 1).drop_last() =~= items@.subrange(0, i as int));
            i = i + 1;
        }
        assert(items@.subrange(0, items@.len() as int) =~= items@);
        Key::from_owned(buf)
    }

    /// Builds an owned key from the items of `iter`, concatenated in order;
    /// the key is owned even where there are no items or just one.
    pub fn from_iter<T: KeyPart, I: Iterator<Item = T>>(iter: I) -> (r: Key)
        ensures
            iter.obeys_prophetic_iter_laws() ==> r@ == parts_view(iter.remaining()),
            !r.is_borrowed(),
    {
        let items = collect_items(iter);
        Key::from_parts(items.as_slice())
    }
}
/// Relies on `<str as Hash>::hash`: feeds the bytes of `s` to `state`.
#[verifier::external_body]
fn hash_text<H: Hasher>(s: &str, state: &mut H) {
    s.hash(state)
}

impl Hash for Key {
    /// Hashes the text alone, never which representation holds it.
    fn hash<H: Hasher>(&self, state: &mut H) {
        hash_text(self.as_str(), state)
    }
}

/// What `{:?}` makes of a text: quoted, with its special characters escaped.
pub uninterp spec fn debug_text(s: Seq<char>) -> Seq<char>;

/// Relies on the `Debug` impl of `str`, through `format!("{:?}")`; what it
/// writes depends on the characters alone.
#[verifier::external_body]
fn debug_of(s: &str) -> (r: String)
    ensures
        r@ == debug_text(s@),
{
    format!("{:?}", s)
}

impl Key {
    /// The key rendered for display: its text, verbatim.
    pub fn to_display_string(&self) -> (r: String)
        ensures
            r@ == self@,
    {
        self.as_str().to_owned()
    }

    /// The key rendered for debugging, as its plain text would be.
    pub fn to_debug_string(&self) -> (r: String)
        ensures
            r@ == debug_text(self@),
    {
        debug_of(self.as_str())
    }
}

} // verus!
