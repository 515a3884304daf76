use crate::dynamic::Key;
use vstd::prelude::*;
use vstd::std_specs::cmp::PartialEqSpec;
use vstd::string::StringSliceAdditionalSpecFns;
use vstd::utf8::{encode_scalar, encode_utf8};

verus! {

/// A text is encoded to no bytes exactly when it has no characters.
pub proof fn lemma_no_bytes_iff_no_chars(s: Seq<char>)
    ensures
        (encode_utf8(s).len() == 0) == (s.len() == 0),
{
    if s.len() > 0 {
        assert(encode_scalar(s[0] as u32).len() >= 1);
    }
}

/// A key built from a text equals that text, compared as an owned string, as
/// a slice, or as a reference to a slice.
pub proof fn lemma_from_text_equals_text(s: String, t: &str, k: Key)
    requires
        k@ == s@,
        t@ == s@,
    ensures
        k.eq_spec(&s),
        k.eq_spec(t),
        k.eq_spec(&t),
{
}

/// The length of a key is the byte length of its text, and a key is empty
/// exactly when its length is zero.
pub proof fn lemma_len_and_is_empty(k: Key, t: &str)
    requires
        t@ == k@,
    ensures
        k.spec_bytes().len() == t.spec_bytes().len(),
        (k@.len() == 0) == (k.spec_bytes().len() == 0),
{
    lemma_no_bytes_iff_no_chars(k@);
}

/// Equal keys hand the same bytes to a hasher, whatever their representation.
pub proof fn lemma_equal_keys_hash_same_bytes(k1: Key, k2: Key)
    requires
        k1.eq_spec(&k2),
    ensures
        k1.spec_bytes() == k2.spec_bytes(),
{
}

/// Keys with the same text are equal, borrowed or owned alike.
pub proof fn lemma_representation_irrelevant(k1: Key, k2: Key)
    requires
        k1@ == k2@,
    ensures
        k1.eq_spec(&k2),
        k2.eq_spec(&k1),
{
}

/// Turning a key into an owned string and that string back into a key gives a
/// key equal to the first.
pub proof fn lemma_string_round_trip(k: Key, s: String, back: Key)
    requires
        s@ == k@,
        back@ == s@,
    ensures
        back.eq_spec(&k),
{
}

} // verus!
