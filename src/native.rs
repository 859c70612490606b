use vstd::prelude::*;
use vstd::utf8::{decode_utf8, encode_utf8, valid_utf8};

verus! {

/// The bytes the native side receives for a string: its UTF-8 encoding and a
/// terminating zero byte.
pub open spec fn terminated(s: Seq<char>) -> Seq<u8> {
    encode_utf8(s).push(0u8)
}

/// True when the UTF-8 encoding of `s` holds a zero byte, which the native
/// side would read as the end of the string.
pub open spec fn has_terminator(s: Seq<char>) -> bool {
    encode_utf8(s).contains(0u8)
}

/// A string ready to cross to the native side: the UTF-8 bytes of a text
/// without any zero byte, followed by one zero byte.
pub struct NativeString {
    text: String,
    bytes: Vec<u8>,
}

impl View for NativeString {
    type V = Seq<char>;

    closed spec fn view(&self) -> Seq<char> {
        self.text@
    }
}

impl NativeString {
    #[verifier::type_invariant]
    spec fn inv(self) -> bool {
        &&& !has_terminator(self.text@)
        &&& self.bytes@ == terminated(self.text@)
    }

    /// Copies `s` into a native string; `None` where `s` holds a terminator byte.
    pub fn new(s: &str) -> (r: Option<NativeString>)
        ensures
            r is None <==> has_terminator(s@),
            r matches Some(n) ==> n@ == s@,
    {
        let src = s.as_bytes();
        let mut bytes: Vec<u8> = Vec::new();
        let mut i: usize = 0;
        while i < src.len()
            invariant
                src@ == encode_utf8(s@),
                i <= src@.len(),
                bytes@ == src@.take(i as int),
                !bytes@.contains(0u8),
            decreases src@.len() - i,
        {
            if src[i] == 0 {
                assert(src@[i as int] == 0u8);
                return None;
            }
            bytes.push(src[i]);
            i = i + 1;
            assert(bytes@ =~= src@.take(i as int));
        }
        assert(src@.take(i as int) =~= src@);
        bytes.push(0u8);
        Some(NativeString { text: s.to_owned(), bytes })
    }

    /// The text, without its terminator.
    pub fn as_str(&self) -> (r: &str)
        ensures
            r@ == self@,
            !has_terminator(r@),
    {
        proof {
            use_type_invariant(self);
        }
        self.text.as_str()
    }

    /// The bytes handed to the native side, terminator included.
    pub fn as_bytes_with_nul(&self) -> (r: &[u8])
        ensures
            r@ == terminated(self@),
            r@.last() == 0u8,
            forall|i: int| 0 <= i < r@.len() - 1 ==> r@[i] != 0u8,
    {
        proof {
            use_type_invariant(self);
            assert forall|i: int| 0 <= i < self.bytes@.len() - 1 implies self.bytes@[i] != 0u8 by {
                assert(encode_utf8(self.text@)[i] == self.bytes@[i]);
            }
        }
        self.bytes.as_slice()
    }
}

/// The bytes of a native reply up to, not including, its first zero byte.
pub open spec fn before_terminator(b: Seq<u8>) -> Seq<u8>
    decreases b.len(),
{
    if b.len() == 0 || b[0] == 0 {
        Seq::empty()
    } else {
        seq![b[0]] + before_terminator(b.drop_first())
    }
}

/// Where the first `i` bytes hold no zero and byte `i` is zero or past the
/// end, the bytes before the terminator are the first `i`.
proof fn lemma_before_terminator(b: Seq<u8>, i: int)
    requires
        0 <= i <= b.len(),
        forall|j: int| 0 <= j < i ==> b[j] != 0u8,
        i == b.len() || b[i] == 0u8,
    ensures
        before_terminator(b) == b.take(i),
    decreases i,
{
    if i == 0 {
        assert(b.take(0) =~= Seq::<u8>::empty());
    } else {
        lemma_before_terminator(b.drop_first(), i - 1);
        assert(seq![b[0]] + b.drop_first().take(i - 1) =~= b.take(i));
    }
}

/// Copies the bytes of a native reply that stand before its first zero byte.
pub fn bytes_before_terminator(b: &[u8]) -> (r: Vec<u8>)
    ensures
        r@ == before_terminator(b@),
        !r@.contains(0u8),
{
    let mut out: Vec<u8> = Vec::new();
    let mut i: usize = 0;
    while i < b.len() && b[i] != 0
        invariant
            i <= b@.len(),
            out@ == b@.take(i as int),
            forall|j: int| 0 <= j < i ==> b@[j] != 0u8,
        decreases b@.len() - i,
    {
        out.push(b[i]);
        i = i + 1;
        assert(out@ =~= b@.take(i as int));
    }
    proof {
        lemma_before_terminator(b@, i as int);
    }
    out
}

/// The text that a byte string reads as, each ill-formed UTF-8 sequence
/// replaced by U+FFFD.
pub uninterp spec fn lossy_utf8(b: Seq<u8>) -> Seq<char>;

/// Relies on String::from_utf8_lossy: well-formed UTF-8 is decoded as it is,
/// ill-formed sequences become U+FFFD, and the result depends on the bytes
/// alone. So a NUL character comes only from a zero byte.
#[verifier::external_body]
pub(crate) fn text_of_bytes(b: &[u8]) -> (r: String)
    ensures
        r@ == lossy_utf8(b@),
        valid_utf8(b@) ==> r@ == decode_utf8(b@),
        !b@.contains(0u8) ==> !r@.contains('\0'),
{
    String::from_utf8_lossy(b).into_owned()
}

} // verus!
