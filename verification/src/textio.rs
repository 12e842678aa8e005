use vstd::prelude::*;

verus! {

/// What lossy UTF-8 decoding of a byte sequence yields. The decoding is a
/// function of the bytes alone; its full definition (UTF-8 with replacement
/// characters for invalid sequences) is not restated here.
pub uninterp spec fn lossy_of(b: Seq<u8>) -> Seq<char>;

/// Relies on `String::from_utf8_lossy`: the result depends on the bytes
/// alone, and a line feed appears in the decoded text only for a line-feed
/// byte, since `0x0A` never occurs inside a multi-byte UTF-8 sequence and
/// decodes to itself.
#[verifier::external_body]
pub(crate) fn lossy_string(b: &[u8]) -> (r: String)
    ensures
        r@ == lossy_of(b@),
        !b@.contains(10u8) ==> !r@.contains('\n'),
{
    String::from_utf8_lossy(b).into_owned()
}

} // verus!
