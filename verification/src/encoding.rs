//! Base64, in which images stand inside other text.
use vstd::prelude::*;

verus! {

/// `base64::DecodeError`, carried along as it is.
#[verifier::external_type_specification]
#[verifier::external_body]
pub struct ExDecodeError(base64::DecodeError);

/// The bytes that standard base64 text encodes, where it is such text.
pub uninterp spec fn base64_decoded(text: Seq<u8>) -> Option<Seq<u8>>;

/// `base64::engine::general_purpose::STANDARD.decode`: a function of the text
/// alone.
#[verifier::external_body]
pub(crate) fn decode_base64(text: &[u8]) -> (r: Result<Vec<u8>, base64::DecodeError>)
    ensures
        match r {
            Ok(bytes) => base64_decoded(text@) == Some(bytes@),
            Err(_) => base64_decoded(text@) is None,
        },
{
    base64::Engine::decode(&base64::engine::general_purpose::STANDARD, text)
}

/// Whether the byte is white space inside base64 text.
pub open spec fn is_padding(b: u8) -> bool {
    b == 0x20 || b == 0xa || b == 0xd || b == 0x9
}

/// `raw` without white space.
pub open spec fn cleaned(raw: Seq<u8>) -> Seq<u8>
    decreases raw.len(),
{
    if raw.len() == 0 {
        raw
    } else if is_padding(raw.last()) {
        cleaned(raw.drop_last())
    } else {
        cleaned(raw.drop_last()).push(raw.last())
    }
}

/// Takes the white space out of base64 text.
pub fn clean_base64(raw: &Vec<u8>) -> (r: Vec<u8>)
    ensures
        r@ == cleaned(raw@),
{
    let mut r: Vec<u8> = Vec::new();
    let mut i: usize = 0;
    assert(raw@.take(0) =~= Seq::<u8>::empty());
    while i < raw.len()
        invariant
            i <= raw@.len(),
            r@ == cleaned(raw@.take(i as int)),
        decreases raw@.len() - i,
    {
        assert(raw@.take(i + 1).drop_last() =~= raw@.take(i as int));
        assert(raw@.take(i + 1).last() == raw@[i as int]);
        let b: u8 = raw[i];
        if !(b == 0x20 || b == 0xa || b == 0xd || b == 0x9) {
            r.push(b);
        }
        i = i + 1;
    }
    assert(raw@.take(raw@.len() as int) =~= raw@);
    r
}

/// The image that the content of a `Contents` element holds.
pub fn decode_image_contents_base64(raw: &Vec<u8>) -> (r: Option<Vec<u8>>)
    ensures
        match r {
            Some(bytes) => base64_decoded(cleaned(raw@)) == Some(bytes@),
            None => base64_decoded(cleaned(raw@)) is None,
        },
{
    decode_base64(clean_base64(raw).as_slice()).ok()
}

} // verus!
