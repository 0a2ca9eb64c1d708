//! Links to the wiki's image files, whose directories come from the MD5
//! digest of the file name.
use vstd::prelude::*;
use vstd::utf8::encode_utf8;
use md5::{Digest, Md5};
use crate::text::{chars_of, extend_str, string_of};

verus! {

/// Where the wiki keeps its image files.
pub const IMAGE_HALF: &'static str = "https://www.dustloop.com/wiki/images";

/// The MD5 digest of a sequence of bytes.
pub uninterp spec fn md5_of(bytes: Seq<u8>) -> Seq<u8>;

/// `<md5::Md5 as Digest>::digest`: the contract names the digest
/// `md5_of(bytes@)` and says that it has 16 bytes (the output size `U16` of
/// `Md5Core`); the hash itself is not restated.
#[verifier::external_body]
fn md5_digest(bytes: &[u8]) -> (r: Vec<u8>)
    ensures
        r@ == md5_of(bytes@),
        r@.len() == 16,
{
    Md5::digest(bytes).to_vec()
}

/// The lower-case hexadecimal digit of a value below sixteen.
pub open spec fn hex_digit(n: u8) -> char {
    if n < 10 {
        (48 + n) as char
    } else {
        (87 + n) as char
    }
}

/// The lower-case hexadecimal digit of a value below sixteen.
fn hex_char(n: u8) -> (c: char)
    requires
        n < 16,
    ensures
        c == hex_digit(n),
{
    if n < 10 {
        (48 + n) as char
    } else {
        (87 + n) as char
    }
}

/// The link to an image file whose name has the given digest: the base,
/// then the first hexadecimal digit of the digest, then its first two, then
/// the name, separated by `/`.
pub open spec fn link_for(name: Seq<char>, digest: Seq<u8>) -> Seq<char> {
    let c1 = hex_digit(digest[0] / 16);
    let c2 = hex_digit(digest[0] % 16);
    IMAGE_HALF@ + "/"@ + seq![c1] + "/"@ + seq![c1, c2] + "/"@ + name
}

/// Builds the link to an image file from its name and the digest of its name.
pub fn link_from_digest(image_name: &str, digest: &Vec<u8>) -> (r: String)
    requires
        digest@.len() >= 1,
    ensures
        r@ == link_for(image_name@, digest@),
{
    let c1 = hex_char(digest[0] / 16);
    let c2 = hex_char(digest[0] % 16);
    let mut v = chars_of(IMAGE_HALF);
    extend_str(&mut v, "/");
    v.push(c1);
    extend_str(&mut v, "/");
    v.push(c1);
    v.push(c2);
    extend_str(&mut v, "/");
    extend_str(&mut v, image_name);
    let r = string_of(&v);
    assert(r@ =~= link_for(image_name@, digest@));
    r
}

/// The link to the wiki's image file with the given name: its directories
/// come from the MD5 digest of the name's UTF-8 bytes.
pub fn make_link(image_name: &str) -> (r: String)
    ensures
        r@ == link_for(image_name@, md5_of(encode_utf8(image_name@))),
{
    let digest = md5_digest(image_name.as_bytes());
    link_from_digest(image_name, &digest)
}

/// Two lower-case hexadecimal digits for each byte, in order (what the
/// `{:x}` format gives for a digest).
pub open spec fn hex_text(bytes: Seq<u8>) -> Seq<char>
    decreases bytes.len(),
{
    if bytes.len() == 0 {
        Seq::empty()
    } else {
        hex_text(bytes.drop_last()) + seq![hex_digit(bytes.last() / 16), hex_digit(bytes.last() % 16)]
    }
}

/// Writes bytes as lower-case hexadecimal text.
pub fn hex_string(bytes: &Vec<u8>) -> (r: String)
    ensures
        r@ == hex_text(bytes@),
{
    let mut v: Vec<char> = Vec::new();
    let mut i: usize = 0;
    while i < bytes.len()
        invariant
            i <= bytes.len(),
            v@ == hex_text(bytes@.take(i as int)),
        decreases bytes.len() - i,
    {
        let b = bytes[i];
        v.push(hex_char(b / 16));
        v.push(hex_char(b % 16));
        assert(bytes@.take(i + 1).drop_last() =~= bytes@.take(i as int));
        i = i + 1;
    }
    assert(bytes@.take(bytes.len() as int) =~= bytes@);
    string_of(&v)
}

/// The MD5 digest of some bytes written as lower-case hexadecimal text.
pub fn digest_hex(bytes: &[u8]) -> (r: String)
    ensures
        r@ == hex_text(md5_of(bytes@)),
        r@.len() == 32,
{
    let digest = md5_digest(bytes);
    proof {
        lemma_hex_text_len(digest@);
    }
    hex_string(&digest)
}

/// Every image link lies under `IMAGE_HALF`, two directory levels down,
/// and ends with the file's name.
pub proof fn lemma_link_shape(name: Seq<char>, digest: Seq<u8>)
    requires
        digest.len() >= 1,
    ensures
        link_for(name, digest).len() == IMAGE_HALF@.len() + 6 + name.len(),
        link_for(name, digest).take(IMAGE_HALF@.len() as int) == IMAGE_HALF@,
        link_for(name, digest).skip(link_for(name, digest).len() - name.len()) == name,
{
    reveal_strlit("/");
    let l = link_for(name, digest);
    assert(l.take(IMAGE_HALF@.len() as int) =~= IMAGE_HALF@);
    assert(l.skip(l.len() - name.len()) =~= name);
}

/// Hexadecimal text has two digits per byte.
pub proof fn lemma_hex_text_len(bytes: Seq<u8>)
    ensures
        hex_text(bytes).len() == 2 * bytes.len(),
    decreases bytes.len(),
{
    if bytes.len() > 0 {
        lemma_hex_text_len(bytes.drop_last());
    }
}

} // verus!
