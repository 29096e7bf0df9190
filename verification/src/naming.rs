//! Where an image is stored: `data/<group>/img-<digest>.<extension>`.
//!
//! The digest is the MD5 digest of the URL's text, written as 32 lower-case
//! hexadecimal digits. The path depends on nothing but the URL, the group
//! and the extension, so fetching one URL again overwrites one file.

use vstd::prelude::*;
use vstd::string::*;

verus! {

/// The MD5 digest of a sequence of bytes.
pub uninterp spec fn md5_digest(data: Seq<u8>) -> Seq<u8>;

/// Calls `md5::compute` and hands out the 16 bytes of its digest.
///
/// Trusted: the bytes returned are the MD5 digest of `data`. They depend on
/// `data` alone.
#[verifier::external_body]
fn md5_of(data: &[u8]) -> (digest: [u8; 16])
    ensures
        digest@ == md5_digest(data@),
{
    md5::compute(data).0
}

/// The sixteen hexadecimal digits, in lower case.
pub open spec fn hex_digits() -> Seq<char> {
    seq!['0', '1', '2', '3', '4', '5', '6', '7', '8', '9', 'a', 'b', 'c', 'd', 'e', 'f']
}

/// The hexadecimal digit for a value below sixteen.
pub open spec fn hex_digit(value: int) -> char
    recommends
        0 <= value < 16,
{
    hex_digits()[value]
}

/// Two digits for each byte, the high half first.
pub open spec fn hex(data: Seq<u8>) -> Seq<char> {
    Seq::new(
        2 * data.len(),
        |i: int| if i % 2 == 0 {
            hex_digit(data[i / 2] as int / 16)
        } else {
            hex_digit(data[i / 2] as int % 16)
        },
    )
}

/// `data/`
pub open spec fn root_prefix() -> Seq<char> {
    seq!['d', 'a', 't', 'a', '/']
}

/// `/img-`
pub open spec fn file_prefix() -> Seq<char> {
    seq!['/', 'i', 'm', 'g', '-']
}

/// The directory of a group: `data/<group>`.
pub open spec fn directory(group: Seq<char>) -> Seq<char> {
    root_prefix() + group
}

/// The name of the file for a digest: `img-<hex digits>.<extension>`,
/// preceded by the `/` that parts it from the directory.
pub open spec fn file_part(digest: Seq<u8>, extension: Seq<char>) -> Seq<char> {
    file_prefix() + hex(digest) + seq!['.'] + extension
}

/// The path of the stored image, given the digest of its URL.
pub open spec fn path_with(digest: Seq<u8>, group: Seq<char>, extension: Seq<char>) -> Seq<char> {
    directory(group) + file_part(digest, extension)
}

/// The path of the stored image for a URL, a group and an extension.
pub open spec fn path(url: Seq<char>, group: Seq<char>, extension: Seq<char>) -> Seq<char> {
    path_with(md5_digest(vstd::utf8::encode_utf8(url)), group, extension)
}

/// Bytes with the same hexadecimal digits are the same bytes.
pub proof fn lemma_hex_injective(a: Seq<u8>, b: Seq<u8>)
    requires
        hex(a) == hex(b),
    ensures
        a == b,
{
    assert(hex(a).len() == 2 * a.len());
    assert(hex(b).len() == 2 * b.len());
    assert forall|i: int| 0 <= i < a.len() implies a[i] == b[i] by {
        let x = a[i] as int;
        let y = b[i] as int;
        let high = 2 * i;
        let low = 2 * i + 1;
        assert(high / 2 == i && high % 2 == 0);
        assert(low / 2 == i && low % 2 == 1);
        assert(hex(a)[high] == hex_digit(x / 16));
        assert(hex(b)[high] == hex_digit(y / 16));
        assert(hex(a)[low] == hex_digit(x % 16));
        assert(hex(b)[low] == hex_digit(y % 16));
        assert(x / 16 == y / 16);
        assert(x % 16 == y % 16);
    }
    assert(a =~= b);
}

/// Naming tells digests apart: within one group and with one extension,
/// two digests that differ give two paths that differ.
pub proof fn lemma_distinct_digests_distinct_paths(
    first: Seq<u8>,
    second: Seq<u8>,
    group: Seq<char>,
    extension: Seq<char>,
)
    requires
        first != second,
    ensures
        path_with(first, group, extension) != path_with(second, group, extension),
{
    let one = path_with(first, group, extension);
    let two = path_with(second, group, extension);
    if one == two {
        let start = directory(group).len() + file_prefix().len();
        assert(one.len() == start + hex(first).len() + 1 + extension.len());
        assert(two.len() == start + hex(second).len() + 1 + extension.len());
        assert(hex(first).len() == hex(second).len());
        assert forall|i: int| 0 <= i < hex(first).len() implies hex(first)[i] == hex(second)[i] by {
            assert(one[start + i] == hex(first)[i]);
            assert(two[start + i] == hex(second)[i]);
        }
        assert(hex(first) =~= hex(second));
        lemma_hex_injective(first, second);
    }
}

/// Naming is a matter of the digest alone: within one group and with one
/// extension, two URLs are stored at the same path exactly when their
/// digests are the same. So one URL always has one path, and two URLs whose
/// digests do not collide have two.
pub proof fn lemma_same_path_same_digest(
    first: Seq<char>,
    second: Seq<char>,
    group: Seq<char>,
    extension: Seq<char>,
)
    ensures
        path(first, group, extension) == path(second, group, extension) <==> md5_digest(
            vstd::utf8::encode_utf8(first),
        ) == md5_digest(vstd::utf8::encode_utf8(second)),
{
    let one = md5_digest(vstd::utf8::encode_utf8(first));
    let two = md5_digest(vstd::utf8::encode_utf8(second));
    if one != two {
        lemma_distinct_digests_distinct_paths(one, two, group, extension);
    }
}

/// The digit for `value`, as a text of one character.
fn digit_text(value: u8) -> (text: &'static str)
    requires
        value < 16,
    ensures
        text@ == seq![hex_digit(value as int)],
{
    let digits = "0123456789abcdef";
    proof {
        reveal_strlit("0123456789abcdef");
        assert(digits@ =~= hex_digits());
    }
    let at: usize = value as usize;
    let text = digits.substring_ascii(at, at + 1);
    assert(text@ =~= seq![hex_digit(value as int)]);
    text
}

/// Writes bytes as lower-case hexadecimal digits, two for each byte.
pub fn hex_lower(data: &[u8]) -> (text: String)
    ensures
        text@ == hex(data@),
{
    let mut text = String::new();
    let mut done: usize = 0;
    while done < data.len()
        invariant
            done <= data.len(),
            text@ == hex(data@.take(done as int)),
        decreases data.len() - done,
    {
        let byte: u8 = data[done];
        let ghost before = text@;
        text.append(digit_text(byte / 16));
        text.append(digit_text(byte % 16));
        proof {
            let shorter = data@.take(done as int);
            let longer = data@.take(done + 1);
            assert(text@ == before + seq![hex_digit(byte as int / 16)] + seq![
                hex_digit(byte as int % 16),
            ]);
            assert(text@.len() == 2 * longer.len());
            assert forall|i: int| 0 <= i < text@.len() implies text@[i] == hex(longer)[i] by {
                if i < 2 * done {
                    assert(text@[i] == hex(shorter)[i]);
                    assert(shorter[i / 2] == longer[i / 2]);
                } else {
                    assert(i / 2 == done);
                    assert(longer[i / 2] == byte);
                }
            }
            assert(text@ =~= hex(longer));
        }
        done = done + 1;
    }
    proof {
        assert(data@.take(done as int) =~= data@);
    }
    text
}

/// The directory in which the images of `group` are stored.
pub fn group_directory(group: &str) -> (dir: String)
    ensures
        dir@ == directory(group@),
{
    proof {
        reveal_strlit("data/");
        assert("data/"@ =~= root_prefix());
    }
    String::from_str("data/").concat(group)
}

/// The path of the stored image, given the MD5 digest of its URL.
pub fn image_path_with(digest: &[u8], group: &str, extension: &str) -> (file: String)
    ensures
        file@ == path_with(digest@, group@, extension@),
{
    proof {
        reveal_strlit("/img-");
        reveal_strlit(".");
        assert("/img-"@ =~= file_prefix());
        assert("."@ =~= seq!['.']);
    }
    let mut file = group_directory(group);
    file.append("/img-");
    file.append(hex_lower(digest).as_str());
    file.append(".");
    file.append(extension);
    assert(file@ =~= path_with(digest@, group@, extension@));
    file
}

/// The path at which the image behind `url` is stored.
///
/// The same URL, group and extension always give the same path.
pub fn image_path(url: &str, group: &str, extension: &str) -> (file: String)
    ensures
        file@ == path(url@, group@, extension@),
{
    let digest = md5_of(url.as_bytes());
    image_path_with(digest.as_slice(), group, extension)
}

} // verus!
