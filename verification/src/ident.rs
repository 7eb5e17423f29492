//! Identifiers of uploaded files: the SHA-256 digest of the contents, in
//! lower-case hexadecimal.

use sha2::{Digest, Sha256};
use vstd::prelude::*;

verus! {

/// The hexadecimal digit for a number below 16.
pub open spec fn hex_char(n: int) -> char {
    seq!['0', '1', '2', '3', '4', '5', '6', '7', '8', '9', 'a', 'b', 'c', 'd', 'e', 'f'][n]
}

/// Lower-case hexadecimal: two digits for each byte, the high one first.
pub open spec fn hex_lower(bytes: Seq<u8>) -> Seq<char> {
    Seq::new(
        2 * bytes.len(),
        |i: int|
            if i % 2 == 0 {
                hex_char(bytes[i / 2] as int / 16)
            } else {
                hex_char(bytes[i / 2] as int % 16)
            },
    )
}

/// Whether a character is a lower-case hexadecimal digit.
pub open spec fn is_hex_char(c: char) -> bool {
    '0' <= c <= '9' || 'a' <= c <= 'f'
}

/// The SHA-256 digest of `data`, as the `sha2` crate computes it.
pub uninterp spec fn sha256(data: Seq<u8>) -> Seq<u8>;

/// The identifier of a file with these contents.
pub open spec fn id_of(contents: Seq<u8>) -> Seq<char> {
    hex_lower(sha256(contents))
}

/// Calls `sha2::Sha256`: `new`, one `update` with the data, and `finalize`. The
/// digest depends on the data alone and has 32 bytes. The hasher counts bits
/// in 64 bits, which bounds the length of the data.
#[verifier::external_body]
fn sha256_digest(data: &[u8]) -> (digest: Vec<u8>)
    requires
        data@.len() < 0x2000_0000_0000_0000,
    ensures
        digest@ == sha256(data@),
        digest@.len() == 32,
{
    let mut hasher = Sha256::new();
    hasher.update(data);
    hasher.finalize().to_vec()
}

fn hex_digit(n: u8) -> (digit: &'static str)
    requires
        n < 16,
    ensures
        digit@ == seq![hex_char(n as int)],
{
    proof {
        reveal_strlit("0");
        reveal_strlit("1");
        reveal_strlit("2");
        reveal_strlit("3");
        reveal_strlit("4");
        reveal_strlit("5");
        reveal_strlit("6");
        reveal_strlit("7");
        reveal_strlit("8");
        reveal_strlit("9");
        reveal_strlit("a");
        reveal_strlit("b");
        reveal_strlit("c");
        reveal_strlit("d");
        reveal_strlit("e");
        reveal_strlit("f");
    }
    match n {
        0 => "0",
        1 => "1",
        2 => "2",
        3 => "3",
        4 => "4",
        5 => "5",
        6 => "6",
        7 => "7",
        8 => "8",
        9 => "9",
        10 => "a",
        11 => "b",
        12 => "c",
        13 => "d",
        14 => "e",
        _ => "f",
    }
}

/// Writes bytes in lower-case hexadecimal.
pub fn to_hex(bytes: &[u8]) -> (text: String)
    ensures
        text@ == hex_lower(bytes@),
{
    let mut text = String::new();
    let mut i: usize = 0;
    assert(text@ =~= hex_lower(bytes@.take(0)));
    while i < bytes.len()
        invariant
            i <= bytes@.len(),
            text@ == hex_lower(bytes@.take(i as int)),
        decreases bytes@.len() - i,
    {
        let byte: u8 = bytes[i];
        text.append(hex_digit(byte / 16));
        text.append(hex_digit(byte % 16));
        i = i + 1;
        assert(text@ =~= hex_lower(bytes@.take(i as int)));
    }
    assert(bytes@.take(i as int) =~= bytes@);
    text
}

/// The identifier of a file: the SHA-256 digest of its contents in lower-case
/// hexadecimal.
pub fn file_id(contents: &[u8]) -> (id: String)
    requires
        contents@.len() < 0x2000_0000_0000_0000,
    ensures
        id@ == id_of(contents@),
        id@ == hex_lower(sha256(contents@)),
        id@.len() == 64,
{
    let digest = sha256_digest(contents);
    to_hex(digest.as_slice())
}

/// Whether a name has no slash, and so names a file of its own in a directory.
pub open spec fn is_plain(name: Seq<char>) -> bool {
    !name.contains('/')
}

/// The identifier of a file has no slash.
pub proof fn law_identifiers_are_plain(contents: Seq<u8>)
    ensures
        is_plain(id_of(contents)),
        !id_of(contents).contains('/'),
{
    assert forall|i: int| 0 <= i < id_of(contents).len() implies id_of(contents)[i] != '/' by {
        law_hex_is_plain(sha256(contents), i);
    }
}

/// Hexadecimal text holds hexadecimal digits and nothing else, so an
/// identifier can stand in a file name, a URL or a page as it is.
pub proof fn law_hex_is_plain(bytes: Seq<u8>, i: int)
    requires
        0 <= i < hex_lower(bytes).len(),
    ensures
        is_hex_char(hex_lower(bytes)[i]),
        '0' <= hex_lower(bytes)[i] <= '9' || 'a' <= hex_lower(bytes)[i] <= 'f',
{
}

/// Hexadecimal text can be read back: there are two digits for each byte, and
/// the byte is sixteen times the value of the first and the value of the second.
pub proof fn law_hex_reads_back(bytes: Seq<u8>, i: int)
    requires
        0 <= i < bytes.len(),
    ensures
        hex_lower(bytes).len() == 2 * bytes.len(),
        ({
            let value = |c: char|
                if '0' <= c <= '9' {
                    c as int - '0' as int
                } else {
                    c as int - 'a' as int + 10
                };
            bytes[i] == 16 * value(hex_lower(bytes)[2 * i]) + value(hex_lower(bytes)[2 * i + 1])
        }),
{
    let high = 2 * i;
    let low = 2 * i + 1;
    assert(high / 2 == i && high % 2 == 0 && low / 2 == i && low % 2 == 1);
    assert(hex_lower(bytes)[high] == hex_char(bytes[i] as int / 16));
    assert(hex_lower(bytes)[low] == hex_char(bytes[i] as int % 16));
}

/// Two files have the same identifier exactly if all that they hold has the same
/// SHA-256 digest.
pub proof fn law_identifiers_tell_digests_apart(a: Seq<u8>, b: Seq<u8>)
    ensures
        id_of(a) == id_of(b) <==> sha256(a) == sha256(b),
        id_of(a) == hex_lower(sha256(a)),
{
    if id_of(a) == id_of(b) {
        law_hex_is_injective(sha256(a), sha256(b));
    }
}

proof fn lemma_hex_char_injective(m: int, n: int)
    requires
        0 <= m < 16,
        0 <= n < 16,
        hex_char(m) == hex_char(n),
    ensures
        m == n,
{
}

/// Two byte strings with the same hexadecimal text are the same, so two files
/// share an identifier only if they share a digest.
pub proof fn law_hex_is_injective(a: Seq<u8>, b: Seq<u8>)
    requires
        hex_lower(a) == hex_lower(b),
    ensures
        a == b,
{
    assert(hex_lower(a).len() == 2 * a.len() && hex_lower(b).len() == 2 * b.len());
    assert forall|i: int| 0 <= i < a.len() implies a[i] == b[i] by {
        let high = 2 * i;
        let low = 2 * i + 1;
        assert(high / 2 == i && high % 2 == 0 && low / 2 == i && low % 2 == 1);
        assert(hex_lower(a)[high] == hex_char(a[i] as int / 16));
        assert(hex_lower(b)[high] == hex_char(b[i] as int / 16));
        assert(hex_lower(a)[low] == hex_char(a[i] as int % 16));
        assert(hex_lower(b)[low] == hex_char(b[i] as int % 16));
        lemma_hex_char_injective(a[i] as int / 16, b[i] as int / 16);
        lemma_hex_char_injective(a[i] as int % 16, b[i] as int % 16);
    }
    assert(a =~= b);
}

} // verus!
