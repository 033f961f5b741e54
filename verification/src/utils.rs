use sha2::Digest;
use vstd::prelude::*;
use vstd::string::StrSliceExecFns;

use crate::constants::{valid_extension_list, valid_extensions};

verus! {

/// The four bytes that open every zstd frame.
pub open spec fn zstd_magic() -> Seq<u8> {
    seq![0x28u8, 0xB5u8, 0x2Fu8, 0xFDu8]
}

/// Whether `data` opens with the zstd frame magic number.
pub open spec fn starts_with_zstd_magic(data: Seq<u8>) -> bool {
    data.len() >= 4 && data.subrange(0, 4) == zstd_magic()
}

/// Data is taken for zstd exactly when it has at least four bytes and they
/// are 28 B5 2F FD, whatever its length and whatever follows them.
pub proof fn lemma_zstd_magic_is_first_four_bytes(data: Seq<u8>)
    ensures
        starts_with_zstd_magic(data) == (data.len() >= 4 && data[0] == 0x28u8 && data[1] == 0xB5u8
            && data[2] == 0x2Fu8 && data[3] == 0xFDu8),
{
    if data.len() >= 4 {
        let p = data.subrange(0, 4);
        if p == zstd_magic() {
            assert(p[0] == zstd_magic()[0] && p[1] == zstd_magic()[1] && p[2] == zstd_magic()[2]
                && p[3] == zstd_magic()[3]);
        }
        if data[0] == 0x28u8 && data[1] == 0xB5u8 && data[2] == 0x2Fu8 && data[3] == 0xFDu8 {
            assert(p =~= zstd_magic());
        }
    }
}

/// Appending bytes to data that opens with the zstd magic number, or to any
/// data of four bytes or more, never changes whether it is taken for zstd.
pub proof fn lemma_zstd_magic_ignores_the_rest(head: Seq<u8>, rest: Seq<u8>)
    requires
        head.len() >= 4,
    ensures
        starts_with_zstd_magic(head + rest) == starts_with_zstd_magic(head),
{
    lemma_zstd_magic_is_first_four_bytes(head);
    lemma_zstd_magic_is_first_four_bytes(head + rest);
    assert((head + rest)[0] == head[0] && (head + rest)[1] == head[1] && (head + rest)[2] == head[2]
        && (head + rest)[3] == head[3]);
}

/// Tells whether `data` is a zstd stream by its first four bytes.
pub fn is_zstd_compressed(data: &[u8]) -> (res: bool)
    ensures
        res == starts_with_zstd_magic(data@),
        res == (data@.len() >= 4 && data@[0] == 0x28u8 && data@[1] == 0xB5u8 && data@[2] == 0x2Fu8
            && data@[3] == 0xFDu8),
{
    proof {
        lemma_zstd_magic_is_first_four_bytes(data@);
    }
    if data.len() >= 4 {
        if data[0] == 0x28 && data[1] == 0xB5 && data[2] == 0x2F && data[3] == 0xFD {
            assert(data@.subrange(0, 4) =~= zstd_magic());
            return true;
        }
        assert(data@.subrange(0, 4)[0] == data@[0]);
        assert(data@.subrange(0, 4)[1] == data@[1]);
        assert(data@.subrange(0, 4)[2] == data@[2]);
        assert(data@.subrange(0, 4)[3] == data@[3]);
    }
    false
}

/// `String::push`: appends `c` at the end of `s`.
/// Trusted: afterwards `s` holds its former characters followed by `c`.
#[verifier::external_body]
pub(crate) fn push_char(s: &mut String, c: char)
    ensures
        final(s)@ == old(s)@.push(c),
{
    s.push(c);
}

/// A path separator (`/` or `\`) becomes `_`; every other character stays.
pub open spec fn cache_key_char(c: char) -> char {
    if c == '/' || c == '\\' {
        '_'
    } else {
        c
    }
}

/// The cache key of an identifier: each character mapped by `cache_key_char`.
pub open spec fn cache_key_of(id: Seq<char>) -> Seq<char> {
    id.map_values(|c: char| cache_key_char(c))
}

/// A cache key has one character per character of its identifier: `_` where
/// the identifier has `/` or `\`, and the identifier's own character
/// everywhere else.
pub proof fn lemma_cache_key_replaces_only_separators(id: Seq<char>)
    ensures
        cache_key_of(id).len() == id.len(),
        forall|i: int|
            0 <= i < id.len() ==> #[trigger] cache_key_of(id)[i] == (if id[i] == '/' || id[i] == '\\' {
                '_'
            } else {
                id[i]
            }),
{
}

/// The cache key of two identifiers joined is the two cache keys joined: each
/// character is mapped on its own.
pub proof fn lemma_cache_key_of_concat(a: Seq<char>, b: Seq<char>)
    ensures
        cache_key_of(a + b) == cache_key_of(a) + cache_key_of(b),
{
    lemma_cache_key_replaces_only_separators(a);
    lemma_cache_key_replaces_only_separators(b);
    lemma_cache_key_replaces_only_separators(a + b);
    assert(cache_key_of(a + b) =~= cache_key_of(a) + cache_key_of(b));
}

/// Turns an identifier such as a directory path into a flat cache key by
/// replacing every `/` and `\` with `_`.
pub fn id_to_cache_key(id: &str) -> (key: String)
    ensures
        key@ == cache_key_of(id@),
        key@.len() == id@.len(),
        forall|i: int|
            0 <= i < id@.len() ==> #[trigger] key@[i] == (if id@[i] == '/' || id@[i] == '\\' {
                '_'
            } else {
                id@[i]
            }),
{
    proof {
        lemma_cache_key_replaces_only_separators(id@);
    }
    broadcast use vstd::string::group_string_axioms;
    let mut key = String::new();
    for c in it: id.chars()
        invariant
            it.seq() == id@,
            key@ == cache_key_of(id@.take(it.index())),
    {
        let ghost before = key@;
        if c == '/' || c == '\\' {
            push_char(&mut key, '_');
        } else {
            push_char(&mut key, c);
        }
        assert(id@.take(it.index() + 1) =~= id@.take(it.index()).push(c));
        assert(cache_key_of(id@.take(it.index() + 1)) =~= before.push(cache_key_char(c)));
    }
    assert(id@.take(id@.len() as int) =~= id@);
    key
}


/// The sixteen upper-case hexadecimal digits, in order of value.
pub open spec fn upper_hex_digits() -> Seq<char> {
    seq!['0', '1', '2', '3', '4', '5', '6', '7', '8', '9', 'A', 'B', 'C', 'D', 'E', 'F']
}

/// The two upper-case hex digits of one byte, high nibble first.
pub open spec fn hex_pair(b: u8) -> Seq<char> {
    seq![upper_hex_digits()[(b / 16) as int], upper_hex_digits()[(b % 16) as int]]
}

/// Upper-case hex encoding of a byte sequence: two digits per byte, in order.
pub open spec fn hex_upper(bytes: Seq<u8>) -> Seq<char>
    decreases bytes.len(),
{
    if bytes.len() == 0 {
        Seq::empty()
    } else {
        hex_upper(bytes.drop_last()) + hex_pair(bytes.last())
    }
}

/// The upper-case hex digit worth `n`, for `n < 16`.
pub(crate) fn upper_hex_digit(n: u8) -> (c: char)
    requires
        n < 16,
    ensures
        c == upper_hex_digits()[n as int],
{
    match n {
        0 => '0',
        1 => '1',
        2 => '2',
        3 => '3',
        4 => '4',
        5 => '5',
        6 => '6',
        7 => '7',
        8 => '8',
        9 => '9',
        10 => 'A',
        11 => 'B',
        12 => 'C',
        13 => 'D',
        14 => 'E',
        _ => 'F',
    }
}

/// Encodes `bytes` as upper-case hexadecimal, two digits per byte
/// (e.g. `[0xbe, 0xef]` gives `"BEEF"`).
pub fn to_hex_upper(bytes: &[u8]) -> (hex: String)
    ensures
        hex@ == hex_upper(bytes@),
{
    let mut hex = String::new();
    let n = bytes.len();
    for i in 0..n
        invariant
            n == bytes@.len(),
            hex@ == hex_upper(bytes@.take(i as int)),
    {
        let b = bytes[i];
        push_char(&mut hex, upper_hex_digit(b / 16));
        push_char(&mut hex, upper_hex_digit(b % 16));
        assert(bytes@.take(i + 1).drop_last() =~= bytes@.take(i as int));
        assert(hex@ =~= hex_upper(bytes@.take(i + 1)));
    }
    assert(bytes@.take(n as int) =~= bytes@);
    hex
}

/// The SHA-256 digest of a byte sequence.
pub uninterp spec fn sha256_digest(data: Seq<u8>) -> Seq<u8>;

/// `sha2::Sha256::digest`: the SHA-256 digest of `data`, as its 32 bytes.
/// Trusted: the result is `sha256_digest(data@)`, and it is 32 bytes long
/// (the output size of `Sha256`); nothing else is claimed of it.
#[verifier::external_body]
fn sha256(data: &[u8]) -> (digest: Vec<u8>)
    ensures
        digest@ == sha256_digest(data@),
        digest@.len() == 32,
{
    sha2::Sha256::digest(data).to_vec()
}

/// The SHA-256 digest of `content`, written as 64 upper-case hex digits.
pub fn generate_hash(content: &[u8]) -> (hash: String)
    ensures
        hash@ == hex_upper(sha256_digest(content@)),
        hash@.len() == 64,
        forall|i: int| 0 <= i < 64 ==> upper_hex_digits().contains(#[trigger] hash@[i]),
{
    let digest = sha256(content);
    let hash = to_hex_upper(digest.as_slice());
    proof {
        lemma_hex_upper_len(digest@);
        lemma_hex_upper_alphabet(digest@);
    }
    hash
}

/// A cache key is as long as its identifier, holds no path separator, and
/// is its own cache key: it names a single directory entry.
pub proof fn lemma_cache_key_is_flat(id: Seq<char>)
    ensures
        cache_key_of(id).len() == id.len(),
        !cache_key_of(id).contains('/'),
        !cache_key_of(id).contains('\\'),
        cache_key_of(cache_key_of(id)) == cache_key_of(id),
{
    let key = cache_key_of(id);
    assert forall|i: int| 0 <= i < key.len() implies key[i] != '/' && key[i] != '\\' by {
        assert(key[i] == cache_key_char(id[i]));
    }
    assert(cache_key_of(key) =~= key);
}

/// Every character of a hex encoding is one of the sixteen upper-case digits.
pub proof fn lemma_hex_upper_alphabet(bytes: Seq<u8>)
    ensures
        forall|i: int|
            0 <= i < hex_upper(bytes).len() ==> upper_hex_digits().contains(
                #[trigger] hex_upper(bytes)[i],
            ),
    decreases bytes.len(),
{
    if bytes.len() > 0 {
        let prefix = bytes.drop_last();
        let b = bytes.last();
        lemma_hex_upper_alphabet(prefix);
        let hi = (b / 16) as int;
        let lo = (b % 16) as int;
        assert(upper_hex_digits().contains(upper_hex_digits()[hi]));
        assert(upper_hex_digits().contains(upper_hex_digits()[lo]));
        assert forall|i: int| 0 <= i < hex_upper(bytes).len() implies upper_hex_digits().contains(
            #[trigger] hex_upper(bytes)[i],
        ) by {
            if i < hex_upper(prefix).len() {
                assert(hex_upper(bytes)[i] == hex_upper(prefix)[i]);
            }
        }
    }
}

/// Two bytes with the same pair of hex digits are the same byte.
proof fn lemma_hex_pair_injective(x: u8, y: u8)
    requires
        hex_pair(x) == hex_pair(y),
    ensures
        x == y,
{
    let d = upper_hex_digits();
    assert(hex_pair(x)[0] == hex_pair(y)[0]);
    assert(hex_pair(x)[1] == hex_pair(y)[1]);
    assert(forall|i: int, j: int| 0 <= i < 16 && 0 <= j < 16 && d[i] == d[j] ==> i == j);
    assert(x / 16 == y / 16);
    assert(x % 16 == y % 16);
}

/// Hex encoding loses nothing: different byte sequences never share an
/// encoding.
pub proof fn lemma_hex_upper_injective(a: Seq<u8>, b: Seq<u8>)
    requires
        hex_upper(a) == hex_upper(b),
    ensures
        a == b,
    decreases a.len(),
{
    lemma_hex_upper_len(a);
    lemma_hex_upper_len(b);
    if a.len() > 0 {
        let ha = hex_upper(a.drop_last());
        let hb = hex_upper(b.drop_last());
        lemma_hex_upper_len(a.drop_last());
        lemma_hex_upper_len(b.drop_last());
        let n = ha.len() as int;
        assert(hex_upper(a) == ha + hex_pair(a.last()));
        assert(hex_upper(b) == hb + hex_pair(b.last()));
        assert(ha =~= hex_upper(a).subrange(0, n));
        assert(hb =~= hex_upper(b).subrange(0, n));
        assert(hex_pair(a.last()) =~= hex_upper(a).subrange(n, n + 2));
        assert(hex_pair(b.last()) =~= hex_upper(b).subrange(n, n + 2));
        lemma_hex_pair_injective(a.last(), b.last());
        lemma_hex_upper_injective(a.drop_last(), b.drop_last());
        assert(a =~= a.drop_last().push(a.last()));
        assert(b =~= b.drop_last().push(b.last()));
    } else {
        assert(a =~= b);
    }
}

/// Hex encoding doubles the length.
pub proof fn lemma_hex_upper_len(bytes: Seq<u8>)
    ensures
        hex_upper(bytes).len() == 2 * bytes.len(),
    decreases bytes.len(),
{
    if bytes.len() > 0 {
        lemma_hex_upper_len(bytes.drop_last());
    }
}


/// Whether `a` and `b` hold the same characters.
fn same_chars(a: &str, b: &str) -> (same: bool)
    ensures
        same == (a@ == b@),
{
    let n = a.unicode_len();
    if n != b.unicode_len() {
        return false;
    }
    for i in 0..n
        invariant
            n == a@.len(),
            n == b@.len(),
            forall|j: int| 0 <= j < i ==> a@[j] == b@[j],
    {
        if a.get_char(i) != b.get_char(i) {
            return false;
        }
    }
    assert(a@ =~= b@);
    true
}

/// The lower-case form of a string.
pub uninterp spec fn lowercase_of(s: Seq<char>) -> Seq<char>;

/// Whether every character of `s` is ASCII.
pub open spec fn is_ascii_text(s: Seq<char>) -> bool {
    forall|i: int| 0 <= i < s.len() ==> (s[i] as u32) < 128
}

/// The ASCII lower case of one character: `A` to `Z` become `a` to `z`, every
/// other character stays.
pub open spec fn ascii_lower_char(c: char) -> char {
    if 65 <= (c as u32) <= 90 {
        ((c as u32) + 32) as char
    } else {
        c
    }
}

/// `str::to_lowercase`: the lower-case form of `s`.
/// Trusted: the result is `lowercase_of(s@)`, and for ASCII text it is the
/// text with each character mapped by `ascii_lower_char` (ASCII letters go to
/// their ASCII lower case, all other ASCII characters stay); nothing else is
/// claimed of it.
#[verifier::external_body]
fn to_lowercase(s: &str) -> (lower: String)
    ensures
        lower@ == lowercase_of(s@),
        is_ascii_text(s@) ==> lower@ == s@.map_values(|c: char| ascii_lower_char(c)),
{
    s.to_lowercase()
}

/// Whether a relative path lies under the `-` directory.
pub open spec fn under_dash_dir(relative: Seq<Seq<char>>) -> bool {
    relative.len() > 0 && relative[0] == "-"@
}

/// Whether an upload packs an entry of the scratch directory: the entry must
/// not lie under its `-` directory, and it must have an extension whose
/// lower-case form is one of `valid_extensions`.
pub open spec fn archive_includes(relative: Seq<Seq<char>>, extension: Option<Seq<char>>) -> bool {
    &&& !under_dash_dir(relative)
    &&& match extension {
        Some(e) => valid_extensions().contains(lowercase_of(e)),
        None => false,
    }
}

/// Whether an entry is packed depends only on its first path component and
/// its extension: it is packed exactly when that component is not `-` and the
/// lower-cased extension is a valid one, at any depth.
pub proof fn lemma_archive_looks_only_at_first_component(
    relative: Seq<Seq<char>>,
    extension: Option<Seq<char>>,
)
    ensures
        archive_includes(relative, extension) == (!(relative.len() > 0 && relative[0] == "-"@)
            && match extension {
            Some(e) => valid_extensions().contains(lowercase_of(e)),
            None => false,
        }),
{
}

/// Components after the first never change whether an entry is packed:
/// an entry nested deeper under the same first component is packed exactly
/// when the shallower one is.
pub proof fn lemma_archive_ignores_depth(
    relative: Seq<Seq<char>>,
    deeper: Seq<Seq<char>>,
    extension: Option<Seq<char>>,
)
    requires
        relative.len() > 0,
    ensures
        archive_includes(relative + deeper, extension) == archive_includes(relative, extension),
{
    lemma_archive_looks_only_at_first_component(relative, extension);
    lemma_archive_looks_only_at_first_component(relative + deeper, extension);
    assert((relative + deeper)[0] == relative[0]);
}

/// An optional string slice, by its characters.
pub open spec fn opt_str_view(s: Option<&str>) -> Option<Seq<char>> {
    match s {
        Some(t) => Some(t@),
        None => None,
    }
}

/// Decides whether an entry of the directory being archived is packed, from
/// the components of its path relative to that directory and its extension.
pub fn should_archive(relative: &Vec<String>, extension: Option<&str>) -> (packed: bool)
    ensures
        packed == archive_includes(relative@.map_values(|c: String| c@), opt_str_view(extension)),
        match extension {
            Some(e) => is_ascii_text(e@) ==> packed == (!under_dash_dir(
                relative@.map_values(|c: String| c@),
            ) && valid_extensions().contains(e@.map_values(|c: char| ascii_lower_char(c)))),
            None => true,
        },
        match extension {
            Some(e) => is_ascii_text(e@) ==> packed == (!(relative@.len() > 0 && relative@[0]@ == "-"@)
                && valid_extensions().contains(e@.map_values(|c: char| ascii_lower_char(c)))),
            None => !packed,
        },
{
    let ghost rel = relative@.map_values(|c: String| c@);
    proof {
        if relative@.len() > 0 {
            assert(rel[0] == relative@[0]@);
        }
        lemma_archive_looks_only_at_first_component(rel, opt_str_view(extension));
    }
    if relative.len() > 0 && same_chars(relative[0].as_str(), "-") {
        assert(rel[0] == relative@[0]@);
        assert(under_dash_dir(rel));
        return false;
    }
    assert(!(rel.len() > 0 && rel[0] == "-"@));
    match extension {
        None => false,
        Some(ext) => {
            let lower = to_lowercase(ext);
            let list = valid_extension_list();
            let ghost names = list@.map_values(|e: &str| e@);
            let mut k: usize = 0;
            while k < list.len()
                invariant
                    k <= list@.len(),
                    names == valid_extensions(),
                    names == list@.map_values(|e: &str| e@),
                    lower@ == lowercase_of(ext@),
                    is_ascii_text(ext@) ==> lower@ == ext@.map_values(|c: char| ascii_lower_char(c)),
                    extension == Some(ext),
                    !(rel.len() > 0 && rel[0] == "-"@),
                    rel == relative@.map_values(|c: String| c@),
                    names.len() == list@.len(),
                    forall|j: int| 0 <= j < k ==> names[j] != lower@,
                decreases list.len() - k,
            {
                assert(names[k as int] == list@[k as int]@);
                if same_chars(list[k], lower.as_str()) {
                    return true;
                }
                k = k + 1;
            }
            assert(!names.contains(lower@));
            false
        },
    }
}

} // verus!
