//! Driver detection in a newc-format CPIO initrd.
//!
//! The initrd is a CPIO archive holding the guest's root filesystem.  A
//! Hyperlight driver binary lives at `usr/local/bin/hl_*` or `usr/bin/hl_*`
//! (e.g. `hl_pydriver`, `hl_nodedriver`); the first such entry becomes the
//! guest's entry point when none is given explicitly.

use vstd::prelude::*;
use vstd::utf8::{decode_utf8, valid_utf8};

use crate::text::opt_str;

verus! {

/// Size of a newc header in bytes.
pub const HEADER_LEN: usize = 110;

/// Whether a byte is an ASCII hexadecimal digit (either case).
pub open spec fn is_hex_digit(b: u8) -> bool {
    (48 <= b <= 57) || (65 <= b <= 70) || (97 <= b <= 102)
}

/// The value of an ASCII hexadecimal digit.
pub open spec fn hex_digit_value(b: u8) -> nat {
    if 48 <= b <= 57 {
        (b - 48) as nat
    } else if 65 <= b <= 70 {
        (b - 55) as nat
    } else {
        (b - 87) as nat
    }
}

/// Whether every byte of `s` is a hexadecimal digit.
pub open spec fn all_hex(s: Seq<u8>) -> bool {
    forall|i: int| 0 <= i < s.len() ==> is_hex_digit(#[trigger] s[i])
}

/// The big-endian hexadecimal value of a run of hex digits.
pub open spec fn hex_value(s: Seq<u8>) -> nat
    decreases s.len(),
{
    if s.len() == 0 {
        0
    } else {
        hex_value(s.drop_last()) * 16 + hex_digit_value(s.last())
    }
}

/// A numeric header field read the way `from_str_radix(_, 16)` reads the
/// field's text: an optional leading `+`, then one or more hex digits.
pub open spec fn header_number(f: Seq<u8>) -> Option<nat> {
    if f.len() > 0 && all_hex(f) {
        Some(hex_value(f))
    } else if f.len() > 1 && f[0] == 43 && all_hex(f.drop_first()) {
        Some(hex_value(f.drop_first()))
    } else {
        None
    }
}

/// The newc magic: `070701`, or `070702` for the CRC variant.
pub open spec fn magic_ok(h: Seq<u8>) -> bool {
    &&& h.len() >= 6
    &&& h[0] == 48 && h[1] == 55 && h[2] == 48 && h[3] == 55 && h[4] == 48
    &&& (h[5] == 49 || h[5] == 50)
}

/// Padding that brings `n` up to a multiple of four.
pub open spec fn pad4(n: nat) -> nat {
    ((4 - n % 4) % 4) as nat
}

/// `s` without its trailing NUL characters.
pub open spec fn trim_nul(s: Seq<char>) -> Seq<char>
    decreases s.len(),
{
    if s.len() > 0 && s.last() == '\0' {
        trim_nul(s.drop_last())
    } else {
        s
    }
}

/// Whether an entry name is a Hyperlight driver path.
pub open spec fn is_driver_name(name: Seq<char>) -> bool {
    "usr/local/bin/hl_"@.is_prefix_of(name) || "usr/bin/hl_"@.is_prefix_of(name)
}

/// Scan the archive from the entry header at `pos`.
///
/// Each entry is a 110-byte header (magic, then eight-digit hex fields, of
/// which `filesize` sits at bytes 54..62 and `namesize` at 94..102), the
/// name (`namesize` bytes, NUL-terminated), padding to a multiple of four
/// counted from the header's start, the file data, and padding to a
/// multiple of four again.  The scan yields the guest-absolute path of the
/// first driver entry, and nothing when it meets the end of the data, a bad
/// magic or field, a name that is not UTF-8, or the `TRAILER!!!` entry.
pub open spec fn cpio_scan(img: Seq<u8>, pos: nat) -> Option<Seq<char>>
    decreases img.len() - pos,
{
    if pos + 110 > img.len() {
        None
    } else {
        let h = img.subrange(pos as int, (pos + 110) as int);
        if !magic_ok(h) {
            None
        } else {
            match (header_number(h.subrange(94, 102)), header_number(h.subrange(54, 62))) {
                (Some(namesize), Some(filesize)) => {
                    let name_end = pos + 110 + namesize;
                    if name_end > img.len() {
                        None
                    } else {
                        let raw = img.subrange((pos + 110) as int, name_end as int);
                        if !valid_utf8(raw) {
                            None
                        } else {
                            let name = trim_nul(decode_utf8(raw));
                            if name == "TRAILER!!!"@ {
                                None
                            } else if is_driver_name(name) {
                                Some("/"@ + name)
                            } else {
                                let next = name_end + pad4(110 + namesize) + filesize + pad4(
                                    filesize,
                                );
                                if next >= img.len() {
                                    None
                                } else {
                                    cpio_scan(img, next)
                                }
                            }
                        }
                    }
                },
                _ => None,
            }
        }
    }
}

/// Decode UTF-8 text.
///
/// Trusted wrapper of `std::str::from_utf8`: it gives the text exactly when
/// the bytes are valid UTF-8, and the text is their decoding.
#[verifier::external_body]
fn utf8_str(bytes: &[u8]) -> (r: Option<&str>)
    ensures
        r is Some <==> valid_utf8(bytes@),
        r matches Some(s) ==> s@ == decode_utf8(bytes@),
{
    std::str::from_utf8(bytes).ok()
}

/// Read the eight-byte hex field that starts at byte `start` of `img`.
fn read_header_number(img: &[u8], start: usize) -> (r: Option<u32>)
    requires
        start + 8 <= img@.len(),
    ensures
        r matches Some(v) ==> header_number(img@.subrange(start as int, start + 8)) == Some(
            v as nat,
        ),
        r is None ==> header_number(img@.subrange(start as int, start + 8)) is None,
{
    let ghost f = img@.subrange(start as int, start + 8);
    assert(img@.len() == img.len());
    let plus = img[start] == 43;
    let i: usize = if plus { 1 } else { 0 };
    let ghost digits = f.subrange(i as int, 8);
    proof {
        lemma_pow16_mono(0, 8);
        assert(pow16(8) == 0x1_0000_0000) by {
            reveal_with_fuel(pow16, 9);
        }
        if plus {
            assert(f.drop_first() =~= digits);
        } else {
            assert(f =~= digits);
        }
    }
    let mut value: u32 = 0;
    let mut k: usize = i;
    while k < 8
        invariant
            i <= k <= 8,
            i <= 1,
            plus <==> i == 1,
            plus <==> f[0] == 43,
            start + 8 <= img@.len(),
            img@.len() == img.len(),
            f == img@.subrange(start as int, start + 8),
            digits == f.subrange(i as int, 8),
            pow16(8) == 0x1_0000_0000,
            all_hex(f.subrange(i as int, k as int)),
            value as nat == hex_value(f.subrange(i as int, k as int)),
            value < pow16(k - i),
        decreases 8 - k,
    {
        let b = img[start + k];
        assert(f[k as int] == b);
        assert(digits[k - i] == b);
        let d: u32 = if 48 <= b && b <= 57 {
            (b - 48) as u32
        } else if 65 <= b && b <= 70 {
            (b - 55) as u32
        } else if 97 <= b && b <= 102 {
            (b - 87) as u32
        } else {
            proof {
                assert(!all_hex(digits));
                if !plus {
                    assert(!all_hex(f));
                }
            }
            return None;
        };
        proof {
            let s = f.subrange(i as int, k + 1);
            assert(s.drop_last() =~= f.subrange(i as int, k as int));
            assert(s.last() == b);
            assert(all_hex(s)) by {
                assert forall|j: int| 0 <= j < s.len() implies is_hex_digit(#[trigger] s[j]) by {
                    if j < s.len() - 1 {
                        assert(s[j] == f.subrange(i as int, k as int)[j]);
                    }
                }
            }
            lemma_pow16_step((k - i) as nat);
            lemma_pow16_mono(k + 1 - i, 8);
        }
        assert(value * 16 + d < pow16(k + 1 - i)) by (nonlinear_arith)
            requires
                value < pow16(k - i),
                d < 16,
                pow16(k + 1 - i) == pow16(k - i) * 16,
        ;
        value = value * 16 + d;
        k = k + 1;
    }
    proof {
        if plus {
            assert(!is_hex_digit(f[0]));
            assert(!all_hex(f));
        }
    }
    Some(value)
}

/// `16^n`.
pub open spec fn pow16(n: int) -> int
    decreases n,
{
    if n <= 0 {
        1
    } else {
        16 * pow16(n - 1)
    }
}

proof fn lemma_pow16_step(n: nat)
    ensures
        pow16((n + 1) as int) == pow16(n as int) * 16,
{
}

proof fn lemma_pow16_mono(a: int, b: int)
    requires
        0 <= a <= b,
    ensures
        1 <= pow16(a) <= pow16(b),
    decreases b,
{
    if b > a {
        lemma_pow16_mono(a, b - 1);
    } else if a > 0 {
        lemma_pow16_mono(0, a - 1);
    }
}

/// Whether the first `len` characters of `s` start with `lit`.
fn has_prefix(s: &str, len: usize, lit: &str) -> (r: bool)
    requires
        len <= s@.len(),
    ensures
        r == lit@.is_prefix_of(s@.take(len as int)),
{
    let n = lit.unicode_len();
    if n > len {
        return false;
    }
    let ghost t = s@.take(len as int);
    let mut j: usize = 0;
    while j < n
        invariant
            j <= n,
            n == lit@.len(),
            n <= len,
            len <= s@.len(),
            t == s@.take(len as int),
            forall|q: int| 0 <= q < j ==> lit@[q] == t[q],
        decreases n - j,
    {
        if s.get_char(j) != lit.get_char(j) {
            assert(lit@[j as int] != t[j as int]);
            return false;
        }
        j = j + 1;
    }
    assert(lit@ =~= t.subrange(0, lit@.len() as int));
    true
}

/// The number of characters of `s` left once its trailing NULs are trimmed.
fn trimmed_len(s: &str) -> (k: usize)
    ensures
        k <= s@.len(),
        trim_nul(s@) == s@.take(k as int),
{
    let total = s.unicode_len();
    let mut k: usize = total;
    assert(s@.take(k as int) =~= s@);
    while k > 0 && s.get_char(k - 1) == '\0'
        invariant
            k <= total,
            total == s@.len(),
            trim_nul(s@) == trim_nul(s@.take(k as int)),
        decreases k,
    {
        assert(s@.take(k as int).drop_last() =~= s@.take(k - 1));
        k = k - 1;
    }
    proof {
        let t = s@.take(k as int);
        if k > 0 {
            assert(t.last() == s@[k - 1]);
        }
    }
    k
}

/// Padding that brings `n` up to a multiple of four.
fn pad_to_4(n: u64) -> (p: u64)
    ensures
        p as nat == pad4(n as nat),
        p <= 3,
{
    (4 - n % 4) % 4
}

/// Scan a newc-format CPIO archive image for a Hyperlight driver binary
/// and return its guest-absolute path (see [`cpio_scan`]).
pub fn find_cpio_entry(image: &[u8]) -> (r: Option<String>)
    ensures
        match r {
            Some(path) => cpio_scan(image@, 0) == Some(path@),
            None => cpio_scan(image@, 0) is None,
        },
{
    let len = image.len();
    assert(image@.len() == len);
    let mut pos: usize = 0;
    loop
        invariant
            pos <= len,
            len == image@.len(),
            cpio_scan(image@, 0) == cpio_scan(image@, pos as nat),
        decreases len - pos,
    {
        let ghost img = image@;
        if len - pos < HEADER_LEN {
            return None;
        }
        let ghost h = img.subrange(pos as int, pos + 110);
        if !(image[pos] == 48 && image[pos + 1] == 55 && image[pos + 2] == 48 && image[pos + 3]
            == 55 && image[pos + 4] == 48 && (image[pos + 5] == 49 || image[pos + 5] == 50)) {
            assert(!magic_ok(h));
            return None;
        }
        assert(magic_ok(h));
        assert(h.subrange(94, 102) =~= img.subrange(pos + 94, pos + 102));
        assert(h.subrange(54, 62) =~= img.subrange(pos + 54, pos + 62));
        let namesize = match read_header_number(image, pos + 94) {
            Some(v) => v,
            None => {
                return None;
            },
        };
        let filesize = match read_header_number(image, pos + 54) {
            Some(v) => v,
            None => {
                return None;
            },
        };
        let name_start = pos + HEADER_LEN;
        if namesize as usize > len - name_start {
            return None;
        }
        let name_end = name_start + namesize as usize;
        let raw = &image[name_start..name_end];
        let name = match utf8_str(raw) {
            Some(text) => text,
            None => {
                return None;
            },
        };
        let k = trimmed_len(name);
        let ghost trimmed = trim_nul(decode_utf8(raw@));
        proof {
            reveal_strlit("TRAILER!!!");
        }
        if k == 10 && has_prefix(name, k, "TRAILER!!!") {
            assert(trimmed =~= "TRAILER!!!"@);
            return None;
        }
        assert(trimmed != "TRAILER!!!"@);
        if has_prefix(name, k, "usr/local/bin/hl_") || has_prefix(name, k, "usr/bin/hl_") {
            let mut path = String::from_str("/");
            path.append(name.substring_char(0, k));
            assert(path@ =~= "/"@ + trimmed);
            return Some(path);
        }
        let name_pad = pad_to_4(HEADER_LEN as u64 + namesize as u64);
        let data_pad = pad_to_4(filesize as u64);
        let skip: u64 = name_pad + filesize as u64 + data_pad;
        let remaining = (len - name_end) as u64;
        if skip >= remaining {
            return None;
        }
        pos = name_end + skip as usize;
    }
}

/// The entry point a guest boots: the explicit one when given, else the
/// driver detected in the initrd image, else none.
pub open spec fn resolved_entry(entry: Option<Seq<char>>, initrd: Option<Seq<u8>>) -> Option<
    Seq<char>,
> {
    match entry {
        Some(e) => Some(e),
        None => match initrd {
            Some(img) => cpio_scan(img, 0),
            None => None,
        },
    }
}

/// Resolve the entry point: explicit value → auto-detected from the initrd
/// → None.
///
/// `initrd` is the initrd image, when one was given and could be read.
pub fn resolve_entry(entry: &Option<String>, initrd: &Option<Vec<u8>>) -> (r: Option<String>)
    ensures
        opt_str(r) == resolved_entry(
            opt_str(*entry),
            match initrd {
                Some(img) => Some(img@),
                None => None,
            },
        ),
{
    match entry {
        Some(e) => Some(e.clone()),
        None => match initrd {
            Some(img) => find_cpio_entry(img.as_slice()),
            None => None,
        },
    }
}

/// Whatever the scan finds is a guest-absolute driver path: `/` followed by
/// a name under `usr/local/bin/hl_` or `usr/bin/hl_`.
pub proof fn lemma_scan_finds_driver(img: Seq<u8>, pos: nat)
    ensures
        cpio_scan(img, pos) matches Some(path) ==> path.len() > 0 && path[0] == '/'
            && is_driver_name(path.drop_first()),
    decreases img.len() - pos,
{
    if pos + 110 <= img.len() {
        let h = img.subrange(pos as int, (pos + 110) as int);
        if magic_ok(h) {
            match (header_number(h.subrange(94, 102)), header_number(h.subrange(54, 62))) {
                (Some(namesize), Some(filesize)) => {
                    let name_end = pos + 110 + namesize;
                    if name_end <= img.len() {
                        let raw = img.subrange((pos + 110) as int, name_end as int);
                        if valid_utf8(raw) {
                            let name = trim_nul(decode_utf8(raw));
                            reveal_strlit("/");
                            if name != "TRAILER!!!"@ && is_driver_name(name) {
                                assert(("/"@ + name).drop_first() =~= name);
                            } else if name != "TRAILER!!!"@ {
                                let next = name_end + pad4(110 + namesize) + filesize + pad4(
                                    filesize,
                                );
                                if next < img.len() {
                                    lemma_scan_finds_driver(img, next);
                                }
                            }
                        }
                    }
                },
                _ => {},
            }
        }
    }
}

/// An explicit entry point always wins over detection in the initrd.
pub proof fn lemma_explicit_entry_wins(entry: Seq<char>, initrd: Option<Seq<u8>>)
    ensures
        resolved_entry(Some(entry), initrd) == Some(entry),
{
}

/// ASCII upper-casing of a byte string (letters `a`-`z` only).
pub open spec fn ascii_upper(s: Seq<u8>) -> Seq<u8> {
    Seq::new(s.len(), |i: int| if 97 <= s[i] <= 122 { (s[i] - 32) as u8 } else { s[i] })
}

/// Lower-case hex digits are digits, worth the same as their upper-case
/// forms: `a`..`f` are 10..15.
pub proof fn lemma_lowercase_hex_digits(b: u8)
    requires
        97 <= b <= 102,
    ensures
        is_hex_digit(b),
        is_hex_digit((b - 32) as u8),
        hex_digit_value(b) == b - 87,
        hex_digit_value(b) == hex_digit_value((b - 32) as u8),
{
}

proof fn lemma_upper_hex(s: Seq<u8>)
    ensures
        all_hex(ascii_upper(s)) == all_hex(s),
        all_hex(s) ==> hex_value(ascii_upper(s)) == hex_value(s),
    decreases s.len(),
{
    let u = ascii_upper(s);
    assert forall|i: int| 0 <= i < s.len() implies is_hex_digit(#[trigger] u[i]) == is_hex_digit(
        s[i],
    ) by {}
    if !all_hex(s) {
        let i = choose|i: int| 0 <= i < s.len() && !is_hex_digit(#[trigger] s[i]);
        assert(!is_hex_digit(u[i]));
    }
    if s.len() > 0 {
        lemma_upper_hex(s.drop_last());
        assert(ascii_upper(s.drop_last()) =~= u.drop_last());
        if all_hex(s) {
            assert(all_hex(s.drop_last()));
            assert(is_hex_digit(s.last()));
            assert(u.last() == u[s.len() - 1]);
        }
    }
}

/// Header fields are read without regard to case, as `from_str_radix(_,
/// 16)` reads them: a field and its upper-cased form give the same number
/// (so `0000000d` and `0000000D` both give 13), and a field of hex digits
/// in either case gives its base-16 value.
pub proof fn lemma_header_number_ignores_case(f: Seq<u8>)
    ensures
        header_number(f) == header_number(ascii_upper(f)),
        f.len() > 0 && (forall|i: int|
            0 <= i < f.len() ==> (48 <= #[trigger] f[i] <= 57) || (65 <= f[i] <= 70) || (97 <= f[i]
                <= 102)) ==> header_number(f) == Some(hex_value(f)),
{
    lemma_upper_hex(f);
    let u = ascii_upper(f);
    if f.len() > 1 {
        lemma_upper_hex(f.drop_first());
        assert(ascii_upper(f.drop_first()) =~= u.drop_first());
        assert(u[0] == 43 <==> f[0] == 43);
    }
    if f.len() > 0 && (forall|i: int|
        0 <= i < f.len() ==> (48 <= #[trigger] f[i] <= 57) || (65 <= f[i] <= 70) || (97 <= f[i]
            <= 102)) {
        assert(all_hex(f));
    }
}

/// The value of a hex field is the base-16 number its digits spell,
/// lower-case digits included: appending a digit multiplies by 16 and adds
/// the digit's value (`0`-`9` → 0-9, `A`-`F` and `a`-`f` → 10-15).
pub proof fn lemma_hex_value_digits(s: Seq<u8>, b: u8)
    requires
        (48 <= b <= 57) || (65 <= b <= 70) || (97 <= b <= 102),
    ensures
        hex_value(s.push(b)) == hex_value(s) * 16 + (if b <= 57 {
            b - 48
        } else if b <= 70 {
            b - 55
        } else {
            b - 87
        }),
{
    assert(s.push(b).drop_last() =~= s);
}

} // verus!
