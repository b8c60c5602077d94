use vstd::prelude::*;

verus! {

use vstd::string::StringSliceAdditionalSpecFns;
use vstd::string::StrSliceExecFns;

/// The character of a decimal digit.
pub open spec fn digit_char(d: nat) -> char {
    if d == 0 {
        '0'
    } else if d == 1 {
        '1'
    } else if d == 2 {
        '2'
    } else if d == 3 {
        '3'
    } else if d == 4 {
        '4'
    } else if d == 5 {
        '5'
    } else if d == 6 {
        '6'
    } else if d == 7 {
        '7'
    } else if d == 8 {
        '8'
    } else {
        '9'
    }
}

/// The decimal representation of `n`, without leading zeros.
pub open spec fn decimal(n: nat) -> Seq<char>
    decreases n,
{
    if n < 10 {
        seq![digit_char(n)]
    } else {
        decimal(n / 10).push(digit_char(n % 10))
    }
}

fn digit_str(d: u32) -> (r: &'static str)
    requires
        d < 10,
    ensures
        r@ == seq![digit_char(d as nat)],
{
    proof {
        reveal_strlit("0");
        reveal_strlit("1");
        reveal_strlit("2");
        reveal_strlit("3");
        reveal_strlit("4");
        reveal_strlit("5");
        reveal_strlit("6");
        reveal_strlit("7");
        reveal_strlit("8");
        reveal_strlit("9");
    }
    match d {
        0 => "0",
        1 => "1",
        2 => "2",
        3 => "3",
        4 => "4",
        5 => "5",
        6 => "6",
        7 => "7",
        8 => "8",
        _ => "9",
    }
}

/// Format `n` in decimal.
pub fn decimal_string(n: u32) -> (r: String)
    ensures
        r@ == decimal(n as nat),
    decreases n,
{
    if n < 10 {
        String::from_str(digit_str(n))
    } else {
        let head = decimal_string(n / 10);
        let r = head.concat(digit_str(n % 10));
        assert(r@ =~= decimal(n as nat));
        r
    }
}

/// The UTF-16 code units of one character.
pub open spec fn utf16_units(c: char) -> Seq<u16> {
    let v = c as u32;
    if v < 0x10000 {
        seq![v as u16]
    } else {
        let w = (v - 0x10000) as u32;
        seq![(0xD800 + w / 0x400) as u16, (0xDC00 + w % 0x400) as u16]
    }
}

/// The UTF-16 encoding of a text.
pub open spec fn utf16_of(s: Seq<char>) -> Seq<u16>
    decreases s.len(),
{
    if s.len() == 0 {
        Seq::empty()
    } else {
        utf16_of(s.drop_last()) + utf16_units(s.last())
    }
}

proof fn lemma_utf16_prefix(s: Seq<char>, k: int, n: int)
    requires
        0 <= k <= n == s.len(),
    ensures
        utf16_of(s.subrange(0, k)).len() <= utf16_of(s).len(),
        utf16_of(s).subrange(0, utf16_of(s.subrange(0, k)).len() as int) == utf16_of(
            s.subrange(0, k),
        ),
    decreases n - k,
{
    if k < n {
        lemma_utf16_prefix(s, k + 1, n);
        let a = s.subrange(0, k);
        let b = s.subrange(0, k + 1);
        assert(b.drop_last() =~= a);
        let ua = utf16_of(a);
        let ub = utf16_of(b);
        assert(ub.subrange(0, ua.len() as int) =~= ua);
        assert(utf16_of(s).subrange(0, ua.len() as int) =~= ub.subrange(0, ua.len() as int));
    } else {
        assert(s.subrange(0, n) =~= s);
        assert(utf16_of(s).subrange(0, utf16_of(s).len() as int) =~= utf16_of(s));
    }
}

/// Copy the bytes of `src` into the front of `dst` when they fit with room
/// to spare; otherwise leave `dst` as it is.
pub fn strcpy(src: &str, dst: &mut [i8])
    ensures
        final(dst)@.len() == old(dst)@.len(),
        src.spec_bytes().len() < old(dst)@.len() ==> forall|i: int|
            0 <= i < old(dst)@.len() ==> #[trigger] final(dst)@[i] == if i
                < src.spec_bytes().len() {
                src.spec_bytes()[i] as i8
            } else {
                old(dst)@[i]
            },
        src.spec_bytes().len() >= old(dst)@.len() ==> final(dst)@ == old(dst)@,
{
    let bytes = src.as_bytes();
    if bytes.len() >= dst.len() {
        return ;
    }
    let mut i: usize = 0;
    while i < bytes.len()
        invariant
            bytes@ == src.spec_bytes(),
            i <= bytes@.len(),
            bytes@.len() < dst@.len(),
            dst@.len() == old(dst)@.len(),
            forall|j: int|
                0 <= j < dst@.len() ==> #[trigger] dst@[j] == if j < i {
                    bytes@[j] as i8
                } else {
                    old(dst)@[j]
                },
        decreases bytes@.len() - i,
    {
        dst[i] = bytes[i] as i8;
        i = i + 1;
    }
}

/// Write the UTF-16 encoding of `src` into the front of `dst`, cut off at
/// the end of `dst`; the rest of `dst` is left as it is.
pub fn u16strcpy(src: &str, dst: &mut [i16])
    ensures
        final(dst)@.len() == old(dst)@.len(),
        forall|i: int|
            0 <= i < old(dst)@.len() ==> #[trigger] final(dst)@[i] == if i < utf16_of(
                src@,
            ).len() {
                #[verifier::truncate] (utf16_of(src@)[i] as i16)
            } else {
                old(dst)@[i]
            },
{
    let ghost units = utf16_of(src@);
    let n = src.unicode_len();
    let mut k: usize = 0;
    let mut pos: usize = 0;
    while k < n && pos < dst.len()
        invariant
            n == src@.len(),
            k <= n,
            units == utf16_of(src@),
            pos == (if utf16_of(src@.subrange(0, k as int)).len() <= dst@.len() {
                utf16_of(src@.subrange(0, k as int)).len()
            } else {
                dst@.len() as nat
            }),
            dst@.len() == old(dst)@.len(),
            forall|j: int|
                0 <= j < dst@.len() ==> #[trigger] dst@[j] == if j < pos {
                    #[verifier::truncate] (utf16_of(src@.subrange(0, k as int))[j] as i16)
                } else {
                    old(dst)@[j]
                },
        decreases n - k,
    {
        let ghost before = src@.subrange(0, k as int);
        let ghost after = src@.subrange(0, k + 1);
        let c = src.get_char(k);
        proof {
            assert(after.drop_last() =~= before);
            assert(utf16_of(after) == utf16_of(before) + utf16_units(c));
        }
        let v = c as u32;
        if v < 0x10000 {
            dst[pos] = #[verifier::truncate] (v as u16 as i16);
            pos = pos + 1;
        } else {
            let w = v - 0x10000;
            dst[pos] = #[verifier::truncate] ((0xD800 + w / 0x400) as u16 as i16);
            pos = pos + 1;
            if pos < dst.len() {
                dst[pos] = #[verifier::truncate] ((0xDC00 + w % 0x400) as u16 as i16);
                pos = pos + 1;
            }
        }
        k = k + 1;
    }
    proof {
        lemma_utf16_prefix(src@, k as int, n as int);
        let prefix = utf16_of(src@.subrange(0, k as int));
        if k == n {
            assert(src@.subrange(0, k as int) =~= src@);
        } else {
            assert forall|j: int| 0 <= j < dst@.len() implies #[trigger] dst@[j] == (if j
                < units.len() {
                #[verifier::truncate] (units[j] as i16)
            } else {
                old(dst)@[j]
            }) by {
                assert(units.subrange(0, prefix.len() as int)[j] == units[j]);
            }
        }
    }
}

} // verus!
