use vstd::prelude::*;

verus! {

/// `s` with every trailing `c` removed.
pub open spec fn trim_end_char(s: Seq<char>, c: char) -> Seq<char>
    decreases s.len(),
{
    if s.len() > 0 && s.last() == c {
        trim_end_char(s.drop_last(), c)
    } else {
        s
    }
}

/// The decimal digits of `n`, most significant first, with no leading zero.
pub open spec fn decimal(n: nat) -> Seq<char>
    decreases n,
{
    if n < 10 {
        seq![digit_char(n)]
    } else {
        decimal(n / 10).push(digit_char(n % 10))
    }
}

/// The lowest `width` hexadecimal digits of `n`, lower case, most significant first.
pub open spec fn hex_fixed(n: nat, width: nat) -> Seq<char>
    decreases width,
{
    if width == 0 {
        Seq::empty()
    } else {
        hex_fixed(n / 16, (width - 1) as nat).push(digit_char(n % 16))
    }
}

/// The lower-case digit of value `d`, for `d < 16`.
pub open spec fn digit_char(d: nat) -> char {
    "0123456789abcdef"@[d as int]
}

/// A character as it appears in an error code: ASCII letters in upper case, `-` as `_`.
pub open spec fn upper_snake_char(c: char) -> char {
    if 97 <= (c as u32) <= 122 {
        ((c as u32) - 32) as char
    } else if c == '-' {
        '_'
    } else {
        c
    }
}

/// `s` as it appears in an error code.
pub open spec fn upper_snake(s: Seq<char>) -> Seq<char> {
    s.map_values(|c: char| upper_snake_char(c))
}

/// Calls `ToString::to_string` on a `char`; the standard library documents that a
/// character displays as itself, so the string holds exactly that one character.
#[verifier::external_body]
pub(crate) fn char_to_string(c: char) -> (r: String)
    ensures
        r@ == seq![c],
{
    c.to_string()
}

/// Whether `s` starts with `prefix`, comparing characters.
pub fn starts_with(s: &str, prefix: &str) -> (b: bool)
    ensures
        b == prefix@.is_prefix_of(s@),
{
    let n = prefix.unicode_len();
    let m = s.unicode_len();
    if n > m {
        return false;
    }
    let mut i: usize = 0;
    while i < n
        invariant
            n == prefix@.len(),
            m == s@.len(),
            n <= m,
            i <= n,
            forall|j: int| 0 <= j < i ==> prefix@[j] == s@[j],
        decreases n - i,
    {
        if prefix.get_char(i) != s.get_char(i) {
            return false;
        }
        i = i + 1;
    }
    true
}

/// `s` with every trailing `/` removed.
pub fn trim_end_slashes(s: &str) -> (r: &str)
    ensures
        r@ == trim_end_char(s@, '/'),
{
    let mut k = s.unicode_len();
    assert(s@.subrange(0, k as int) =~= s@);
    while k > 0 && s.get_char(k - 1) == '/'
        invariant
            k <= s@.len(),
            trim_end_char(s@, '/') == trim_end_char(s@.subrange(0, k as int), '/'),
        decreases k,
    {
        assert(s@.subrange(0, k as int).drop_last() =~= s@.subrange(0, k - 1));
        k = k - 1;
    }
    assert(s@.subrange(0, k as int) == trim_end_char(s@.subrange(0, k as int), '/'));
    s.substring_char(0, k)
}

/// The single digit of value `d` as a string.
fn digit_str(d: usize) -> (r: &'static str)
    requires
        d < 16,
    ensures
        r@ == seq![digit_char(d as nat)],
{
    let digits = "0123456789abcdef";
    proof {
        reveal_strlit("0123456789abcdef");
    }
    let r = digits.substring_char(d, d + 1);
    assert(r@ =~= seq![digit_char(d as nat)]);
    r
}

/// `n` written in decimal.
pub fn decimal_string(n: u64) -> (r: String)
    ensures
        r@ == decimal(n as nat),
{
    let mut out = String::new();
    let mut rest = n;
    while rest >= 10
        invariant
            decimal(n as nat) == decimal(rest as nat) + out@,
        decreases rest,
    {
        let d = (rest % 10) as usize;
        let piece = digit_str(d);
        assert(decimal(rest as nat) == decimal((rest / 10) as nat).push(digit_char((rest % 10) as nat)));
        assert(decimal((rest / 10) as nat).push(digit_char((rest % 10) as nat)) + out@
            =~= decimal((rest / 10) as nat) + (piece@ + out@));
        out = String::from_str(piece).concat(out.as_str());
        rest = rest / 10;
    }
    let piece = digit_str(rest as usize);
    assert(decimal(rest as nat) == piece@);
    String::from_str(piece).concat(out.as_str())
}

/// The lowest `width` hexadecimal digits of `n`, lower case, zero padded.
pub fn hex_fixed_string(n: u64, width: usize) -> (r: String)
    ensures
        r@ == hex_fixed(n as nat, width as nat),
{
    let mut out = String::new();
    let mut rest = n;
    let mut i: usize = 0;
    while i < width
        invariant
            i <= width,
            hex_fixed(n as nat, width as nat) == hex_fixed(rest as nat, (width - i) as nat) + out@,
        decreases width - i,
    {
        let piece = digit_str((rest % 16) as usize);
        let ghost w = (width - i) as nat;
        assert(hex_fixed(rest as nat, w) == hex_fixed((rest / 16) as nat, (w - 1) as nat).push(
            digit_char((rest % 16) as nat),
        ));
        assert(hex_fixed((rest / 16) as nat, (w - 1) as nat).push(digit_char((rest % 16) as nat))
            + out@ =~= hex_fixed((rest / 16) as nat, (w - 1) as nat) + (piece@ + out@));
        out = String::from_str(piece).concat(out.as_str());
        rest = rest / 16;
        i = i + 1;
    }
    assert(hex_fixed(rest as nat, 0) + out@ =~= out@);
    out
}

} // verus!
