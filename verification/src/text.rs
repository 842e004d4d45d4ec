//! Text helpers: decimal rendering of status codes, ASCII-case-insensitive
//! comparison for the exit sentinel, and whitespace trimming of user input.

use vstd::prelude::*;
use vstd::string::StrSliceExecFns;
use vstd::string::StringExecFns;

verus! {

/// The decimal digit character for a value below ten.
pub open spec fn digit_char(d: int) -> char {
    if d == 0 {
        '0'
    } else if d == 1 {
        '1'
    } else if d == 2 {
        '2'
    } else if d == 3 {
        '3'
    } else if d == 4 {
        '4'
    } else if d == 5 {
        '5'
    } else if d == 6 {
        '6'
    } else if d == 7 {
        '7'
    } else if d == 8 {
        '8'
    } else {
        '9'
    }
}

/// The usual decimal rendering of a natural number, most significant
/// digit first, with no leading zeros (zero itself renders as "0").
pub open spec fn dec_str(n: nat) -> Seq<char>
    decreases n,
{
    if n < 10 {
        seq![digit_char(n as int)]
    } else {
        dec_str(n / 10).push(digit_char((n % 10) as int))
    }
}

fn digit_str(d: u16) -> (r: &'static str)
    requires
        d < 10,
    ensures
        r@ == seq![digit_char(d as int)],
{
    proof {
        reveal_strlit("0");
        reveal_strlit("1");
        reveal_strlit("2");
        reveal_strlit("3");
        reveal_strlit("4");
        reveal_strlit("5");
        reveal_strlit("6");
        reveal_strlit("7");
        reveal_strlit("8");
        reveal_strlit("9");
        assert("0"@ =~= seq!['0']);
        assert("1"@ =~= seq!['1']);
        assert("2"@ =~= seq!['2']);
        assert("3"@ =~= seq!['3']);
        assert("4"@ =~= seq!['4']);
        assert("5"@ =~= seq!['5']);
        assert("6"@ =~= seq!['6']);
        assert("7"@ =~= seq!['7']);
        assert("8"@ =~= seq!['8']);
        assert("9"@ =~= seq!['9']);
    }
    match d {
        0 => "0",
        1 => "1",
        2 => "2",
        3 => "3",
        4 => "4",
        5 => "5",
        6 => "6",
        7 => "7",
        8 => "8",
        _ => "9",
    }
}

/// Appends the decimal rendering of `n` to `s`.
pub fn push_dec_u16(s: &mut String, n: u16)
    ensures
        final(s)@ == old(s)@ + dec_str(n as nat),
    decreases n,
{
    if n >= 10 {
        push_dec_u16(s, n / 10);
    }
    let d = digit_str(n % 10);
    s.append(d);
    proof {
        if n < 10 {
            assert(old(s)@ + seq![digit_char((n % 10) as int)] =~= old(s)@ + dec_str(
                n as nat,
            ));
        } else {
            assert((old(s)@ + dec_str((n / 10) as nat)) + seq![digit_char((n % 10) as int)]
                =~= old(s)@ + dec_str(n as nat));
        }
    }
}

/// The decimal rendering of `n` as an owned string.
pub fn u16_to_dec(n: u16) -> (r: String)
    ensures
        r@ == dec_str(n as nat),
{
    let mut s = String::new();
    push_dec_u16(&mut s, n);
    proof {
        assert(Seq::<char>::empty() + dec_str(n as nat) =~= dec_str(n as nat));
    }
    s
}

/// A character's code point, with ASCII upper-case letters folded to
/// their lower-case counterparts; all other characters are unchanged.
pub open spec fn fold_ascii(c: char) -> int {
    if 'A' as u32 <= c as u32 && c as u32 <= 'Z' as u32 {
        c as u32 + 32
    } else {
        c as u32 as int
    }
}

/// Equality of character sequences up to ASCII case.
pub open spec fn eq_ignore_ascii_case_seq(a: Seq<char>, b: Seq<char>) -> bool {
    &&& a.len() == b.len()
    &&& forall|i: int| 0 <= i < a.len() ==> #[trigger] fold_ascii(a[i]) == fold_ascii(b[i])
}

fn fold_ascii_exec(c: char) -> (r: u32)
    ensures
        r as int == fold_ascii(c),
{
    let v = c as u32;
    if 'A' as u32 <= v && v <= 'Z' as u32 {
        v + 32
    } else {
        v
    }
}

/// Whether two strings hold the same characters up to ASCII case.
pub fn str_eq_ignore_ascii_case(a: &str, b: &str) -> (r: bool)
    ensures
        r == eq_ignore_ascii_case_seq(a@, b@),
{
    let alen = a.unicode_len();
    let blen = b.unicode_len();
    if alen != blen {
        return false;
    }
    let mut i: usize = 0;
    while i < alen
        invariant
            alen == a@.len(),
            blen == b@.len(),
            alen == blen,
            i <= alen,
            forall|j: int| 0 <= j < i ==> #[trigger] fold_ascii(a@[j]) == fold_ascii(b@[j]),
        decreases alen - i,
    {
        let ca = a.get_char(i);
        let cb = b.get_char(i);
        if fold_ascii_exec(ca) != fold_ascii_exec(cb) {
            return false;
        }
        i = i + 1;
    }
    true
}

/// The input that ends the conversation: the sentinel "!exit", compared
/// without regard to ASCII case.
pub open spec fn is_exit_input(s: Seq<char>) -> bool {
    eq_ignore_ascii_case_seq(s, "!exit"@)
}

/// Whether `s` is the exit sentinel, up to ASCII case.
pub fn is_exit_command(s: &str) -> (r: bool)
    ensures
        r == is_exit_input(s@),
{
    str_eq_ignore_ascii_case(s, "!exit")
}

/// What `str::trim` returns: the characters alone determine it.
pub uninterp spec fn trimmed_of(s: Seq<char>) -> Seq<char>;

/// Whether `part` occurs in `whole` as one contiguous run of characters.
pub open spec fn is_contiguous_substring(part: Seq<char>, whole: Seq<char>) -> bool {
    exists|a: int, b: int| 0 <= a <= b <= whole.len() && part == whole.subrange(a, b)
}

/// Relies on str::trim: returns the input with leading and trailing
/// whitespace removed — a contiguous substring of the input, determined
/// by the characters alone.
#[verifier::external_body]
pub fn trim_text<'a>(s: &'a str) -> (r: &'a str)
    ensures
        r@ == trimmed_of(s@),
        r@.len() <= s@.len(),
        s@.len() == 0 ==> r@.len() == 0,
        is_contiguous_substring(r@, s@),
{
    s.trim()
}

} // verus!

