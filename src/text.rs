//! Building the diagnostic lines and progress texts shown to the user.
use vstd::prelude::*;
use vstd::string::StringExecFns;

verus! {

/// `c` has the Unicode White_Space property.
pub open spec fn is_white_space(c: char) -> bool {
    let u = c as u32;
    ||| (0x9 <= u && u <= 0xD)
    ||| u == 0x20
    ||| u == 0x85
    ||| u == 0xA0
    ||| u == 0x1680
    ||| (0x2000 <= u && u <= 0x200A)
    ||| u == 0x2028
    ||| u == 0x2029
    ||| u == 0x202F
    ||| u == 0x205F
    ||| u == 0x3000
}

/// Every character of `s` is white space (so also an empty `s`).
pub open spec fn all_white_space(s: Seq<char>) -> bool {
    forall|k: int| 0 <= k < s.len() ==> is_white_space(#[trigger] s[k])
}

/// `r` is `s` without its leading and trailing white space.
pub open spec fn is_trim_of(r: Seq<char>, s: Seq<char>) -> bool {
    exists|i: int, j: int|
        {
            &&& 0 <= i <= j <= s.len()
            &&& r == s.subrange(i, j)
            &&& forall|k: int| 0 <= k < i ==> is_white_space(#[trigger] s[k])
            &&& forall|k: int| j <= k < s.len() ==> is_white_space(#[trigger] s[k])
            &&& (i < j ==> !is_white_space(s[i]) && !is_white_space(s[j - 1]))
        }
}

/// A trimmed text is empty exactly when the text was all white space.
pub proof fn lemma_trim_empty(r: Seq<char>, s: Seq<char>)
    requires
        is_trim_of(r, s),
    ensures
        r.len() == 0 <==> all_white_space(s),
{
    let (i, j) = choose|i: int, j: int|
        {
            &&& 0 <= i <= j <= s.len()
            &&& r == s.subrange(i, j)
            &&& forall|k: int| 0 <= k < i ==> is_white_space(#[trigger] s[k])
            &&& forall|k: int| j <= k < s.len() ==> is_white_space(#[trigger] s[k])
            &&& (i < j ==> !is_white_space(s[i]) && !is_white_space(s[j - 1]))
        };
    if r.len() == 0 {
        assert forall|k: int| 0 <= k < s.len() implies is_white_space(#[trigger] s[k]) by {
            if k >= i {
                assert(k >= j);
            }
        }
    }
    if all_white_space(s) && r.len() > 0 {
        assert(is_white_space(s[i]));
    }
}

/// Relies on `str::trim`: the text without leading and trailing white space,
/// white space being the characters with the Unicode White_Space property.
#[verifier::external_body]
pub(crate) fn trimmed(s: &str) -> (r: String)
    ensures
        is_trim_of(r@, s@),
{
    s.trim().to_string()
}

/// Relies on `String::push`: the character is appended at the end.
#[verifier::external_body]
pub(crate) fn push_char(s: &mut String, c: char)
    ensures
        final(s)@ == old(s)@.push(c),
{
    s.push(c);
}

/// Relies on `String::pop`: the last character is removed; an empty text
/// stays as it is.
#[verifier::external_body]
pub(crate) fn pop_char(s: &mut String)
    ensures
        old(s)@.len() > 0 ==> final(s)@ == old(s)@.drop_last(),
        old(s)@.len() == 0 ==> final(s)@ == old(s)@,
{
    s.pop();
}

pub fn join2(a: &str, b: &str) -> (r: String)
    ensures
        r@ == a@ + b@,
{
    let mut r = String::from_str(a);
    r.append(b);
    r
}

pub fn join3(a: &str, b: &str, c: &str) -> (r: String)
    ensures
        r@ == a@ + b@ + c@,
{
    let mut r = String::from_str(a);
    r.append(b);
    r.append(c);
    r
}

pub fn join4(a: &str, b: &str, c: &str, d: &str) -> (r: String)
    ensures
        r@ == a@ + b@ + c@ + d@,
{
    let mut r = String::from_str(a);
    r.append(b);
    r.append(c);
    r.append(d);
    r
}

pub fn join5(a: &str, b: &str, c: &str, d: &str, e: &str) -> (r: String)
    ensures
        r@ == a@ + b@ + c@ + d@ + e@,
{
    let mut r = String::from_str(a);
    r.append(b);
    r.append(c);
    r.append(d);
    r.append(e);
    r
}

/// The text of one decimal digit.
pub open spec fn digit_text(d: nat) -> Seq<char> {
    if d == 0 {
        "0"@
    } else if d == 1 {
        "1"@
    } else if d == 2 {
        "2"@
    } else if d == 3 {
        "3"@
    } else if d == 4 {
        "4"@
    } else if d == 5 {
        "5"@
    } else if d == 6 {
        "6"@
    } else if d == 7 {
        "7"@
    } else if d == 8 {
        "8"@
    } else {
        "9"@
    }
}

/// The decimal notation of `n`, without leading zeros.
pub open spec fn decimal_text(n: nat) -> Seq<char>
    decreases n,
{
    if n < 10 {
        digit_text(n)
    } else {
        decimal_text(n / 10) + digit_text(n % 10)
    }
}

fn digit_str(d: usize) -> (r: &'static str)
    requires
        d < 10,
    ensures
        r@ == digit_text(d as nat),
{
    if d == 0 {
        "0"
    } else if d == 1 {
        "1"
    } else if d == 2 {
        "2"
    } else if d == 3 {
        "3"
    } else if d == 4 {
        "4"
    } else if d == 5 {
        "5"
    } else if d == 6 {
        "6"
    } else if d == 7 {
        "7"
    } else if d == 8 {
        "8"
    } else {
        "9"
    }
}

/// Writes `n` in decimal.
pub fn decimal(n: usize) -> (r: String)
    ensures
        r@ == decimal_text(n as nat),
    decreases n,
{
    if n < 10 {
        String::from_str(digit_str(n))
    } else {
        let mut r = decimal(n / 10);
        r.append(digit_str(n % 10));
        r
    }
}

/// `true` or `false`.
pub open spec fn bool_text(b: bool) -> Seq<char> {
    if b {
        "true"@
    } else {
        "false"@
    }
}

pub fn bool_str(b: bool) -> (r: &'static str)
    ensures
        r@ == bool_text(b),
{
    if b {
        "true"
    } else {
        "false"
    }
}

} // verus!
