//! Text helpers: substring search over character sequences, trimming, and
//! terminal decoration.
use colored::Colorize;
use vstd::prelude::*;
use vstd::string::StrSliceExecFns;

verus! {

/// `needle` occurs in `hay` starting at position `at`.
pub open spec fn occurs_at(hay: Seq<char>, needle: Seq<char>, at: int) -> bool {
    0 <= at && at + needle.len() <= hay.len() && hay.subrange(at, at + needle.len()) == needle
}

/// `needle` occurs somewhere in `hay`.
pub open spec fn has_text(hay: Seq<char>, needle: Seq<char>) -> bool {
    exists|at: int| occurs_at(hay, needle, at)
}

/// The escape character that starts a terminal control sequence.
pub open spec fn esc() -> char {
    '\x1b'
}

/// The control sequence that resets all terminal styling.
pub open spec fn reset_sequence() -> Seq<char> {
    seq!['\x1b', '[', '0', 'm']
}

/// `shown` is `plain` as the terminal decoration renders it with the style
/// parameters `style`: unchanged when colouring is off, or framed by the style
/// sequence `ESC [ style m` and a reset when it is on. Nothing is promised of
/// text that already holds a reset sequence.
pub open spec fn decorated(plain: Seq<char>, style: Seq<char>, shown: Seq<char>) -> bool {
    !has_text(plain, reset_sequence()) ==> (shown == plain || shown == seq![esc(), '['] + style + seq!['m'] + plain
        + reset_sequence())
}

/// The style parameters of bold bright blue text.
pub open spec fn tag_style() -> Seq<char> {
    seq!['1', ';', '9', '4']
}

/// The style parameters of bold bright green text.
pub open spec fn name_style() -> Seq<char> {
    seq!['1', ';', '9', '2']
}

/// The style parameters of bold underlined text.
pub open spec fn heading_style() -> Seq<char> {
    seq!['1', ';', '4']
}

/// Whether `c` has the Unicode `White_Space` property, which is what
/// `char::is_whitespace` tests.
pub open spec fn is_white_space(c: char) -> bool {
    let u = c as u32;
    (0x9 <= u <= 0xd) || u == 0x20 || u == 0x85 || u == 0xa0 || u == 0x1680 || (0x2000 <= u
        <= 0x200a) || u == 0x2028 || u == 0x2029 || u == 0x202f || u == 0x205f || u == 0x3000
}

/// `s` without its leading whitespace.
pub open spec fn trim_start(s: Seq<char>) -> Seq<char>
    decreases s.len(),
{
    if s.len() > 0 && is_white_space(s[0]) {
        trim_start(s.drop_first())
    } else {
        s
    }
}

/// `s` without its trailing whitespace.
pub open spec fn trim_end(s: Seq<char>) -> Seq<char>
    decreases s.len(),
{
    if s.len() > 0 && is_white_space(s.last()) {
        trim_end(s.drop_last())
    } else {
        s
    }
}

/// `s` without its leading and trailing whitespace.
pub open spec fn trimmed(s: Seq<char>) -> Seq<char> {
    trim_end(trim_start(s))
}

/// Whether `c` has the Unicode `White_Space` property.
fn is_white_space_char(c: char) -> (r: bool)
    ensures
        r == is_white_space(c),
{
    let u = c as u32;
    (0x9 <= u && u <= 0xd) || u == 0x20 || u == 0x85 || u == 0xa0 || u == 0x1680 || (0x2000 <= u
        && u <= 0x200a) || u == 0x2028 || u == 0x2029 || u == 0x202f || u == 0x205f || u == 0x3000
}

/// Dropping the whitespace before `a` from `s` from any `k <= a` on leaves
/// `s` from `a` on, when `a` is the end or holds no whitespace.
proof fn lemma_trim_start(s: Seq<char>, k: int, a: int)
    requires
        0 <= k <= a <= s.len(),
        forall|j: int| k <= j < a ==> is_white_space(#[trigger] s[j]),
        a < s.len() ==> !is_white_space(s[a]),
    ensures
        trim_start(s.subrange(k, s.len() as int)) == s.subrange(a, s.len() as int),
    decreases a - k,
{
    let t = s.subrange(k, s.len() as int);
    if k < a {
        assert(t.drop_first() =~= s.subrange(k + 1, s.len() as int));
        lemma_trim_start(s, k + 1, a);
    } else if a < s.len() {
        assert(t[0] == s[a]);
    }
}

/// Dropping the whitespace after `b` from `s` up to any `m >= b` leaves `s`
/// from `a` up to `b`, when `b` is `a` or follows a non-whitespace character.
proof fn lemma_trim_end(s: Seq<char>, a: int, b: int, m: int)
    requires
        0 <= a <= b <= m <= s.len(),
        forall|j: int| b <= j < m ==> is_white_space(#[trigger] s[j]),
        a < b ==> !is_white_space(s[b - 1]),
    ensures
        trim_end(s.subrange(a, m)) == s.subrange(a, b),
    decreases m - b,
{
    let t = s.subrange(a, m);
    if b < m {
        assert(t.drop_last() =~= s.subrange(a, m - 1));
        assert(t.last() == s[m - 1]);
        lemma_trim_end(s, a, b, m - 1);
    } else if a < b {
        assert(t.last() == s[b - 1]);
    }
}

/// `s` without its leading and trailing whitespace, as `str::trim` gives it.
pub fn trim_text(s: &str) -> (r: &str)
    ensures
        r@ == trimmed(s@),
{
    let len = s.unicode_len();
    let mut a: usize = 0;
    while a < len && is_white_space_char(s.get_char(a))
        invariant
            len == s@.len(),
            a <= len,
            forall|j: int| 0 <= j < a ==> is_white_space(#[trigger] s@[j]),
        decreases len - a,
    {
        a = a + 1;
    }
    let mut b: usize = len;
    while b > a && is_white_space_char(s.get_char(b - 1))
        invariant
            len == s@.len(),
            a <= b <= len,
            forall|j: int| b <= j < len ==> is_white_space(#[trigger] s@[j]),
        decreases b - a,
    {
        b = b - 1;
    }
    proof {
        lemma_trim_start(s@, 0, a as int);
        assert(s@.subrange(0, len as int) =~= s@);
        lemma_trim_end(s@, a as int, b as int, len as int);
    }
    s.substring_char(a, b)
}

/// Relies on colored's `Colorize::bold` and `Colorize::bright_blue`, rendered
/// through `ColoredString`'s `Display`: the text is left as it is when colouring
/// is off, and framed by `ESC[1;94m` and `ESC[0m` when it is on.
#[verifier::external_body]
pub(crate) fn paint_tag(s: &str) -> (r: String)
    ensures
        decorated(s@, tag_style(), r@),
{
    s.bold().bright_blue().to_string()
}

/// Relies on colored's `Colorize::bold` and `Colorize::bright_green`, rendered
/// through `ColoredString`'s `Display`: the text is left as it is when colouring
/// is off, and framed by `ESC[1;92m` and `ESC[0m` when it is on.
#[verifier::external_body]
pub(crate) fn paint_name(s: &str) -> (r: String)
    ensures
        decorated(s@, name_style(), r@),
{
    s.bold().bright_green().to_string()
}

/// Relies on colored's `Colorize::bold` and `Colorize::underline`, rendered
/// through `ColoredString`'s `Display`: the text is left as it is when colouring
/// is off, and framed by `ESC[1;4m` and `ESC[0m` when it is on.
#[verifier::external_body]
pub(crate) fn paint_heading(s: &str) -> (r: String)
    ensures
        decorated(s@, heading_style(), r@),
{
    s.bold().underline().to_string()
}

} // verus!
