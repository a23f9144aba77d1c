//! Filling the parameters of a capability template, which the `term` crate
//! does, and the templates that may be handed to it.

use vstd::prelude::*;

verus! {

/// The most arithmetic steps (`%+`, `%-`, `%i`) that a template may hold.
pub const MAX_GROWTH: usize = 12;

/// The largest number that may be handed to a template as a parameter.
pub const MAX_PARAM: i32 = 0xFFFF;

/// The bytes of a capability template filled with numeric parameters, as
/// `term::terminfo::parm::expand` computes them with fresh variables; `None`
/// where it reports an error.
pub uninterp spec fn expanded(cap: Seq<u8>, params: Seq<i32>) -> Option<Seq<u8>>;

/// Whether a byte is an ASCII digit.
pub open spec fn is_digit(b: u8) -> bool {
    0x30 <= b <= 0x39
}

/// The operators that may follow a `%` in a template: those that can
/// neither divide nor multiply. These are
/// `% c p P g ' { l & | ^ = > < A O ! ~ i d o x X s ? ; t e + -`.
pub open spec fn op_allowed(b: u8) -> bool {
    ||| b == 0x25  // %
    ||| b == 0x63  // c
    ||| b == 0x70  // p
    ||| b == 0x50  // P
    ||| b == 0x67  // g
    ||| b == 0x27  // '
    ||| b == 0x7b  // {
    ||| b == 0x6c  // l
    ||| b == 0x26  // &
    ||| b == 0x7c  // |
    ||| b == 0x5e  // ^
    ||| b == 0x3d  // =
    ||| b == 0x3e  // >
    ||| b == 0x3c  // <
    ||| b == 0x41  // A
    ||| b == 0x4f  // O
    ||| b == 0x21  // !
    ||| b == 0x7e  // ~
    ||| b == 0x69  // i
    ||| b == 0x64  // d
    ||| b == 0x6f  // o
    ||| b == 0x78  // x
    ||| b == 0x58  // X
    ||| b == 0x73  // s
    ||| b == 0x3f  // ?
    ||| b == 0x3b  // ;
    ||| b == 0x74  // t
    ||| b == 0x65  // e
    ||| b == 0x2b  // +
    ||| b == 0x2d  // -
}

/// The operators that can make a number larger in magnitude: `+`, `-` and
/// `i`. Each at most doubles the largest magnitude seen so far.
pub open spec fn op_grows(b: u8) -> bool {
    b == 0x2b || b == 0x2d || b == 0x69
}

/// The bytes that open a format with flags, a width or a precision after
/// a `%`: the colon, `#`, the blank, the dot and the digits.
pub open spec fn opens_format(b: u8) -> bool {
    b == 0x3a || b == 0x23 || b == 0x20 || b == 0x2e || is_digit(b)
}

/// The bytes that end a format: `d o x X s`.
pub open spec fn ends_format(b: u8) -> bool {
    b == 0x64 || b == 0x6f || b == 0x78 || b == 0x58 || b == 0x73
}

/// Whether the format that opens at index `j` is a short one: it ends
/// within the four bytes after `j`, or the template ends before that. A
/// short format holds at most four digits, so that its width and its
/// precision stay below ten thousand.
pub open spec fn format_is_short(cap: Seq<u8>, j: int) -> bool {
    ||| j + 4 >= cap.len()
    ||| ends_format(cap[j + 1])
    ||| ends_format(cap[j + 2])
    ||| ends_format(cap[j + 3])
    ||| ends_format(cap[j + 4])
}

/// Whether six digits stand in a row from index `j` on.
pub open spec fn six_digits_at(cap: Seq<u8>, j: int) -> bool {
    &&& j + 5 < cap.len()
    &&& is_digit(cap[j])
    &&& is_digit(cap[j + 1])
    &&& is_digit(cap[j + 2])
    &&& is_digit(cap[j + 3])
    &&& is_digit(cap[j + 4])
    &&& is_digit(cap[j + 5])
}

/// What must hold at index `i` of a template if a `%` stands there: the
/// byte after it is an allowed operator or opens a short format, a
/// parameter is not numbered `0`, and an integer constant has at most five
/// digits.
pub open spec fn percent_ok(cap: Seq<u8>, i: int) -> bool {
    (0 <= i < cap.len() && cap[i] == 0x25 && i + 1 < cap.len()) ==> {
        &&& op_allowed(cap[i + 1]) || (opens_format(cap[i + 1]) && format_is_short(cap, i + 1))
        &&& (cap[i + 1] == 0x70 && i + 2 < cap.len()) ==> cap[i + 2] != 0x30
        &&& cap[i + 1] == 0x7b ==> !six_digits_at(cap, i + 2)
    }
}

/// Whether a `%` with a growing operator after it stands at index `i`.
pub open spec fn grows_at(cap: Seq<u8>, i: int) -> bool {
    0 <= i && i + 1 < cap.len() && cap[i] == 0x25 && op_grows(cap[i + 1])
}

/// How many indices below `n` hold a `%` with a growing operator after it.
pub open spec fn growth_count(cap: Seq<u8>, n: int) -> nat
    decreases n,
{
    if n <= 0 {
        0
    } else {
        growth_count(cap, n - 1) + if grows_at(cap, n - 1) {
            1nat
        } else {
            0nat
        }
    }
}

/// The templates that may be expanded: every `%` is followed by an allowed
/// operator or a short format, and there are at most `MAX_GROWTH` growing
/// operators.
///
/// On such a template, with parameters between `0` and `MAX_PARAM`, the
/// expansion handles only numbers below `2^17` in magnitude to begin with
/// (parameters, constants of at most five digits, character constants,
/// truth values), and no step takes them beyond `2^29`; it never divides
/// or multiplies, never indexes a parameter that does not exist, and
/// never pads to a width or a precision of ten thousand or more.
pub open spec fn template_is_total(cap: Seq<u8>) -> bool {
    &&& forall|i: int| 0 <= i < cap.len() ==> percent_ok(cap, i)
    &&& growth_count(cap, cap.len() as int) <= MAX_GROWTH
}

/// Whether every parameter lies between `0` and `MAX_PARAM`.
pub open spec fn params_ok(params: Seq<i32>) -> bool {
    forall|i: int| 0 <= i < params.len() ==> 0 <= #[trigger] params[i] <= MAX_PARAM
}

fn byte_is_digit(b: u8) -> (r: bool)
    ensures
        r == is_digit(b),
{
    0x30 <= b && b <= 0x39
}

fn byte_op_allowed(b: u8) -> (r: bool)
    ensures
        r == op_allowed(b),
{
    b == 0x25 || b == 0x63 || b == 0x70 || b == 0x50 || b == 0x67 || b == 0x27 || b == 0x7b || b
        == 0x6c || b == 0x26 || b == 0x7c || b == 0x5e || b == 0x3d || b == 0x3e || b == 0x3c || b
        == 0x41 || b == 0x4f || b == 0x21 || b == 0x7e || b == 0x69 || b == 0x64 || b == 0x6f || b
        == 0x78 || b == 0x58 || b == 0x73 || b == 0x3f || b == 0x3b || b == 0x74 || b == 0x65 || b
        == 0x2b || b == 0x2d
}

fn byte_opens_format(b: u8) -> (r: bool)
    ensures
        r == opens_format(b),
{
    b == 0x3a || b == 0x23 || b == 0x20 || b == 0x2e || byte_is_digit(b)
}

fn byte_ends_format(b: u8) -> (r: bool)
    ensures
        r == ends_format(b),
{
    b == 0x64 || b == 0x6f || b == 0x78 || b == 0x58 || b == 0x73
}

fn is_short_format(cap: &Vec<u8>, j: usize) -> (r: bool)
    requires
        j < cap.len(),
    ensures
        r == format_is_short(cap@, j as int),
{
    if cap.len() - j <= 4 {
        return true;
    }
    byte_ends_format(cap[j + 1]) || byte_ends_format(cap[j + 2]) || byte_ends_format(cap[j + 3])
        || byte_ends_format(cap[j + 4])
}

fn has_six_digits(cap: &Vec<u8>, j: usize) -> (r: bool)
    requires
        j <= cap.len(),
    ensures
        r == six_digits_at(cap@, j as int),
{
    if cap.len() - j < 6 {
        return false;
    }
    byte_is_digit(cap[j]) && byte_is_digit(cap[j + 1]) && byte_is_digit(cap[j + 2])
        && byte_is_digit(cap[j + 3]) && byte_is_digit(cap[j + 4]) && byte_is_digit(cap[j + 5])
}

/// Decides whether a template may be expanded.
pub fn is_total_template(cap: &Vec<u8>) -> (r: bool)
    ensures
        r == template_is_total(cap@),
{
    let n = cap.len();
    let mut growth: usize = 0;
    let mut i: usize = 0;
    while i < n
        invariant
            n == cap.len(),
            i <= n,
            growth == growth_count(cap@, i as int),
            growth <= MAX_GROWTH,
            forall|k: int| 0 <= k < i ==> percent_ok(cap@, k),
        decreases n - i,
    {
        if cap[i] == 0x25 && i + 1 < n {
            let op = cap[i + 1];
            let ok = (byte_op_allowed(op) || (byte_opens_format(op) && is_short_format(cap, i + 1)))
                && !(op == 0x70 && i + 2 < n && cap[i + 2] == 0x30) && !(op == 0x7b
                && has_six_digits(cap, i + 2));
            if !ok {
                assert(!percent_ok(cap@, i as int));
                return false;
            }
            if op == 0x2b || op == 0x2d || op == 0x69 {
                if growth == MAX_GROWTH {
                    proof {
                        lemma_growth_count_monotone(cap@, i as int + 1, n as int);
                    }
                    return false;
                }
                growth += 1;
            }
        }
        i += 1;
    }
    true
}

/// Counting further never lowers the count.
pub proof fn lemma_growth_count_monotone(cap: Seq<u8>, m: int, n: int)
    requires
        m <= n,
    ensures
        growth_count(cap, m) <= growth_count(cap, n),
    decreases n - m,
{
    if m < n {
        lemma_growth_count_monotone(cap, m, n - 1);
    }
}

/// Calls `term::terminfo::parm::expand` on a template and numeric
/// parameters, with fresh variables. The result is what the crate computes,
/// which this library only names: the bytes of `expanded`, or `None` exactly
/// where the crate reports an error, whose detail is dropped.
///
/// Only templates that `template_is_total` admits are handed over, with
/// parameters between `0` and `MAX_PARAM`: on these the crate's interpreter
/// meets no division, no multiplication, no parameter number `0`, no width
/// or precision of more than four digits, and no sum or difference beyond
/// `2^29`.
#[verifier::external_body]
pub(crate) fn expand(cap: &Vec<u8>, params: &Vec<i32>) -> (r: Option<Vec<u8>>)
    requires
        template_is_total(cap@),
        params_ok(params@),
    ensures
        match r {
            Some(bytes) => expanded(cap@, params@) == Some(bytes@),
            None => expanded(cap@, params@) is None,
        },
{
    let numbers: Vec<term::terminfo::parm::Param> = params.iter().map(
        |p| term::terminfo::parm::Param::Number(*p),
    ).collect();
    let mut vars = term::terminfo::parm::Variables::new();
    term::terminfo::parm::expand(cap.as_slice(), numbers.as_slice(), &mut vars).ok()
}

} // verus!
