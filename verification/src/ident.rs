//! Identifiers of chart wrappers.
//!
//! A wrapper element carries the id `ac-<n>`; the host refers to the chart
//! by the matching id selector `#ac-<n>`.

use vstd::prelude::*;
use vstd::string::StringExecFns;

verus! {

/// The character of a decimal digit.
pub open spec fn digit_char(d: nat) -> char
    recommends
        d < 10,
{
    if d == 0 {
        '0'
    } else if d == 1 {
        '1'
    } else if d == 2 {
        '2'
    } else if d == 3 {
        '3'
    } else if d == 4 {
        '4'
    } else if d == 5 {
        '5'
    } else if d == 6 {
        '6'
    } else if d == 7 {
        '7'
    } else if d == 8 {
        '8'
    } else {
        '9'
    }
}

/// A number in decimal notation without leading zeros.
pub open spec fn decimal(n: nat) -> Seq<char>
    decreases n,
{
    if n < 10 {
        seq![digit_char(n)]
    } else {
        decimal(n / 10).push(digit_char(n % 10))
    }
}

/// The id attribute of the wrapper with the given suffix.
pub open spec fn wrapper_id_text(suffix: nat) -> Seq<char> {
    seq!['a', 'c', '-'] + decimal(suffix)
}

/// The selector under which the host refers to that wrapper.
pub open spec fn selector_text(suffix: nat) -> Seq<char> {
    seq!['#'] + wrapper_id_text(suffix)
}

/// The inline style every wrapper element gets.
pub open spec fn wrapper_style_text() -> Seq<char> {
    "width: 100%; height: 100%; position: relative"@
}

fn digit_str(d: usize) -> (text: &'static str)
    requires
        d < 10,
    ensures
        text@ == seq![digit_char(d as nat)],
{
    proof {
        reveal_strlit("0");
        reveal_strlit("1");
        reveal_strlit("2");
        reveal_strlit("3");
        reveal_strlit("4");
        reveal_strlit("5");
        reveal_strlit("6");
        reveal_strlit("7");
        reveal_strlit("8");
        reveal_strlit("9");
    }
    let text = if d == 0 {
        "0"
    } else if d == 1 {
        "1"
    } else if d == 2 {
        "2"
    } else if d == 3 {
        "3"
    } else if d == 4 {
        "4"
    } else if d == 5 {
        "5"
    } else if d == 6 {
        "6"
    } else if d == 7 {
        "7"
    } else if d == 8 {
        "8"
    } else {
        "9"
    };
    assert(text@ =~= seq![digit_char(d as nat)]);
    text
}

/// Appends the decimal notation of `n` to `out`.
pub fn push_decimal(out: &mut String, n: usize)
    ensures
        final(out)@ == old(out)@ + decimal(n as nat),
    decreases n,
{
    if n >= 10 {
        push_decimal(out, n / 10);
    }
    out.append(digit_str(n % 10));
    assert(final(out)@ =~= old(out)@ + decimal(n as nat));
}

/// Builds the id attribute `ac-<suffix>`.
pub fn wrapper_id(suffix: usize) -> (id: String)
    ensures
        id@ == wrapper_id_text(suffix as nat),
{
    proof {
        reveal_strlit("ac-");
    }
    let mut id = String::from_str("ac-");
    push_decimal(&mut id, suffix);
    assert(id@ =~= wrapper_id_text(suffix as nat));
    id
}

/// Builds the id selector `#ac-<suffix>`.
pub fn wrapper_selector(suffix: usize) -> (selector: String)
    ensures
        selector@ == selector_text(suffix as nat),
{
    proof {
        reveal_strlit("#ac-");
    }
    let mut selector = String::from_str("#ac-");
    push_decimal(&mut selector, suffix);
    assert(selector@ =~= selector_text(suffix as nat));
    selector
}

/// The inline style of a wrapper element: it fills its container and
/// anchors absolutely positioned children.
pub fn wrapper_style() -> (style: &'static str)
    ensures
        style@ == wrapper_style_text(),
{
    "width: 100%; height: 100%; position: relative"
}

/// Every selector starts with `#ac-` and goes on with at least one digit.
pub proof fn lemma_selector_shape(suffix: nat)
    ensures
        selector_text(suffix).len() >= 5,
        selector_text(suffix)[0] == '#',
        selector_text(suffix)[1] == 'a',
        selector_text(suffix)[2] == 'c',
        selector_text(suffix)[3] == '-',
        selector_text(suffix).subrange(4, selector_text(suffix).len() as int) == decimal(suffix),
        selector_text(suffix).subrange(1, selector_text(suffix).len() as int) == wrapper_id_text(
            suffix,
        ),
{
    lemma_decimal_nonempty(suffix);
    assert(selector_text(suffix).subrange(4, selector_text(suffix).len() as int) =~= decimal(
        suffix,
    ));
    assert(selector_text(suffix).subrange(1, selector_text(suffix).len() as int)
        =~= wrapper_id_text(suffix));
}

/// Decimal notation has at least one digit.
pub proof fn lemma_decimal_nonempty(n: nat)
    ensures
        decimal(n).len() >= 1,
    decreases n,
{
    if n >= 10 {
        lemma_decimal_nonempty(n / 10);
    }
}

/// Different numbers have different decimal notations.
pub proof fn lemma_decimal_injective(a: nat, b: nat)
    requires
        decimal(a) == decimal(b),
    ensures
        a == b,
    decreases a,
{
    lemma_decimal_nonempty(a / 10);
    lemma_decimal_nonempty(b / 10);
    if a < 10 && b < 10 {
        assert(decimal(a)[0] == digit_char(a));
        assert(decimal(b)[0] == digit_char(b));
    } else if a >= 10 && b >= 10 {
        let front_a = decimal(a / 10);
        let front_b = decimal(b / 10);
        assert(decimal(a) == front_a.push(digit_char(a % 10)));
        assert(decimal(b) == front_b.push(digit_char(b % 10)));
        assert(front_a.push(digit_char(a % 10)).drop_last() =~= front_a);
        assert(front_b.push(digit_char(b % 10)).drop_last() =~= front_b);
        assert(front_a.push(digit_char(a % 10)).last() == digit_char(a % 10));
        assert(front_b.push(digit_char(b % 10)).last() == digit_char(b % 10));
        lemma_decimal_injective(a / 10, b / 10);
        assert(a % 10 == b % 10);
    } else if a < 10 {
        assert(decimal(a).len() == 1);
        assert(decimal(b).len() == decimal(b / 10).len() + 1);
    } else {
        assert(decimal(b).len() == 1);
        assert(decimal(a).len() == decimal(a / 10).len() + 1);
    }
}

/// Wrappers with different suffixes have different selectors.
pub proof fn lemma_selector_injective(a: nat, b: nat)
    requires
        selector_text(a) == selector_text(b),
    ensures
        a == b,
{
    lemma_selector_shape(a);
    lemma_selector_shape(b);
    lemma_decimal_injective(a, b);
}

} // verus!
