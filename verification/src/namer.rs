//! Names for captured artifacts, spelled from the values that produced them.
//!
//! A name is `{prefix}_{width}x{height}_dpi{nominal}_scale{total}_rot{degrees}`:
//! the logical size asked for, the nominal and the total scale as whole
//! percentages, and the display's rotation, each in decimal. It depends on
//! nothing else, and different values give different names.

use vstd::prelude::*;
use vstd::string::*;
use crate::display::DisplayDescriptor;
use crate::geometry::LogicalSize;
use crate::scale::ScaleTransform;

verus! {

/// The character of a decimal digit.
pub open spec fn digit_char(digit: int) -> char {
    if digit == 0 {
        '0'
    } else if digit == 1 {
        '1'
    } else if digit == 2 {
        '2'
    } else if digit == 3 {
        '3'
    } else if digit == 4 {
        '4'
    } else if digit == 5 {
        '5'
    } else if digit == 6 {
        '6'
    } else if digit == 7 {
        '7'
    } else if digit == 8 {
        '8'
    } else {
        '9'
    }
}

pub open spec fn is_digit(c: char) -> bool {
    '0' <= c <= '9'
}

/// The decimal numeral of `n`, without leading zeros.
pub open spec fn decimal(n: nat) -> Seq<char>
    decreases n,
{
    if n < 10 {
        seq![digit_char(n as int)]
    } else {
        decimal(n / 10).push(digit_char((n % 10) as int))
    }
}

/// `head`, then the separator, then the numeral of `value`.
pub open spec fn with_field(head: Seq<char>, separator: Seq<char>, value: nat) -> Seq<char> {
    head + separator + decimal(value)
}

pub open spec fn size_mark() -> Seq<char> {
    seq!['_']
}

pub open spec fn by_mark() -> Seq<char> {
    seq!['x']
}

pub open spec fn nominal_mark() -> Seq<char> {
    seq!['_', 'd', 'p', 'i']
}

pub open spec fn total_mark() -> Seq<char> {
    seq!['_', 's', 'c', 'a', 'l', 'e']
}

pub open spec fn rotation_mark() -> Seq<char> {
    seq!['_', 'r', 'o', 't']
}

/// The name for the given values.
pub open spec fn name_spec(
    prefix: Seq<char>,
    width: nat,
    height: nat,
    nominal_percent: nat,
    total_percent: nat,
    degrees: nat,
) -> Seq<char> {
    with_field(
        with_field(
            with_field(
                with_field(with_field(prefix, size_mark(), width), by_mark(), height),
                nominal_mark(),
                nominal_percent,
            ),
            total_mark(),
            total_percent,
        ),
        rotation_mark(),
        degrees,
    )
}

/// The one-character string of a decimal digit.
fn digit_str(digit: u8) -> (s: &'static str)
    requires
        digit < 10,
    ensures
        s@ == seq![digit_char(digit as int)],
{
    proof {
        reveal_strlit("0");
        reveal_strlit("1");
        reveal_strlit("2");
        reveal_strlit("3");
        reveal_strlit("4");
        reveal_strlit("5");
        reveal_strlit("6");
        reveal_strlit("7");
        reveal_strlit("8");
        reveal_strlit("9");
    }
    let s = if digit == 0 {
        "0"
    } else if digit == 1 {
        "1"
    } else if digit == 2 {
        "2"
    } else if digit == 3 {
        "3"
    } else if digit == 4 {
        "4"
    } else if digit == 5 {
        "5"
    } else if digit == 6 {
        "6"
    } else if digit == 7 {
        "7"
    } else if digit == 8 {
        "8"
    } else {
        "9"
    };
    assert(s@ =~= seq![digit_char(digit as int)]);
    s
}

/// Appends the decimal numeral of `n`.
pub fn push_decimal(out: &mut String, n: u128)
    ensures
        final(out)@ == old(out)@ + decimal(n as nat),
    decreases n,
{
    let ghost before = out@;
    if n >= 10 {
        push_decimal(out, n / 10);
    }
    let digit: u8 = (n % 10) as u8;
    out.append(digit_str(digit));
    proof {
        if n >= 10 {
            assert(out@ =~= before + decimal((n / 10) as nat).push(digit_char((n % 10) as int)));
        } else {
            assert(out@ =~= before + seq![digit_char(n as int)]);
        }
    }
}

/// Appends a separator and the decimal numeral of `value`.
fn push_field(out: &mut String, separator: &str, value: u128)
    ensures
        final(out)@ == with_field(old(out)@, separator@, value as nat),
{
    out.append(separator);
    push_decimal(out, value);
}

/// The name for the given values: `prefix`, the logical size, the two
/// scales as whole percentages and the rotation in degrees.
pub fn format_name(
    prefix: &str,
    width: u32,
    height: u32,
    nominal_percent: u64,
    total_percent: u128,
    degrees: u32,
) -> (name: String)
    ensures
        name@ == name_spec(
            prefix@,
            width as nat,
            height as nat,
            nominal_percent as nat,
            total_percent as nat,
            degrees as nat,
        ),
{
    proof {
        reveal_strlit("_");
        reveal_strlit("x");
        reveal_strlit("_dpi");
        reveal_strlit("_scale");
        reveal_strlit("_rot");
        assert("_"@ =~= size_mark());
        assert("x"@ =~= by_mark());
        assert("_dpi"@ =~= nominal_mark());
        assert("_scale"@ =~= total_mark());
        assert("_rot"@ =~= rotation_mark());
    }
    let mut name = String::from_str(prefix);
    push_field(&mut name, "_", width as u128);
    push_field(&mut name, "x", height as u128);
    push_field(&mut name, "_dpi", nominal_percent as u128);
    push_field(&mut name, "_scale", total_percent);
    push_field(&mut name, "_rot", degrees as u128);
    name
}

/// The name of what was captured from `display` through `transform` for a
/// request of the logical size `size`.
pub fn artifact_name(
    prefix: &str,
    size: LogicalSize,
    display: &DisplayDescriptor,
    transform: &ScaleTransform,
) -> (name: String)
    ensures
        name@ == artifact_name_spec(prefix@, size, *display, *transform),
{
    let nominal_percent: u64 = display.nominal_scale.percent();
    let total_percent: u128 = transform.total_percent();
    format_name(
        prefix,
        size.width,
        size.height,
        nominal_percent,
        total_percent,
        display.rotation.degrees(),
    )
}

pub open spec fn artifact_name_spec(
    prefix: Seq<char>,
    size: LogicalSize,
    display: DisplayDescriptor,
    transform: ScaleTransform,
) -> Seq<char> {
    name_spec(
        prefix,
        size.width as nat,
        size.height as nat,
        display.nominal_scale.percent_spec() as nat,
        transform.total_percent_spec() as nat,
        display.rotation.degrees_spec() as nat,
    )
}

/// A numeral is not empty, and each of its characters is a digit.
pub proof fn lemma_decimal_is_digits(n: nat)
    ensures
        decimal(n).len() >= 1,
        forall|i: int| 0 <= i < decimal(n).len() ==> is_digit(#[trigger] decimal(n)[i]),
    decreases n,
{
    if n >= 10 {
        lemma_decimal_is_digits(n / 10);
    }
}

/// Different numbers have different numerals.
pub proof fn lemma_decimal_injective(a: nat, b: nat)
    requires
        decimal(a) == decimal(b),
    ensures
        a == b,
    decreases a,
{
    lemma_decimal_is_digits(a / 10);
    lemma_decimal_is_digits(b / 10);
    if a < 10 && b < 10 {
        assert(decimal(a)[0] == digit_char(a as int));
        assert(decimal(b)[0] == digit_char(b as int));
    } else if a < 10 {
        assert(decimal(a).len() == 1);
        assert(decimal(b).len() == decimal(b / 10).len() + 1);
    } else if b < 10 {
        assert(decimal(b).len() == 1);
        assert(decimal(a).len() == decimal(a / 10).len() + 1);
    } else {
        assert(decimal(a).drop_last() =~= decimal(a / 10));
        assert(decimal(b).drop_last() =~= decimal(b / 10));
        lemma_decimal_injective(a / 10, b / 10);
        assert(decimal(a).last() == digit_char((a % 10) as int));
        assert(decimal(b).last() == digit_char((b % 10) as int));
    }
}

/// A field can be read back from the end of a string: where the separator
/// ends in a character that is no digit, equal strings have equal heads and
/// equal values.
pub proof fn lemma_field_injective(
    head_a: Seq<char>,
    head_b: Seq<char>,
    separator: Seq<char>,
    a: nat,
    b: nat,
)
    requires
        separator.len() > 0,
        !is_digit(separator.last()),
        with_field(head_a, separator, a) == with_field(head_b, separator, b),
    ensures
        head_a == head_b,
        a == b,
{
    let whole_a = with_field(head_a, separator, a);
    let whole_b = with_field(head_b, separator, b);
    let start_a = head_a.len() + separator.len();
    let start_b = head_b.len() + separator.len();
    lemma_decimal_is_digits(a);
    lemma_decimal_is_digits(b);
    assert(whole_a.len() == start_a + decimal(a).len());
    assert(whole_b.len() == start_b + decimal(b).len());
    assert(whole_a[start_a - 1] == separator.last());
    assert(whole_b[start_b - 1] == separator.last());
    if start_a < start_b {
        assert(whole_a[start_b - 1] == decimal(a)[start_b - 1 - start_a]);
        assert(false);
    }
    if start_b < start_a {
        assert(whole_b[start_a - 1] == decimal(b)[start_a - 1 - start_b]);
        assert(false);
    }
    assert(decimal(a) =~= decimal(b)) by {
        assert forall|i: int| 0 <= i < decimal(a).len() implies decimal(a)[i] == decimal(b)[i] by {
            assert(whole_a[start_a + i] == decimal(a)[i]);
            assert(whole_b[start_b + i] == decimal(b)[i]);
        }
    }
    lemma_decimal_injective(a, b);
    assert(head_a =~= head_b) by {
        assert forall|i: int| 0 <= i < head_a.len() implies head_a[i] == head_b[i] by {
            assert(whole_a[i] == head_a[i]);
            assert(whole_b[i] == head_b[i]);
        }
    }
}

/// Names are equal exactly when the values that went into them are: the
/// same values always give the same name, and a change of the prefix, the
/// width, the height, either percentage or the rotation changes it.
pub proof fn lemma_name_injective(
    prefix_a: Seq<char>,
    width_a: nat,
    height_a: nat,
    nominal_a: nat,
    total_a: nat,
    degrees_a: nat,
    prefix_b: Seq<char>,
    width_b: nat,
    height_b: nat,
    nominal_b: nat,
    total_b: nat,
    degrees_b: nat,
)
    ensures
        name_spec(prefix_a, width_a, height_a, nominal_a, total_a, degrees_a) == name_spec(
            prefix_b,
            width_b,
            height_b,
            nominal_b,
            total_b,
            degrees_b,
        ) <==> {
            &&& prefix_a == prefix_b
            &&& width_a == width_b
            &&& height_a == height_b
            &&& nominal_a == nominal_b
            &&& total_a == total_b
            &&& degrees_a == degrees_b
        },
{
    if name_spec(prefix_a, width_a, height_a, nominal_a, total_a, degrees_a) == name_spec(
        prefix_b,
        width_b,
        height_b,
        nominal_b,
        total_b,
        degrees_b,
    ) {
        let sized_a = with_field(prefix_a, size_mark(), width_a);
        let sized_b = with_field(prefix_b, size_mark(), width_b);
        let squared_a = with_field(sized_a, by_mark(), height_a);
        let squared_b = with_field(sized_b, by_mark(), height_b);
        let nominal_named_a = with_field(squared_a, nominal_mark(), nominal_a);
        let nominal_named_b = with_field(squared_b, nominal_mark(), nominal_b);
        let total_named_a = with_field(nominal_named_a, total_mark(), total_a);
        let total_named_b = with_field(nominal_named_b, total_mark(), total_b);
        lemma_field_injective(total_named_a, total_named_b, rotation_mark(), degrees_a, degrees_b);
        lemma_field_injective(nominal_named_a, nominal_named_b, total_mark(), total_a, total_b);
        lemma_field_injective(squared_a, squared_b, nominal_mark(), nominal_a, nominal_b);
        lemma_field_injective(sized_a, sized_b, by_mark(), height_a, height_b);
        lemma_field_injective(prefix_a, prefix_b, size_mark(), width_a, width_b);
    }
}

/// Artifact names are equal exactly when the prefix, the size and the
/// rotation are the same and the scales have the same whole percentages.
/// Scales that differ by less than that share a name.
pub proof fn lemma_artifact_name_injective(
    prefix_a: Seq<char>,
    size_a: LogicalSize,
    display_a: DisplayDescriptor,
    transform_a: ScaleTransform,
    prefix_b: Seq<char>,
    size_b: LogicalSize,
    display_b: DisplayDescriptor,
    transform_b: ScaleTransform,
)
    requires
        display_a.wf(),
        display_b.wf(),
        transform_a.wf(),
        transform_b.wf(),
    ensures
        artifact_name_spec(prefix_a, size_a, display_a, transform_a) == artifact_name_spec(
            prefix_b,
            size_b,
            display_b,
            transform_b,
        ) <==> {
            &&& prefix_a == prefix_b
            &&& size_a == size_b
            &&& display_a.rotation == display_b.rotation
            &&& display_a.nominal_scale.percent_spec() == display_b.nominal_scale.percent_spec()
            &&& transform_a.total_percent_spec() == transform_b.total_percent_spec()
        },
{
    transform_a.lemma_total_scale();
    transform_b.lemma_total_scale();
    lemma_name_injective(
        prefix_a,
        size_a.width as nat,
        size_a.height as nat,
        display_a.nominal_scale.percent_spec() as nat,
        transform_a.total_percent_spec() as nat,
        display_a.rotation.degrees_spec() as nat,
        prefix_b,
        size_b.width as nat,
        size_b.height as nat,
        display_b.nominal_scale.percent_spec() as nat,
        transform_b.total_percent_spec() as nat,
        display_b.rotation.degrees_spec() as nat,
    );
}

} // verus!
