//! Text building blocks: joining fragments and writing numbers in decimal.

use vstd::prelude::*;
use vstd::string::*;

verus! {

/// The fragments of `parts`, in order, with `sep` between each two neighbours.
pub open spec fn joined(parts: Seq<Seq<char>>, sep: Seq<char>) -> Seq<char>
    decreases parts.len(),
{
    if parts.len() == 0 {
        Seq::empty()
    } else if parts.len() == 1 {
        parts[0]
    } else {
        joined(parts.drop_last(), sep) + sep + parts.last()
    }
}

/// The decimal digit that stands for `d`, for `d` below ten.
pub open spec fn digit(d: nat) -> char {
    if d == 0 {
        '0'
    } else if d == 1 {
        '1'
    } else if d == 2 {
        '2'
    } else if d == 3 {
        '3'
    } else if d == 4 {
        '4'
    } else if d == 5 {
        '5'
    } else if d == 6 {
        '6'
    } else if d == 7 {
        '7'
    } else if d == 8 {
        '8'
    } else {
        '9'
    }
}

/// `n` in decimal, without leading zeros; zero is written `0`.
pub open spec fn decimal(n: nat) -> Seq<char>
    decreases n,
{
    if n < 10 {
        seq![digit(n)]
    } else {
        decimal(n / 10).push(digit(n % 10))
    }
}

/// The last `width` decimal digits of `n`, padded with zeros on the left.
pub open spec fn fixed_digits(n: nat, width: nat) -> Seq<char>
    decreases width,
{
    if width == 0 {
        Seq::empty()
    } else {
        fixed_digits(n / 10, (width - 1) as nat).push(digit(n % 10))
    }
}

/// Nanoseconds in one second.
pub const NANOS_PER_SECOND: u128 = 1_000_000_000;

/// A span of `nanos` nanoseconds written as seconds: the whole seconds, a
/// point, and nine digits of fraction. Nothing is rounded away.
pub open spec fn seconds(nanos: nat) -> Seq<char> {
    decimal(nanos / 1_000_000_000) + seq!['.'] + fixed_digits(nanos % 1_000_000_000, 9)
}

/// Whether `text` holds no `sep`.
pub open spec fn free_of(text: Seq<char>, sep: char) -> bool {
    forall|i: int| 0 <= i < text.len() ==> text[i] != sep
}

/// The pieces into which the occurrences of `sep` cut `text`: one more piece
/// than there are occurrences, each free of `sep`, some perhaps empty.
pub open spec fn split(text: Seq<char>, sep: char) -> Seq<Seq<char>>
    decreases text.len(),
{
    if text.len() == 0 {
        seq![Seq::empty()]
    } else if text.last() == sep {
        split(text.drop_last(), sep).push(Seq::empty())
    } else {
        let before = split(text.drop_last(), sep);
        before.drop_last().push(before.last().push(text.last()))
    }
}

/// A text has at least one piece.
pub proof fn lemma_split_nonempty(text: Seq<char>, sep: char)
    ensures
        split(text, sep).len() >= 1,
    decreases text.len(),
{
    if text.len() > 0 {
        lemma_split_nonempty(text.drop_last(), sep);
    }
}

/// Appending a text without separators to `text` lengthens its last piece.
pub proof fn lemma_split_extend(text: Seq<char>, more: Seq<char>, sep: char)
    requires
        free_of(more, sep),
    ensures
        split(text, sep).len() >= 1,
        split(text + more, sep) == split(text, sep).drop_last().push(
            split(text, sep).last() + more,
        ),
    decreases more.len(),
{
    lemma_split_nonempty(text, sep);
    let pieces = split(text, sep);
    if more.len() == 0 {
        assert(text + more =~= text);
        assert(pieces.last() + more =~= pieces.last());
        assert(pieces.drop_last().push(pieces.last()) =~= pieces);
    } else {
        let shorter = more.drop_last();
        assert(free_of(shorter, sep));
        lemma_split_extend(text, shorter, sep);
        let whole = text + more;
        assert(whole.drop_last() =~= text + shorter);
        assert(whole.last() == more.last());
        let before = split(text + shorter, sep);
        assert(before.drop_last() =~= pieces.drop_last());
        assert(before.last().push(more.last()) =~= pieces.last() + more);
    }
}

/// A text without separators is its own single piece.
pub proof fn lemma_split_single(text: Seq<char>, sep: char)
    requires
        free_of(text, sep),
    ensures
        split(text, sep) == seq![text],
{
    lemma_split_extend(Seq::empty(), text, sep);
    assert(Seq::<char>::empty() + text =~= text);
    assert(split(Seq::empty(), sep) =~= seq![Seq::<char>::empty()]);
    assert(seq![Seq::<char>::empty()].drop_last().push(Seq::<char>::empty() + text) =~= seq![
        text,
    ]);
}

/// Splitting undoes joining: fragments that hold no separator, joined by
/// that separator, are cut back into the same fragments.
pub proof fn lemma_split_joined(parts: Seq<Seq<char>>, sep: char)
    requires
        parts.len() >= 1,
        forall|i: int| 0 <= i < parts.len() ==> free_of(#[trigger] parts[i], sep),
    ensures
        split(joined(parts, seq![sep]), sep) == parts,
    decreases parts.len(),
{
    if parts.len() == 1 {
        lemma_split_single(parts[0], sep);
        assert(seq![parts[0]] =~= parts);
    } else {
        let init = parts.drop_last();
        assert forall|i: int| 0 <= i < init.len() implies free_of(#[trigger] init[i], sep) by {
            assert(init[i] == parts[i]);
        }
        lemma_split_joined(init, sep);
        let head = joined(init, seq![sep]) + seq![sep];
        assert(head.drop_last() =~= joined(init, seq![sep]));
        assert(head.last() == sep);
        assert(split(head, sep) == init.push(Seq::empty()));
        lemma_split_extend(head, parts.last(), sep);
        assert(init.push(Seq::<char>::empty()).drop_last() =~= init);
        assert(Seq::<char>::empty() + parts.last() =~= parts.last());
        assert(init.push(parts.last()) =~= parts);
    }
}

/// A separator between two texts keeps their pieces apart: the pieces of the
/// whole are the pieces of the first followed by those of the second.
pub proof fn lemma_split_concat(first: Seq<char>, second: Seq<char>, sep: char)
    ensures
        split(first + seq![sep] + second, sep) == split(first, sep) + split(second, sep),
    decreases second.len(),
{
    let whole = first + seq![sep] + second;
    if second.len() == 0 {
        assert(whole.drop_last() =~= first);
        assert(whole.last() == sep);
        assert(split(second, sep) =~= seq![Seq::<char>::empty()]);
        assert(split(first, sep).push(Seq::empty()) =~= split(first, sep) + split(second, sep));
    } else {
        let shorter = second.drop_last();
        lemma_split_concat(first, shorter, sep);
        lemma_split_nonempty(shorter, sep);
        assert(whole.drop_last() =~= first + seq![sep] + shorter);
        assert(whole.last() == second.last());
        let left = split(first, sep);
        let right = split(shorter, sep);
        if second.last() == sep {
            assert((left + right).push(Seq::empty()) =~= left + right.push(Seq::empty()));
        } else {
            assert((left + right).drop_last() =~= left + right.drop_last());
            assert((left + right).last() == right.last());
            assert((left + right.drop_last()).push(right.last().push(second.last())) =~= left
                + right.drop_last().push(right.last().push(second.last())));
        }
    }
}

/// Joining adds no character: fragments and a separator that hold no `c`
/// join to a text that holds no `c`.
pub proof fn lemma_joined_free_of(parts: Seq<Seq<char>>, sep: Seq<char>, c: char)
    requires
        free_of(sep, c),
        forall|i: int| 0 <= i < parts.len() ==> free_of(#[trigger] parts[i], c),
    ensures
        free_of(joined(parts, sep), c),
    decreases parts.len(),
{
    if parts.len() >= 2 {
        let init = parts.drop_last();
        assert forall|i: int| 0 <= i < init.len() implies free_of(#[trigger] init[i], c) by {
            assert(init[i] == parts[i]);
        }
        lemma_joined_free_of(init, sep, c);
        assert(free_of(parts.last(), c));
    } else if parts.len() == 1 {
        assert(free_of(parts[0], c));
    }
}

/// No decimal digit is a given character that is not a digit.
pub proof fn lemma_decimal_free_of(n: nat, sep: char)
    requires
        !('0' <= sep <= '9'),
    ensures
        free_of(decimal(n), sep),
    decreases n,
{
    if n >= 10 {
        lemma_decimal_free_of(n / 10, sep);
    }
}

/// No digit of a fixed-width number is a given character that is not a digit.
pub proof fn lemma_fixed_digits_free_of(n: nat, width: nat, sep: char)
    requires
        !('0' <= sep <= '9'),
    ensures
        free_of(fixed_digits(n, width), sep),
        fixed_digits(n, width).len() == width,
    decreases width,
{
    if width > 0 {
        lemma_fixed_digits_free_of(n / 10, (width - 1) as nat, sep);
    }
}

/// A span written as seconds holds digits and one point, nothing else.
pub proof fn lemma_seconds_free_of(nanos: nat, sep: char)
    requires
        !('0' <= sep <= '9'),
        sep != '.',
    ensures
        free_of(seconds(nanos), sep),
{
    lemma_decimal_free_of(nanos / 1_000_000_000, sep);
    lemma_fixed_digits_free_of(nanos % 1_000_000_000, 9, sep);
}

/// Whether `text` can stand in one column of the report: it holds neither a
/// comma nor a line break.
pub open spec fn is_field(text: Seq<char>) -> bool {
    free_of(text, ',') && free_of(text, '\n')
}

/// Tells whether `text` can stand in one column of the report.
pub fn fits_field(text: &str) -> (fits: bool)
    ensures
        fits == is_field(text@),
{
    let mut fits = true;
    for c in it: text.chars()
        invariant
            it.seq() == text@,
            fits == (forall|i: int| 0 <= i < it.index() ==> text@[i] != ',' && text@[i] != '\n'),
    {
        if c == ',' || c == '\n' {
            fits = false;
        }
    }
    fits
}

/// Joins `parts` with `sep` between each two neighbours.
pub fn join(parts: &Vec<String>, sep: &str) -> (text: String)
    ensures
        text@ == joined(parts.deep_view(), sep@),
{
    let mut text = String::new();
    let mut i: usize = 0;
    while i < parts.len()
        invariant
            i <= parts.len(),
            text@ == joined(parts.deep_view().take(i as int), sep@),
        decreases parts.len() - i,
    {
        let ghost before = parts.deep_view().take(i as int);
        let ghost after = parts.deep_view().take(i + 1);
        proof {
            assert(after.drop_last() =~= before);
            assert(after.last() == parts[i as int]@);
        }
        if i > 0 {
            text.append(sep);
        }
        text.append(parts[i].as_str());
        proof {
            if i == 0 {
                assert(text@ =~= after[0]);
            }
        }
        i += 1;
    }
    assert(parts.deep_view().take(parts.len() as int) =~= parts.deep_view());
    text
}

/// The one-character text of a decimal digit.
fn digit_text(d: u128) -> (text: &'static str)
    requires
        d < 10,
    ensures
        text@ == seq![digit(d as nat)],
{
    proof {
        reveal_strlit("0");
        reveal_strlit("1");
        reveal_strlit("2");
        reveal_strlit("3");
        reveal_strlit("4");
        reveal_strlit("5");
        reveal_strlit("6");
        reveal_strlit("7");
        reveal_strlit("8");
        reveal_strlit("9");
    }
    let text = if d == 0 {
        "0"
    } else if d == 1 {
        "1"
    } else if d == 2 {
        "2"
    } else if d == 3 {
        "3"
    } else if d == 4 {
        "4"
    } else if d == 5 {
        "5"
    } else if d == 6 {
        "6"
    } else if d == 7 {
        "7"
    } else if d == 8 {
        "8"
    } else {
        "9"
    };
    assert(text@ =~= seq![digit(d as nat)]);
    text
}

/// Writes `n` in decimal.
pub fn decimal_text(n: u128) -> (text: String)
    ensures
        text@ == decimal(n as nat),
{
    let mut text = String::from_str(digit_text(n % 10));
    let mut rest: u128 = n / 10;
    while rest > 0
        invariant
            decimal(n as nat) == (if rest > 0 {
                decimal(rest as nat)
            } else {
                Seq::empty()
            }) + text@,
        decreases rest,
    {
        let ghost tail = text@;
        let head = String::from_str(digit_text(rest % 10));
        text = head.concat(text.as_str());
        proof {
            let lead = if rest / 10 > 0 {
                decimal((rest / 10) as nat)
            } else {
                Seq::empty()
            };
            assert(decimal(rest as nat) =~= lead + seq![digit((rest % 10) as nat)]);
            assert(decimal(rest as nat) + tail =~= lead + text@);
        }
        rest = rest / 10;
    }
    assert(Seq::<char>::empty() + text@ =~= text@);
    text
}

/// Writes the last `width` decimal digits of `n`, padded with zeros.
pub fn fixed_digits_text(n: u128, width: usize) -> (text: String)
    ensures
        text@ == fixed_digits(n as nat, width as nat),
{
    let mut text = String::new();
    let mut rest: u128 = n;
    let mut done: usize = 0;
    while done < width
        invariant
            done <= width,
            fixed_digits(n as nat, width as nat) == fixed_digits(
                rest as nat,
                (width - done) as nat,
            ) + text@,
        decreases width - done,
    {
        let ghost tail = text@;
        let head = String::from_str(digit_text(rest % 10));
        text = head.concat(text.as_str());
        proof {
            let left = (width - done) as nat;
            assert(fixed_digits(rest as nat, left) =~= fixed_digits(
                (rest / 10) as nat,
                (left - 1) as nat,
            ) + seq![digit((rest % 10) as nat)]);
            assert(fixed_digits(rest as nat, left) + tail =~= fixed_digits(
                (rest / 10) as nat,
                (left - 1) as nat,
            ) + text@);
        }
        rest = rest / 10;
        done += 1;
    }
    assert(fixed_digits(rest as nat, 0) + text@ =~= text@);
    text
}

/// Writes a span of `nanos` nanoseconds as seconds with nine digits of
/// fraction.
pub fn seconds_text(nanos: u128) -> (text: String)
    ensures
        text@ == seconds(nanos as nat),
{
    proof {
        reveal_strlit(".");
    }
    let mut text = decimal_text(nanos / NANOS_PER_SECOND);
    text.append(".");
    let fraction = fixed_digits_text(nanos % NANOS_PER_SECOND, 9);
    text.append(fraction.as_str());
    assert("."@ =~= seq!['.']);
    text
}

} // verus!
