use vstd::prelude::*;
use crate::text::push_char;

verus! {

/// The character of the decimal digit `d` (`0 <= d < 10`).
pub open spec fn digit_char(d: int) -> char {
    (d + 48) as char
}

/// The decimal digits of `n`, most significant first, without leading zeros
/// (a single `'0'` for zero).
pub open spec fn decimal_digits(n: nat) -> Seq<char>
    decreases n,
{
    if n < 10 {
        seq![digit_char(n as int)]
    } else {
        decimal_digits(n / 10).push(digit_char((n % 10) as int))
    }
}

/// The decimal text of an integer: the digits of its magnitude, after a `'-'`
/// when it is negative.
pub open spec fn decimal_text(v: int) -> Seq<char> {
    if v < 0 {
        seq!['-'] + decimal_digits((-v) as nat)
    } else {
        decimal_digits(v as nat)
    }
}

/// `s` with a `','` between every group of three characters, the groups
/// counted from the right: the leftmost group holds one to three characters.
pub open spec fn group_by_thousands(s: Seq<char>) -> Seq<char>
    decreases s.len(),
{
    if s.len() <= 3 {
        s
    } else {
        group_by_thousands(s.take(s.len() - 3)).push(',') + s.skip(s.len() - 3)
    }
}

/// `s` with every `','` taken out.
pub open spec fn without_commas(s: Seq<char>) -> Seq<char>
    decreases s.len(),
{
    if s.len() == 0 {
        s
    } else if s.last() == ',' {
        without_commas(s.drop_last())
    } else {
        without_commas(s.drop_last()).push(s.last())
    }
}

/// Whether the left-to-right scan puts a comma right after position `i` of a
/// text of `n` characters: when the number of characters after it is a
/// positive multiple of three.
spec fn comma_after(n: int, i: int) -> bool {
    (n - 1 - i) % 3 == 0 && i != n - 1
}

/// What the left-to-right scan has written after reading the first `k`
/// characters of `s`.
spec fn scanned(s: Seq<char>, k: int) -> Seq<char>
    decreases k,
{
    if k <= 0 {
        Seq::empty()
    } else {
        let with_char = scanned(s, k - 1).push(s[k - 1]);
        if comma_after(s.len() as int, k - 1) {
            with_char.push(',')
        } else {
            with_char
        }
    }
}

/// With no comma due before position `k`, the scan copies the prefix.
proof fn lemma_scanned_short(s: Seq<char>, k: int)
    requires
        0 <= k <= s.len() <= 3,
    ensures
        scanned(s, k) == s.take(k),
    decreases k,
{
    if k > 0 {
        lemma_scanned_short(s, k - 1);
        assert(s.take(k) == s.take(k - 1).push(s[k - 1]));
    }
}

/// Before position `m - 1`, a text scans like its prefix of length `m` when
/// the two lengths differ by a multiple of three.
proof fn lemma_scanned_prefix(s: Seq<char>, m: int, k: int)
    requires
        1 <= m <= s.len(),
        (s.len() - m) % 3 == 0,
        0 <= k <= m - 1,
    ensures
        scanned(s, k) == scanned(s.take(m), k),
    decreases k,
{
    if k > 0 {
        lemma_scanned_prefix(s, m, k - 1);
        assert(comma_after(s.len() as int, k - 1) == comma_after(m, k - 1));
        assert(s.take(m)[k - 1] == s[k - 1]);
    }
}

/// The scan of the whole text is its grouping by thousands.
proof fn lemma_scanned_groups(s: Seq<char>)
    ensures
        scanned(s, s.len() as int) == group_by_thousands(s),
    decreases s.len(),
{
    let n = s.len() as int;
    if n <= 3 {
        lemma_scanned_short(s, n);
        assert(s.take(n) == s);
    } else {
        let m = n - 3;
        let t = s.take(m);
        lemma_scanned_groups(t);
        lemma_scanned_prefix(s, m, m - 1);
        assert(t.take(m - 1).push(t[m - 1]) == t);
        assert(scanned(t, m) == scanned(t, m - 1).push(t[m - 1]));
        assert(scanned(s, m) == scanned(t, m).push(','));
        assert(!comma_after(n, m) && !comma_after(n, m + 1) && !comma_after(n, m + 2));
        assert(scanned(s, m + 1) == scanned(s, m).push(s[m]));
        assert(scanned(s, m + 2) == scanned(s, m + 1).push(s[m + 1]));
        assert(scanned(s, n) == scanned(s, m + 2).push(s[m + 2]));
        assert(scanned(s, n) == scanned(s, m) + s.skip(m));
    }
}

/// Appends the decimal digits of `n` to `out`.
fn push_decimal_digits(n: u128, out: &mut Vec<char>)
    ensures
        final(out)@ == old(out)@ + decimal_digits(n as nat),
    decreases n,
{
    if n >= 10 {
        push_decimal_digits(n / 10, out);
    }
    let d = (n % 10) as u8;
    out.push((d + 48) as char);
    proof {
        if n >= 10 {
            assert(decimal_digits(n as nat) == decimal_digits((n / 10) as nat).push(
                digit_char((n % 10) as int),
            ));
        }
    }
}

/// The decimal text of `v`, one character per element.
fn decimal_chars(v: i128) -> (r: Vec<char>)
    ensures
        r@ == decimal_text(v as int),
{
    let mut out: Vec<char> = Vec::new();
    if v < 0 {
        out.push('-');
        let magnitude: u128 = ((-(v + 1)) as u128) + 1;
        push_decimal_digits(magnitude, &mut out);
    } else {
        push_decimal_digits(v as u128, &mut out);
    }
    out
}

/// Formats `num` in decimal with a `','` between groups of three characters,
/// counted from the right, as in `1,234,567`.
///
/// The grouping counts every character of the decimal text, the sign
/// included: `-123456` gives `-,123,456`.
pub fn format_with_commas<T: Into<i128>>(num: T) -> (r: String)
    ensures
        exists|v: i128|
            call_ensures(T::into, (num,), v) && r@ == group_by_thousands(decimal_text(v as int)),
{
    let v: i128 = num.into();
    format_i128_with_commas(v)
}

/// `format_with_commas` on an `i128`: its decimal text, grouped by
/// thousands.
pub fn format_i128_with_commas(num: i128) -> (r: String)
    ensures
        r@ == group_by_thousands(decimal_text(num as int)),
{
    let chars = decimal_chars(num);
    let len = chars.len();
    let mut result = String::new();

    for i in 0..len
        invariant
            len == chars@.len(),
            result@ == scanned(chars@, i as int),
    {
        push_char(&mut result, chars[i]);
        let pos = len - i - 1;
        if pos % 3 == 0 && i != len - 1 {
            push_char(&mut result, ',');
        }
    }
    proof {
        lemma_scanned_groups(chars@);
    }
    result
}

/// Taking the commas out of `a + b` takes them out of each part.
proof fn lemma_without_commas_add(a: Seq<char>, b: Seq<char>)
    ensures
        without_commas(a + b) == without_commas(a) + without_commas(b),
    decreases b.len(),
{
    if b.len() == 0 {
        assert(a + b == a);
        assert(without_commas(a) + without_commas(b) == without_commas(a));
    } else {
        lemma_without_commas_add(a, b.drop_last());
        assert((a + b).drop_last() == a + b.drop_last());
        assert((a + b).last() == b.last());
    }
}

/// A text without commas is left as it is.
proof fn lemma_without_commas_of_comma_free(s: Seq<char>)
    requires
        forall|i: int| 0 <= i < s.len() ==> s[i] != ',',
    ensures
        without_commas(s) == s,
    decreases s.len(),
{
    if s.len() > 0 {
        lemma_without_commas_of_comma_free(s.drop_last());
        assert(s.drop_last().push(s.last()) == s);
    }
}

/// Grouping adds commas and nothing else.
proof fn lemma_group_then_strip(s: Seq<char>)
    ensures
        without_commas(group_by_thousands(s)) == without_commas(s),
    decreases s.len(),
{
    if s.len() > 3 {
        let m = s.len() - 3;
        lemma_group_then_strip(s.take(m));
        let g = group_by_thousands(s.take(m));
        lemma_without_commas_add(g.push(','), s.skip(m));
        assert(g.push(',').drop_last() == g);
        lemma_without_commas_add(s.take(m), s.skip(m));
        assert(s.take(m) + s.skip(m) == s);
    }
}

/// The decimal digits of a number are digit characters, and there is at
/// least one of them; at most two below one hundred and at most three below
/// one thousand.
proof fn lemma_decimal_digits_chars(n: nat)
    ensures
        decimal_digits(n).len() >= 1,
        n < 100 ==> decimal_digits(n).len() <= 2,
        n < 1000 ==> decimal_digits(n).len() <= 3,
        forall|i: int|
            0 <= i < decimal_digits(n).len() ==> '0' <= #[trigger] decimal_digits(n)[i] <= '9',
    decreases n,
{
    if n >= 10 {
        lemma_decimal_digits_chars(n / 10);
    }
}

/// The decimal text of an integer holds no comma and is never empty.
proof fn lemma_decimal_text_comma_free(v: int)
    ensures
        decimal_text(v).len() >= 1,
        forall|i: int| 0 <= i < decimal_text(v).len() ==> decimal_text(v)[i] != ',',
{
    let m: nat = if v < 0 { (-v) as nat } else { v as nat };
    lemma_decimal_digits_chars(m);
    if v < 0 {
        assert forall|i: int| 0 <= i < decimal_text(v).len() implies decimal_text(v)[i] != ',' by {
            if i > 0 {
                assert(decimal_text(v)[i] == decimal_digits(m)[i - 1]);
            }
        }
    }
}

/// Removing the separators from a formatted number gives back its plain
/// decimal text: formatting only inserts commas.
pub proof fn law_commas_removed_give_decimal_text(v: int)
    ensures
        without_commas(group_by_thousands(decimal_text(v))) == decimal_text(v),
{
    lemma_group_then_strip(decimal_text(v));
    lemma_decimal_text_comma_free(v);
    lemma_without_commas_of_comma_free(decimal_text(v));
}

/// A text of `n >= 1` characters gains exactly `(n - 1) / 3` separators.
pub proof fn law_grouped_length(s: Seq<char>)
    requires
        s.len() >= 1,
    ensures
        group_by_thousands(s).len() == s.len() + (s.len() - 1) / 3,
    decreases s.len(),
{
    if s.len() > 3 {
        law_grouped_length(s.take(s.len() - 3));
    }
}

/// A number whose decimal text has at most three characters (from -99 to
/// 999) is formatted without any separator.
pub proof fn law_short_numbers_unchanged(v: int)
    requires
        -100 < v < 1000,
    ensures
        group_by_thousands(decimal_text(v)) == decimal_text(v),
{
    if v < 0 {
        lemma_decimal_digits_chars((-v) as nat);
    } else {
        lemma_decimal_digits_chars(v as nat);
    }
}

} // verus!
