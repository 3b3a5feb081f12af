//! Building and taking apart the texts that the program shows.

use vstd::prelude::*;

verus! {

/// `String::push` of std: appends one character to the text.
pub assume_specification[ String::push ](s: &mut String, c: char)
    ensures
        final(s)@ == old(s)@.push(c),
;

/// The character of a digit in base ten or sixteen, with upper-case letters.
pub open spec fn digit_char(d: int) -> char {
    if d < 10 {
        (48 + d) as char
    } else {
        (55 + d) as char
    }
}

/// The same digit, with lower-case letters.
pub open spec fn digit_char_lower(d: int) -> char {
    if d < 10 {
        (48 + d) as char
    } else {
        (87 + d) as char
    }
}

/// A natural number in base ten, without leading zeros.
pub open spec fn dec_nat(n: nat) -> Seq<char>
    decreases n,
{
    if n < 10 {
        seq![digit_char(n as int)]
    } else {
        dec_nat(n / 10).push(digit_char((n % 10) as int))
    }
}

/// An integer in base ten, with a leading minus sign where it is negative.
pub open spec fn dec(n: int) -> Seq<char> {
    if n < 0 {
        seq!['-'] + dec_nat((-n) as nat)
    } else {
        dec_nat(n as nat)
    }
}

/// A natural number in base sixteen, upper case, without leading zeros.
pub open spec fn hex_upper(n: nat) -> Seq<char>
    decreases n,
{
    if n < 16 {
        seq![digit_char(n as int)]
    } else {
        hex_upper(n / 16).push(digit_char((n % 16) as int))
    }
}

/// The last `width` digits of a number in base sixteen, lower case.
pub open spec fn hex_fixed_lower(n: nat, width: nat) -> Seq<char>
    decreases width,
{
    if width == 0 {
        Seq::empty()
    } else {
        hex_fixed_lower(n / 16, (width - 1) as nat).push(digit_char_lower((n % 16) as int))
    }
}

/// A text with zeros in front, up to a width of two.
pub open spec fn pad2(s: Seq<char>) -> Seq<char> {
    if s.len() < 2 {
        seq!['0'] + s
    } else {
        s
    }
}

fn digit(d: u8) -> (c: char)
    requires
        d < 16,
    ensures
        c == digit_char(d as int),
{
    if d < 10 {
        (48 + d) as char
    } else {
        (55 + d) as char
    }
}

fn digit_lower(d: u8) -> (c: char)
    requires
        d < 16,
    ensures
        c == digit_char_lower(d as int),
{
    if d < 10 {
        (48 + d) as char
    } else {
        (87 + d) as char
    }
}

/// Appends a natural number in base ten.
pub fn push_dec_nat(s: &mut String, n: u64)
    ensures
        final(s)@ == old(s)@ + dec_nat(n as nat),
    decreases n,
{
    if n < 10 {
        s.push(digit(n as u8));
    } else {
        push_dec_nat(s, n / 10);
        s.push(digit((n % 10) as u8));
    }
    assert(s@ =~= old(s)@ + dec_nat(n as nat));
}

/// Appends an integer in base ten.
pub fn push_dec(s: &mut String, n: i64)
    ensures
        final(s)@ == old(s)@ + dec(n as int),
{
    if n < 0 {
        s.push('-');
        let magnitude: i128 = -(n as i128);
        push_dec_nat(s, magnitude as u64);
        assert(s@ =~= old(s)@ + dec(n as int));
    } else {
        push_dec_nat(s, n as u64);
    }
}

/// Appends a number in base sixteen, upper case, with at least two digits.
pub fn push_hex2_upper(s: &mut String, n: u32)
    ensures
        final(s)@ == old(s)@ + pad2(hex_upper(n as nat)),
{
    if n < 16 {
        s.push('0');
        proof {
            assert(hex_upper(n as nat).len() == 1);
        }
    } else {
        proof {
            lemma_hex_upper_nonempty((n / 16) as nat);
        }
    }
    push_hex_upper(s, n as u64);
    assert(s@ =~= old(s)@ + pad2(hex_upper(n as nat)));
}

proof fn lemma_hex_upper_nonempty(n: nat)
    ensures
        hex_upper(n).len() >= 1,
    decreases n,
{
    if n >= 16 {
        lemma_hex_upper_nonempty(n / 16);
    }
}

/// Appends a number in base sixteen, upper case.
pub fn push_hex_upper(s: &mut String, n: u64)
    ensures
        final(s)@ == old(s)@ + hex_upper(n as nat),
    decreases n,
{
    if n < 16 {
        s.push(digit(n as u8));
    } else {
        push_hex_upper(s, n / 16);
        s.push(digit((n % 16) as u8));
    }
    assert(s@ =~= old(s)@ + hex_upper(n as nat));
}

/// Appends the last `width` digits of a number in base sixteen, lower case.
pub fn push_hex_fixed_lower(s: &mut String, n: u64, width: u8)
    ensures
        final(s)@ == old(s)@ + hex_fixed_lower(n as nat, width as nat),
    decreases width,
{
    if width > 0 {
        push_hex_fixed_lower(s, n / 16, width - 1);
        s.push(digit_lower((n % 16) as u8));
    }
    assert(s@ =~= old(s)@ + hex_fixed_lower(n as nat, width as nat));
}

/// Appends a natural number in base ten, with at least two digits.
pub fn push_dec2(s: &mut String, n: u64)
    ensures
        final(s)@ == old(s)@ + pad2(dec_nat(n as nat)),
{
    if n < 10 {
        s.push('0');
        proof {
            assert(dec_nat(n as nat).len() == 1);
        }
    } else {
        proof {
            lemma_dec_nat_nonempty((n / 10) as nat);
        }
    }
    push_dec_nat(s, n);
    assert(s@ =~= old(s)@ + pad2(dec_nat(n as nat)));
}

/// The decimal text of a number is not empty.
pub proof fn lemma_dec_nat_nonempty(n: nat)
    ensures
        dec_nat(n).len() >= 1,
    decreases n,
{
    if n >= 10 {
        lemma_dec_nat_nonempty(n / 10);
    }
}

/// The value that a text of decimal digits stands for.
pub open spec fn dec_value(s: Seq<char>) -> int
    decreases s.len(),
{
    if s.len() == 0 {
        0
    } else {
        10 * dec_value(s.drop_last()) + (s.last() as int - 48)
    }
}

/// The decimal text of a number reads back as that number, so no two numbers are shown
/// alike.
pub proof fn law_dec_reads_back(n: nat)
    ensures
        dec_value(dec_nat(n)) == n,
    decreases n,
{
    if n >= 10 {
        law_dec_reads_back(n / 10);
        assert(dec_nat(n).drop_last() =~= dec_nat(n / 10));
    } else {
        assert(dec_nat(n).drop_last() =~= Seq::<char>::empty());
        assert(dec_value(dec_nat(n).drop_last()) == 0);
    }
}

/// The texts one after the other, with a separator between neighbours.
pub open spec fn join(parts: Seq<Seq<char>>, sep: Seq<char>) -> Seq<char>
    decreases parts.len(),
{
    if parts.len() == 0 {
        Seq::empty()
    } else if parts.len() == 1 {
        parts[0]
    } else {
        join(parts.drop_last(), sep) + sep + parts.last()
    }
}

/// The texts that a list of strings holds.
pub open spec fn views(parts: Seq<String>) -> Seq<Seq<char>> {
    parts.map_values(|s: String| s@)
}

/// Joins the parts with a separator between neighbours.
pub fn join_parts(parts: &Vec<String>, sep: &str) -> (r: String)
    ensures
        r@ == join(views(parts@), sep@),
{
    let mut out: String = String::new();
    let mut i: usize = 0;
    while i < parts.len()
        invariant
            i <= parts.len(),
            out@ == join(views(parts@).take(i as int), sep@),
        decreases parts.len() - i,
    {
        proof {
            let ghost before = views(parts@).take(i as int);
            let ghost after = views(parts@).take(i + 1);
            assert(after.drop_last() =~= before);
            assert(after.last() == parts@[i as int]@);
        }
        if i > 0 {
            out.append(sep);
        }
        out.append(parts[i].as_str());
        i = i + 1;
        proof {
            assert(out@ =~= join(views(parts@).take(i as int), sep@));
        }
    }
    proof {
        assert(views(parts@).take(i as int) =~= views(parts@));
    }
    out
}

/// The characters of the Unicode property White_Space.
pub open spec fn is_white(c: char) -> bool {
    let n = c as int;
    ||| 9 <= n <= 13
    ||| n == 32
    ||| n == 0x85
    ||| n == 0xa0
    ||| n == 0x1680
    ||| 0x2000 <= n <= 0x200a
    ||| n == 0x2028
    ||| n == 0x2029
    ||| n == 0x202f
    ||| n == 0x205f
    ||| n == 0x3000
}

/// The text without the white space at its two ends.
pub open spec fn trimmed(s: Seq<char>) -> Seq<char>
    decreases s.len(),
{
    if s.len() == 0 {
        s
    } else if is_white(s.first()) {
        trimmed(s.drop_first())
    } else if is_white(s.last()) {
        trimmed(s.drop_last())
    } else {
        s
    }
}

fn white(c: char) -> (r: bool)
    ensures
        r == is_white(c),
{
    let n: u32 = c as u32;
    (9 <= n && n <= 13) || n == 32 || n == 0x85 || n == 0xa0 || n == 0x1680 || (0x2000 <= n && n
        <= 0x200a) || n == 0x2028 || n == 0x2029 || n == 0x202f || n == 0x205f || n == 0x3000
}

/// Removes the white space at the two ends of a text.
pub fn trim_text(s: &str) -> (r: String)
    ensures
        r@ == trimmed(s@),
{
    let mut i: usize = 0;
    let mut j: usize = s.unicode_len();
    proof {
        assert(s@.subrange(0, j as int) =~= s@);
    }
    while i < j && white(s.get_char(i))
        invariant
            i <= j,
            j == s@.len(),
            trimmed(s@) == trimmed(s@.subrange(i as int, j as int)),
        decreases j - i,
    {
        proof {
            let ghost rest = s@.subrange(i as int, j as int);
            assert(rest.drop_first() =~= s@.subrange(i + 1, j as int));
        }
        i = i + 1;
    }
    while i < j && white(s.get_char(j - 1))
        invariant
            i <= j <= s@.len(),
            i < j ==> !is_white(s@[i as int]),
            trimmed(s@) == trimmed(s@.subrange(i as int, j as int)),
        decreases j - i,
    {
        proof {
            let ghost rest = s@.subrange(i as int, j as int);
            assert(rest.first() == s@[i as int]);
            assert(rest.drop_last() =~= s@.subrange(i as int, j - 1));
        }
        j = j - 1;
    }
    proof {
        let ghost rest = s@.subrange(i as int, j as int);
        if i < j {
            assert(rest.first() == s@[i as int]);
            assert(rest.last() == s@[j - 1]);
        }
        assert(trimmed(rest) == rest);
    }
    s.substring_char(i, j).to_owned()
}

/// Trimming a trimmed text changes nothing.
pub proof fn law_trim_is_idempotent(s: Seq<char>)
    ensures
        trimmed(trimmed(s)) == trimmed(s),
    decreases s.len(),
{
    if s.len() > 0 {
        if is_white(s.first()) {
            law_trim_is_idempotent(s.drop_first());
        } else if is_white(s.last()) {
            law_trim_is_idempotent(s.drop_last());
        }
    }
}

/// Whether a text begins with a prefix.
pub open spec fn begins_with(s: Seq<char>, prefix: Seq<char>) -> bool {
    prefix.len() <= s.len() && s.subrange(0, prefix.len() as int) == prefix
}

/// Whether a text begins with a prefix.
pub fn starts_with(s: &str, prefix: &str) -> (r: bool)
    ensures
        r == begins_with(s@, prefix@),
{
    let n: usize = prefix.unicode_len();
    if s.unicode_len() < n {
        return false;
    }
    s.substring_char(0, n).to_owned() == prefix.to_owned()
}

/// Whether two texts are the same.
pub fn same_text(a: &str, b: &str) -> (r: bool)
    ensures
        r == (a@ == b@),
{
    a.to_owned() == b.to_owned()
}

/// A row of spaces.
pub open spec fn spaces(n: nat) -> Seq<char> {
    Seq::new(n, |i: int| ' ')
}

/// A text with spaces before it, so that it has at least a width.
pub open spec fn pad_start(s: Seq<char>, width: nat) -> Seq<char> {
    if s.len() >= width {
        s
    } else {
        spaces((width - s.len()) as nat) + s
    }
}

/// A text with spaces after it, so that it has at least a width.
pub open spec fn pad_end(s: Seq<char>, width: nat) -> Seq<char> {
    if s.len() >= width {
        s
    } else {
        s + spaces((width - s.len()) as nat)
    }
}

fn push_spaces(s: &mut String, n: usize)
    ensures
        final(s)@ == old(s)@ + spaces(n as nat),
{
    let mut i: usize = 0;
    proof {
        assert(s@ =~= old(s)@ + spaces(0));
    }
    while i < n
        invariant
            i <= n,
            s@ == old(s)@ + spaces(i as nat),
        decreases n - i,
    {
        s.push(' ');
        i = i + 1;
        proof {
            assert(s@ =~= old(s)@ + spaces(i as nat));
        }
    }
}

/// Appends a text with spaces before it, so that it has at least a width.
pub fn push_pad_start(s: &mut String, t: &str, width: usize)
    ensures
        final(s)@ == old(s)@ + pad_start(t@, width as nat),
{
    let n: usize = t.unicode_len();
    if n < width {
        push_spaces(s, width - n);
    }
    s.append(t);
    proof {
        assert(s@ =~= old(s)@ + pad_start(t@, width as nat));
    }
}

/// Appends a text with spaces after it, so that it has at least a width.
pub fn push_pad_end(s: &mut String, t: &str, width: usize)
    ensures
        final(s)@ == old(s)@ + pad_end(t@, width as nat),
{
    let n: usize = t.unicode_len();
    s.append(t);
    if n < width {
        push_spaces(s, width - n);
    }
    proof {
        assert(s@ =~= old(s)@ + pad_end(t@, width as nat));
    }
}

/// Whether a text holds another one at a place.
pub open spec fn has_at(s: Seq<char>, part: Seq<char>, at: int) -> bool {
    0 <= at && at + part.len() <= s.len() && s.subrange(at, at + part.len()) == part
}

/// Whether a text holds another one.
pub open spec fn holds(s: Seq<char>, part: Seq<char>) -> bool {
    exists|at: int| has_at(s, part, at)
}

/// Whether a text holds another one.
pub fn contains_text(s: &str, part: &str) -> (r: bool)
    ensures
        r == holds(s@, part@),
{
    let n: usize = s.unicode_len();
    let m: usize = part.unicode_len();
    if n < m {
        return false;
    }
    let wanted: String = part.to_owned();
    let mut at: usize = 0;
    while at <= n - m
        invariant
            n == s@.len(),
            m == part@.len(),
            m <= n,
            at <= n - m + 1,
            wanted@ == part@,
            forall|k: int| 0 <= k < at ==> !has_at(s@, part@, k),
        decreases n - m + 1 - at,
    {
        if s.substring_char(at, at + m).to_owned() == wanted {
            proof {
                assert(has_at(s@, part@, at as int));
            }
            return true;
        }
        if at == n - m {
            return false;
        }
        at = at + 1;
    }
    false
}

/// The value that a text of hexadecimal digits stands for, upper or lower case.
pub open spec fn hex_value(s: Seq<char>) -> int
    decreases s.len(),
{
    if s.len() == 0 {
        0
    } else {
        let c = s.last() as int;
        let d = if c >= 97 {
            c - 87
        } else if c >= 65 {
            c - 55
        } else {
            c - 48
        };
        16 * hex_value(s.drop_last()) + d
    }
}

/// The hexadecimal text of a number reads back as that number.
pub proof fn law_hex_reads_back(n: nat)
    ensures
        hex_value(hex_upper(n)) == n,
    decreases n,
{
    if n >= 16 {
        law_hex_reads_back(n / 16);
        assert(hex_upper(n).drop_last() =~= hex_upper(n / 16));
    } else {
        assert(hex_upper(n).drop_last() =~= Seq::<char>::empty());
        assert(hex_value(hex_upper(n).drop_last()) == 0);
    }
}

/// A hexadecimal text of a fixed width has that width.
pub proof fn law_fixed_hex_has_its_width(n: nat, width: nat)
    ensures
        hex_fixed_lower(n, width).len() == width,
    decreases width,
{
    if width > 0 {
        law_fixed_hex_has_its_width(n / 16, (width - 1) as nat);
    }
}

/// The text of a negative number is a minus sign and the text of the number without it.
pub proof fn law_negative_numbers_have_a_sign(n: int)
    ensures
        n < 0 ==> dec(n).len() > 1 && dec(n)[0] == '-' && dec_value(dec(n).skip(1)) == -n,
        n >= 0 ==> dec_value(dec(n)) == n,
{
    if n < 0 {
        law_dec_reads_back((-n) as nat);
        lemma_dec_nat_nonempty((-n) as nat);
        assert(dec(n).skip(1) =~= dec_nat((-n) as nat));
    } else {
        law_dec_reads_back(n as nat);
    }
}

/// Trimming takes away white space at the two ends and nothing else, and all of it there.
pub proof fn law_trim_takes_away_white_space(s: Seq<char>) -> (r: (int, int))
    ensures
        0 <= r.0 <= r.1 <= s.len(),
        trimmed(s) == s.subrange(r.0, r.1),
        forall|i: int| 0 <= i < r.0 ==> is_white(#[trigger] s[i]),
        forall|i: int| r.1 <= i < s.len() ==> is_white(#[trigger] s[i]),
        trimmed(s).len() > 0 ==> !is_white(trimmed(s).first()) && !is_white(trimmed(s).last()),
    decreases s.len(),
{
    if s.len() == 0 {
        assert(s.subrange(0, 0) =~= s);
        (0, 0)
    } else if is_white(s.first()) {
        let rest = s.drop_first();
        let (i, j) = law_trim_takes_away_white_space(rest);
        assert(rest.subrange(i, j) =~= s.subrange(i + 1, j + 1));
        assert forall|k: int| 0 <= k < i + 1 implies is_white(#[trigger] s[k]) by {
            if k > 0 {
                assert(rest[k - 1] == s[k]);
            }
        }
        assert forall|k: int| j + 1 <= k < s.len() implies is_white(#[trigger] s[k]) by {
            assert(rest[k - 1] == s[k]);
        }
        (i + 1, j + 1)
    } else if is_white(s.last()) {
        let rest = s.drop_last();
        let (i, j) = law_trim_takes_away_white_space(rest);
        assert(rest.subrange(i, j) =~= s.subrange(i, j));
        assert forall|k: int| 0 <= k < i implies is_white(#[trigger] s[k]) by {
            assert(rest[k] == s[k]);
        }
        assert forall|k: int| j <= k < s.len() implies is_white(#[trigger] s[k]) by {
            if k < rest.len() {
                assert(rest[k] == s[k]);
            }
        }
        (i, j)
    } else {
        assert(s.subrange(0, s.len() as int) =~= s);
        (0, s.len() as int)
    }
}

/// Of the plain characters the space, the tab and the ends of lines are white space.
pub proof fn law_plain_white_space(c: char)
    requires
        (c as int) < 128,
    ensures
        is_white(c) <==> c == ' ' || c as int == 9 || c as int == 10 || c as int == 11 || c as int
            == 12 || c as int == 13,
{
}

/// A padded text has at least its width and ends or begins with the text; one that is wide
/// enough stays as it is.
pub proof fn law_padding_keeps_the_text(s: Seq<char>, width: nat)
    ensures
        pad_start(s, width).len() == (if s.len() < width {
            width
        } else {
            s.len()
        }),
        pad_end(s, width).len() == pad_start(s, width).len(),
        pad_start(s, width).skip(pad_start(s, width).len() - s.len()) == s,
        pad_end(s, width).take(s.len() as int) == s,
        s.len() >= width ==> pad_start(s, width) == s && pad_end(s, width) == s,
        forall|i: int|
            0 <= i < pad_start(s, width).len() - s.len() ==> #[trigger] pad_start(s, width)[i] == ' ',
        forall|i: int|
            s.len() <= i < pad_end(s, width).len() ==> #[trigger] pad_end(s, width)[i] == ' ',
{
    assert(pad_start(s, width).skip(pad_start(s, width).len() - s.len()) =~= s);
    assert(pad_end(s, width).take(s.len() as int) =~= s);
}

/// A hexadecimal text of a fixed width reads back as the number where it fits.
pub proof fn law_fixed_hex_reads_back(n: nat, width: nat)
    requires
        n < vstd::arithmetic::power::pow(16, width),
    ensures
        hex_value(hex_fixed_lower(n, width)) == n,
    decreases width,
{
    reveal(vstd::arithmetic::power::pow);
    if width > 0 {
        let p = vstd::arithmetic::power::pow(16, (width - 1) as nat);
        assert(n < 16 * p);
        assert(n / 16 < p);
        law_fixed_hex_reads_back(n / 16, (width - 1) as nat);
        assert(hex_fixed_lower(n, width).drop_last() =~= hex_fixed_lower(
            n / 16,
            (width - 1) as nat,
        ));
    }
}

/// The hexadecimal text of a number is not empty.
pub proof fn lemma_hex_nonempty(n: nat)
    ensures
        hex_upper(n).len() > 0,
{
}

} // verus!
