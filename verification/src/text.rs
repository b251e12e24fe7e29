//! Text helpers: numbers in decimal and hexadecimal, comparison of strings, and
//! the reading of one number back out of text.
use vstd::prelude::*;
use vstd::string::*;

verus! {

/// The decimal digit of a value below ten.
pub open spec fn digit_char(d: nat) -> char {
    ((48 + d) as int) as char
}

/// The shortest decimal numeral of `n`.
pub open spec fn decimal(n: nat) -> Seq<char>
    decreases n,
{
    if n < 10 {
        seq![digit_char(n)]
    } else {
        decimal(n / 10).push(digit_char(n % 10))
    }
}

/// The lower-case hexadecimal digit of a value below sixteen.
pub open spec fn hex_char(d: nat) -> char {
    if d < 10 {
        ((48 + d) as int) as char
    } else {
        ((87 + d) as int) as char
    }
}

/// The low `width` hexadecimal digits of `n`, most significant first.
pub open spec fn hex(n: nat, width: nat) -> Seq<char>
    decreases width,
{
    if width == 0 {
        Seq::empty()
    } else {
        hex(n / 16, (width - 1) as nat).push(hex_char(n % 16))
    }
}

/// Whether `c` is one of the ten decimal digits.
pub open spec fn is_digit(c: char) -> bool {
    '0' <= c <= '9'
}

/// Whether `s` holds nothing but decimal digits.
pub open spec fn all_digits(s: Seq<char>) -> bool {
    forall|i: int| 0 <= i < s.len() ==> is_digit(#[trigger] s[i])
}

/// What a run of decimal digits stands for.
pub open spec fn digits_value(s: Seq<char>) -> nat
    decreases s.len(),
{
    if s.len() == 0 {
        0
    } else {
        digits_value(s.drop_last()) * 10 + (s.last() as nat - 48) as nat
    }
}

/// The digits of a numeral: what is left of it without one leading plus sign.
pub open spec fn unsigned_digits(s: Seq<char>) -> Seq<char> {
    if s.len() > 0 && s[0] == '+' {
        s.skip(1)
    } else {
        s
    }
}

/// The number that `s` spells: an optional plus sign and at least one digit,
/// with a value that fits in 64 bits.
pub open spec fn number_of(s: Seq<char>) -> Option<u64> {
    let digits = unsigned_digits(s);
    if digits.len() > 0 && all_digits(digits) && digits_value(digits) <= u64::MAX {
        Some(digits_value(digits) as u64)
    } else {
        None
    }
}

/// Whether `s` begins with `prefix`.
pub open spec fn has_prefix(s: Seq<char>, prefix: Seq<char>) -> bool {
    &&& prefix.len() <= s.len()
    &&& s.take(prefix.len() as int) == prefix
}

fn digit_text(d: u8) -> (r: &'static str)
    requires
        d < 10,
    ensures
        r@ == seq![digit_char(d as nat)],
{
    proof {
        reveal_strlit("0");
        reveal_strlit("1");
        reveal_strlit("2");
        reveal_strlit("3");
        reveal_strlit("4");
        reveal_strlit("5");
        reveal_strlit("6");
        reveal_strlit("7");
        reveal_strlit("8");
        reveal_strlit("9");
    }
    match d {
        0 => "0",
        1 => "1",
        2 => "2",
        3 => "3",
        4 => "4",
        5 => "5",
        6 => "6",
        7 => "7",
        8 => "8",
        _ => "9",
    }
}

fn hex_text(d: u8) -> (r: &'static str)
    requires
        d < 16,
    ensures
        r@ == seq![hex_char(d as nat)],
{
    if d < 10 {
        return digit_text(d);
    }
    proof {
        reveal_strlit("a");
        reveal_strlit("b");
        reveal_strlit("c");
        reveal_strlit("d");
        reveal_strlit("e");
        reveal_strlit("f");
    }
    match d {
        10 => "a",
        11 => "b",
        12 => "c",
        13 => "d",
        14 => "e",
        _ => "f",
    }
}

/// Appends `n` in decimal.
pub fn push_decimal(out: &mut String, n: u64)
    ensures
        final(out)@ == old(out)@ + decimal(n as nat),
    decreases n,
{
    if n >= 10 {
        push_decimal(out, n / 10);
    }
    out.append(digit_text((n % 10) as u8));
    proof {
        assert(out@ =~= old(out)@ + decimal(n as nat));
    }
}

/// Appends the low `width` hexadecimal digits of `n`.
pub fn push_hex(out: &mut String, n: u128, width: u32)
    ensures
        final(out)@ == old(out)@ + hex(n as nat, width as nat),
    decreases width,
{
    if width > 0 {
        push_hex(out, n / 16, width - 1);
        out.append(hex_text((n % 16) as u8));
    }
    proof {
        assert(out@ =~= old(out)@ + hex(n as nat, width as nat));
    }
}

/// `n` in decimal.
pub fn decimal_text(n: u64) -> (r: String)
    ensures
        r@ == decimal(n as nat),
{
    let mut out = String::new();
    push_decimal(&mut out, n);
    proof {
        assert(out@ =~= decimal(n as nat));
    }
    out
}

/// The characters of `s`, one by one.
pub fn chars_of(s: &str) -> (r: Vec<char>)
    ensures
        r@ == s@,
{
    let mut r: Vec<char> = Vec::new();
    let n = s.unicode_len();
    let mut i: usize = 0;
    while i < n
        invariant
            n == s@.len(),
            i <= n,
            r@ == s@.take(i as int),
        decreases n - i,
    {
        r.push(s.get_char(i));
        i += 1;
    }
    proof {
        assert(r@ =~= s@);
    }
    r
}

/// Whether `a` and `b` are the same text.
pub fn same_text(a: &str, b: &str) -> (r: bool)
    ensures
        r == (a@ == b@),
{
    a.to_owned() == b.to_owned()
}

/// Whether `s` begins with `prefix`.
pub fn starts_with(s: &str, prefix: &str) -> (r: bool)
    ensures
        r == has_prefix(s@, prefix@),
{
    let n = prefix.unicode_len();
    if s.unicode_len() < n {
        return false;
    }
    same_text(s.substring_char(0, n), prefix)
}

/// The pieces of `s` between the separators: always at least one, possibly empty.
pub open spec fn split(s: Seq<char>, separator: char) -> Seq<Seq<char>>
    decreases s.len(),
{
    if s.len() == 0 {
        seq![Seq::empty()]
    } else {
        let pieces = split(s.drop_last(), separator);
        if s.last() == separator {
            pieces.push(Seq::empty())
        } else {
            pieces.drop_last().push(pieces.last().push(s.last()))
        }
    }
}

/// What follows `prefix` in the first piece that begins with it.
pub open spec fn first_after(pieces: Seq<Seq<char>>, prefix: Seq<char>) -> Option<Seq<char>>
    decreases pieces.len(),
{
    if pieces.len() == 0 {
        None
    } else if has_prefix(pieces[0], prefix) {
        Some(pieces[0].skip(prefix.len() as int))
    } else {
        first_after(pieces.skip(1), prefix)
    }
}

/// Cuts `s` at the separators.
pub fn split_text(s: &str, separator: char) -> (r: Vec<Vec<char>>)
    ensures
        r@.map_values(|piece: Vec<char>| piece@) == split(s@, separator),
{
    let n = s.unicode_len();
    let mut done: Vec<Vec<char>> = Vec::new();
    let mut piece: Vec<char> = Vec::new();
    let mut i: usize = 0;
    proof {
        assert(done@.map_values(|piece: Vec<char>| piece@).push(piece@) =~= split(
            s@.take(0),
            separator,
        ));
    }
    while i < n
        invariant
            n == s@.len(),
            i <= n,
            done@.map_values(|piece: Vec<char>| piece@).push(piece@) == split(
                s@.take(i as int),
                separator,
            ),
        decreases n - i,
    {
        let c = s.get_char(i);
        let ghost before = done@.map_values(|piece: Vec<char>| piece@);
        let ghost last = piece@;
        proof {
            assert(s@.take(i + 1).drop_last() =~= s@.take(i as int));
            assert(before.push(last).drop_last() =~= before);
        }
        if c == separator {
            done.push(piece);
            piece = Vec::new();
            proof {
                assert(done@.map_values(|piece: Vec<char>| piece@) =~= before.push(last));
                assert(piece@ =~= Seq::<char>::empty());
            }
        } else {
            piece.push(c);
        }
        i += 1;
    }
    proof {
        assert(s@.take(n as int) =~= s@);
    }
    let ghost before = done@.map_values(|piece: Vec<char>| piece@);
    let ghost last = piece@;
    done.push(piece);
    proof {
        assert(done@.map_values(|piece: Vec<char>| piece@) =~= before.push(last));
    }
    done
}

/// A longer run of digits stands for at least as much as its beginning.
proof fn lemma_digits_grow(s: Seq<char>, k: int)
    requires
        0 <= k <= s.len(),
    ensures
        digits_value(s.take(k)) <= digits_value(s),
    decreases s.len() - k,
{
    if k < s.len() {
        lemma_digits_grow(s, k + 1);
        assert(s.take(k + 1).drop_last() =~= s.take(k));
    } else {
        assert(s.take(k) =~= s);
    }
}

/// Reads the number that the characters from `start` on spell.
pub fn parse_number(s: &Vec<char>, start: usize, end: usize) -> (r: Option<u64>)
    requires
        start <= end <= s@.len(),
    ensures
        r == number_of(s@.subrange(start as int, end as int)),
{
    let ghost whole = s@.subrange(start as int, end as int);
    let mut i: usize = start;
    if start < end && s[start] == '+' {
        i = start + 1;
    }
    let ghost digits = unsigned_digits(whole);
    let first: usize = i;
    proof {
        assert(digits =~= s@.subrange(first as int, end as int));
    }
    if first == end {
        return None;
    }
    let mut value: u64 = 0;
    while i < end
        invariant
            first <= i <= end <= s@.len(),
            digits == s@.subrange(first as int, end as int),
            digits.len() == end - first,
            first < end,
            all_digits(digits.take(i - first)),
            value == digits_value(digits.take(i - first)),
            digits == unsigned_digits(whole),
            whole == s@.subrange(start as int, end as int),
            start <= end,
        decreases end - i,
    {
        let c = s[i];
        let ghost k = i - first;
        proof {
            assert(digits[k] == c);
            assert(digits.take(k + 1).drop_last() =~= digits.take(k));
            assert(digits.take(k + 1).last() == c);
        }
        if c < '0' || c > '9' {
            proof {
                assert(!is_digit(digits[k]));
            }
            return None;
        }
        let d: u64 = (c as u32 - '0' as u32) as u64;
        proof {
            lemma_digits_grow(digits, k + 1);
            assert(digits_value(digits.take(k + 1)) == value * 10 + d);
        }
        if value > (u64::MAX - d) / 10 {
            return None;
        }
        value = value * 10 + d;
        i += 1;
        proof {
            assert forall|j: int| 0 <= j < digits.take(k + 1).len() implies is_digit(
                #[trigger] digits.take(k + 1)[j],
            ) by {
                if j < k {
                    assert(digits.take(k)[j] == digits[j]);
                    assert(is_digit(digits.take(k)[j]));
                }
            }
        }
    }
    proof {
        assert(digits.take(end - first) =~= digits);
    }
    Some(value)
}

/// Every decimal numeral is made of digits, at least one of them.
pub proof fn lemma_decimal_digits(n: nat)
    ensures
        decimal(n).len() > 0,
        all_digits(decimal(n)),
        digits_value(decimal(n)) == n,
    decreases n,
{
    if n < 10 {
        let s = decimal(n);
        assert(s.drop_last() =~= Seq::<char>::empty());
        assert(digits_value(s.drop_last()) == 0);
        assert(digits_value(s) == n);
    } else {
        lemma_decimal_digits(n / 10);
        let s = decimal(n);
        assert(s.drop_last() =~= decimal(n / 10));
        assert forall|i: int| 0 <= i < s.len() implies is_digit(#[trigger] s[i]) by {
            if i < s.len() - 1 {
                assert(s[i] == decimal(n / 10)[i]);
            }
        }
    }
}

/// A number written in decimal reads back as itself.
pub proof fn law_decimal_reads_back(n: u64)
    ensures
        number_of(decimal(n as nat)) == Some(n),
{
    lemma_decimal_digits(n as nat);
    assert(is_digit(decimal(n as nat)[0]));
}

/// What a run of hexadecimal digits stands for.
pub open spec fn hex_value(s: Seq<char>) -> nat
    decreases s.len(),
{
    if s.len() == 0 {
        0
    } else {
        hex_value(s.drop_last()) * 16 + (if '0' <= s.last() <= '9' {
            (s.last() as nat - 48) as nat
        } else {
            (s.last() as nat - 97 + 10) as nat
        })
    }
}

/// How many numbers can be told apart by so many hexadecimal digits.
pub open spec fn hex_span(width: nat) -> nat
    decreases width,
{
    if width == 0 {
        1
    } else {
        16 * hex_span((width - 1) as nat)
    }
}

/// A number in hexadecimal has as many digits as asked for, in lower case, and reads back
/// as itself where it has no more.
pub proof fn law_hex_reads_back(n: nat, width: nat)
    ensures
        hex(n, width).len() == width,
        forall|i: int|
            0 <= i < width ==> '0' <= #[trigger] hex(n, width)[i] <= '9' || 'a' <= hex(n, width)[i]
                <= 'f',
        n < hex_span(width) ==> hex_value(hex(n, width)) == n,
    decreases width,
{
    if width > 0 {
        let s = hex(n, width);
        let rest = hex(n / 16, (width - 1) as nat);
        law_hex_reads_back(n / 16, (width - 1) as nat);
        assert(s.drop_last() =~= rest);
        assert forall|i: int| 0 <= i < width implies '0' <= #[trigger] s[i] <= '9' || 'a' <= s[i]
            <= 'f' by {
            if i < width - 1 {
                assert(s[i] == rest[i]);
            }
        }
    }
}

/// The shortest numeral of a number does not begin with a zero, unless it is zero's.
pub proof fn law_decimal_is_shortest(n: nat)
    ensures
        n > 0 ==> decimal(n)[0] != '0',
        n == 0 ==> decimal(n) == seq!['0'],
        decimal(n).len() > 0,
    decreases n,
{
    if n >= 10 {
        law_decimal_is_shortest(n / 10);
        assert(decimal(n)[0] == decimal(n / 10)[0]);
    }
}

/// A digit spells its value, and every further digit makes ten times as much and its own
/// value more, as long as that fits in 64 bits.
pub proof fn law_digits_spell(s: Seq<char>, c: char)
    requires
        '0' <= c <= '9',
    ensures
        number_of(seq![c]) == Some((c as int - '0' as int) as u64),
        number_of(seq!['+', c]) == Some((c as int - '0' as int) as u64),
        ({
            let value = number_of(s)->0 * 10 + (c as int - '0' as int);
            number_of(s) is Some ==> number_of(s.push(c)) == (if value <= u64::MAX {
                Some(value as u64)
            } else {
                None
            })
        }),
        number_of(s) is None && s.len() > 0 && s != seq!['+'] ==> number_of(s.push(c)) is None,
{
    assert(unsigned_digits(seq!['+', c]) =~= seq![c]);
    assert(seq![c].drop_last() =~= Seq::<char>::empty());
    assert(digits_value(seq![c].drop_last()) == 0);
    assert(all_digits(seq![c]));
    if s.len() > 0 {
        let digits = unsigned_digits(s);
        let longer = unsigned_digits(s.push(c));
        assert(longer =~= digits.push(c));
        assert(longer.drop_last() =~= digits);
        if all_digits(longer) {
            assert forall|i: int| 0 <= i < digits.len() implies is_digit(#[trigger] digits[i]) by {
                assert(longer[i] == digits[i]);
            }
        }
        if digits.len() == 0 {
            assert(s =~= seq!['+']);
        }
    }
}

/// Nothing, a plus sign alone, and anything with a character that is neither a digit nor a
/// leading plus sign spell no number.
pub proof fn law_what_spells_no_number(s: Seq<char>, i: int)
    ensures
        number_of(Seq::empty()) is None,
        number_of(seq!['+']) is None,
        0 <= i < s.len() && !('0' <= s[i] <= '9') && !(i == 0 && s[i] == '+') ==> number_of(s)
            is None,
{
    assert(unsigned_digits(seq!['+']) =~= Seq::empty());
    if 0 <= i < s.len() && !('0' <= s[i] <= '9') && !(i == 0 && s[i] == '+') {
        let digits = unsigned_digits(s);
        if s[0] == '+' {
            assert(digits[i - 1] == s[i]);
        } else {
            assert(digits[i] == s[i]);
        }
    }
}

/// A text begins with another exactly where it is that one and something after it.
pub proof fn law_prefix(s: Seq<char>, prefix: Seq<char>, tail: Seq<char>)
    ensures
        has_prefix(prefix + tail, prefix),
        has_prefix(s, prefix) ==> s == prefix + s.skip(prefix.len() as int),
{
    assert((prefix + tail).take(prefix.len() as int) =~= prefix);
    if has_prefix(s, prefix) {
        assert(s =~= s.take(prefix.len() as int) + s.skip(prefix.len() as int));
    }
}

/// A text without the separator is its only piece.
pub proof fn law_split_of_one(s: Seq<char>, separator: char)
    requires
        !s.contains(separator),
    ensures
        split(s, separator) == seq![s],
    decreases s.len(),
{
    if s.len() == 0 {
        assert(s =~= Seq::empty());
    } else {
        let rest = s.drop_last();
        assert forall|i: int| 0 <= i < rest.len() implies rest[i] != separator by {
            assert(s.contains(s[i]));
        }
        law_split_of_one(rest, separator);
        assert(s.contains(s[s.len() - 1]));
        assert(rest.push(s.last()) =~= s);
        assert(split(s, separator) =~= seq![s]);
    }
}

/// What stands before the first separator is the first piece, and the others are those of
/// what stands after it.
pub proof fn law_split(first: Seq<char>, separator: char, rest: Seq<char>)
    requires
        !first.contains(separator),
    ensures
        split(first.push(separator) + rest, separator) == seq![first] + split(rest, separator),
        split(rest, separator).len() > 0,
    decreases rest.len(),
{
    let whole = first.push(separator) + rest;
    if rest.len() == 0 {
        law_split_of_one(first, separator);
        assert(whole.drop_last() =~= first);
        assert(split(whole, separator) =~= seq![first] + split(rest, separator));
    } else {
        let shorter = rest.drop_last();
        law_split(first, separator, shorter);
        assert(whole.drop_last() =~= first.push(separator) + shorter);
        let pieces = split(shorter, separator);
        let before = seq![first] + pieces;
        assert(before.drop_last() =~= seq![first] + pieces.drop_last());
        assert(before.last() == pieces.last());
        assert(split(whole, separator) =~= seq![first] + split(rest, separator));
    }
}

/// The first piece that begins with the prefix is the one that counts.
pub proof fn law_first_after(piece: Seq<char>, rest: Seq<Seq<char>>, prefix: Seq<char>, tail: Seq<
    char,
>)
    ensures
        first_after(Seq::empty(), prefix) is None,
        first_after(seq![prefix + tail] + rest, prefix) == Some(tail),
        !has_prefix(piece, prefix) ==> first_after(seq![piece] + rest, prefix) == first_after(
            rest,
            prefix,
        ),
{
    law_prefix(piece, prefix, tail);
    assert((prefix + tail).skip(prefix.len() as int) =~= tail);
    assert((seq![piece] + rest).skip(1) =~= rest);
    assert((seq![prefix + tail] + rest)[0] == prefix + tail);
    assert((seq![piece] + rest)[0] == piece);
}

} // verus!
