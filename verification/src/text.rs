use vstd::prelude::*;

verus! {

/// `String::push` appends the given character at the end of the string
/// (std documentation: "Appends the given `char` to the end of this `String`").
pub assume_specification[ String::push ](s: &mut String, ch: char)
    ensures
        final(s)@ == old(s)@.push(ch),
;

/// The characters of `s`, in order.
pub fn chars_of(s: &str) -> (v: Vec<char>)
    ensures
        v@ == s@,
{
    let mut v: Vec<char> = Vec::new();
    for c in it: s.chars()
        invariant
            v@ == it.seq().take(it.index() as int),
    {
        v.push(c);
    }
    v
}

} // verus!

verus! {

/// The ASCII digit for `d`, which is below ten.
pub open spec fn digit_char(d: nat) -> char {
    (48 + d) as char
}

/// Decimal notation of `n`: no sign, no leading zero, at least one digit.
pub open spec fn decimal(n: nat) -> Seq<char>
    decreases n,
{
    if n < 10 {
        seq![digit_char(n)]
    } else {
        decimal(n / 10).push(digit_char(n % 10))
    }
}

/// Appends the decimal notation of `n` to `out`.
pub fn push_decimal(out: &mut String, n: u64)
    ensures
        final(out)@ == old(out)@ + decimal(n as nat),
    decreases n,
{
    if n >= 10 {
        push_decimal(out, n / 10);
    }
    let d: u8 = (n % 10) as u8;
    let c: char = (48u8 + d) as char;
    out.push(c);
    assert(old(out)@ + decimal(n as nat) =~= final(out)@) by {
        if n >= 10 {
            assert(decimal(n as nat) == decimal((n / 10) as nat).push(digit_char((n % 10) as nat)));
        }
    }
}

/// Decimal notation of `n`, as `n.to_string()` writes it.
pub fn decimal_string(n: u64) -> (s: String)
    ensures
        s@ == decimal(n as nat),
{
    let mut s = String::new();
    push_decimal(&mut s, n);
    assert(s@ =~= decimal(n as nat));
    s
}

} // verus!

verus! {

/// `s` with every occurrence of `pat` replaced by `rep`, occurrences taken
/// from the left and never overlapping, as `str::replace` does for a
/// non-empty pattern.
pub open spec fn replace_all(s: Seq<char>, pat: Seq<char>, rep: Seq<char>) -> Seq<char>
    recommends
        pat.len() > 0,
    decreases s.len(),
{
    if pat.len() == 0 || s.len() < pat.len() {
        s
    } else if s.take(pat.len() as int) == pat {
        rep + replace_all(s.skip(pat.len() as int), pat, rep)
    } else {
        seq![s[0]] + replace_all(s.skip(1), pat, rep)
    }
}

/// Whether `pat` occurs in `s` at position `i`.
fn occurs_at(s: &Vec<char>, i: usize, pat: &Vec<char>) -> (r: bool)
    requires
        i <= s.len(),
    ensures
        r == (i + pat.len() <= s.len() && s@.subrange(i as int, i + pat.len()) == pat@),
{
    if pat.len() > s.len() - i {
        return false;
    }
    let mut j: usize = 0;
    while j < pat.len()
        invariant
            i + pat.len() <= s.len(),
            j <= pat.len(),
            forall|k: int| 0 <= k < j ==> s@[i + k] == pat@[k],
        decreases pat.len() - j,
    {
        if s[i + j] != pat[j] {
            assert(s@.subrange(i as int, i + pat.len())[j as int] != pat@[j as int]);
            return false;
        }
        j += 1;
    }
    assert(s@.subrange(i as int, i + pat.len()) =~= pat@);
    true
}

/// `s` with every occurrence of the non-empty `pat` replaced by `rep`.
pub fn replace_str(s: &str, pat: &str, rep: &str) -> (r: String)
    requires
        pat@.len() > 0,
    ensures
        r@ == replace_all(s@, pat@, rep@),
{
    let sv = chars_of(s);
    let pv = chars_of(pat);
    let mut out = String::new();
    let mut i: usize = 0;
    assert(s@.skip(0) =~= s@);
    while i < sv.len()
        invariant
            sv@ == s@,
            pv@ == pat@,
            pat@.len() > 0,
            i <= sv.len(),
            replace_all(s@, pat@, rep@) == out@ + replace_all(s@.skip(i as int), pat@, rep@),
        decreases sv.len() - i,
    {
        let ghost rest = s@.skip(i as int);
        if occurs_at(&sv, i, &pv) {
            assert(rest.take(pat@.len() as int) =~= s@.subrange(i as int, i + pat@.len()));
            assert(rest.skip(pat@.len() as int) =~= s@.skip(i + pat@.len()));
            out.append(rep);
            i = i + pv.len();
            assert(replace_all(s@, pat@, rep@) =~= out@ + replace_all(s@.skip(i as int), pat@, rep@));
        } else {
            assert(rest.len() >= pat@.len() ==> rest.take(pat@.len() as int) =~= s@.subrange(i as int, i + pat@.len()));
            assert(rest.skip(1) =~= s@.skip(i + 1));
            let c = sv[i];
            out.push(c);
            i = i + 1;
            assert(replace_all(s@, pat@, rep@) =~= out@ + replace_all(s@.skip(i as int), pat@, rep@));
        }
    }
    assert(s@.skip(i as int).len() == 0);
    assert(out@ =~= replace_all(s@, pat@, rep@));
    out
}

} // verus!

verus! {

/// Whether `c` has the Unicode `White_Space` property, which is what
/// `char::is_whitespace` tests.
pub open spec fn is_white_space(c: char) -> bool {
    let u = c as u32;
    ||| 0x09 <= u <= 0x0d
    ||| u == 0x20
    ||| u == 0x85
    ||| u == 0xa0
    ||| u == 0x1680
    ||| 0x2000 <= u <= 0x200a
    ||| u == 0x2028
    ||| u == 0x2029
    ||| u == 0x202f
    ||| u == 0x205f
    ||| u == 0x3000
}

/// Whether `c` is a white-space character.
pub fn char_is_white_space(c: char) -> (r: bool)
    ensures
        r == is_white_space(c),
{
    let u = c as u32;
    (0x09 <= u && u <= 0x0d) || u == 0x20 || u == 0x85 || u == 0xa0 || u == 0x1680 || (0x2000
        <= u && u <= 0x200a) || u == 0x2028 || u == 0x2029 || u == 0x202f || u == 0x205f || u
        == 0x3000
}

/// Whether `s` is empty once leading and trailing white space is trimmed,
/// that is, whether every character of `s` is white space.
pub open spec fn is_blank(s: Seq<char>) -> bool {
    forall|i: int| 0 <= i < s.len() ==> #[trigger] is_white_space(s[i])
}

/// Whether two character sequences are equal.
fn chars_equal(a: &Vec<char>, b: &Vec<char>) -> (r: bool)
    ensures
        r == (a@ == b@),
{
    if a.len() != b.len() {
        return false;
    }
    let mut i: usize = 0;
    while i < a.len()
        invariant
            a.len() == b.len(),
            i <= a.len(),
            forall|k: int| 0 <= k < i ==> a@[k] == b@[k],
        decreases a.len() - i,
    {
        if a[i] != b[i] {
            return false;
        }
        i += 1;
    }
    assert(a@ =~= b@);
    true
}

/// Whether `text` is blank.
pub fn str_is_blank(text: &str) -> (r: bool)
    ensures
        r == is_blank(text@),
{
    let v = chars_of(text);
    let mut i: usize = 0;
    while i < v.len()
        invariant
            v@ == text@,
            i <= v.len(),
            forall|k: int| 0 <= k < i ==> #[trigger] is_white_space(v@[k]),
        decreases v.len() - i,
    {
        if !char_is_white_space(v[i]) {
            return false;
        }
        i += 1;
    }
    true
}

/// Whether an amount cell holds nothing worth printing: a zero written as
/// `0.00` or `0`, or only white space.
pub open spec fn is_hidden_value(value: Seq<char>) -> bool {
    value == "0.00"@ || value == "0"@ || is_blank(value)
}

/// What is printed for an amount cell: nothing for a hidden value, the
/// value itself otherwise.
pub open spec fn shown_value(value: Seq<char>) -> Seq<char> {
    if is_hidden_value(value) {
        Seq::<char>::empty()
    } else {
        value
    }
}

/// Hides zero or empty values.
pub fn filter_zero(value: &str) -> (r: String)
    ensures
        r@ == shown_value(value@),
{
    let v = chars_of(value);
    let zero_cents = chars_of("0.00");
    let zero = chars_of("0");
    if chars_equal(&v, &zero_cents) || chars_equal(&v, &zero) || str_is_blank(value) {
        return String::new();
    }
    String::from_str(value)
}

/// Hiding zero values a second time changes nothing.
pub proof fn shown_value_idempotent(value: Seq<char>)
    ensures
        shown_value(shown_value(value)) == shown_value(value),
{
    if is_hidden_value(value) {
        assert(is_blank(Seq::<char>::empty()));
    }
}

} // verus!

verus! {

/// Whether `pat` occurs anywhere in `s`.
pub open spec fn occurs_in(s: Seq<char>, pat: Seq<char>) -> bool {
    exists|i: int| 0 <= i && i + pat.len() <= s.len() && #[trigger] s.subrange(i, i + pat.len()) == pat
}

/// Replacing a pattern that does not occur leaves the text as it is.
pub proof fn replace_all_without_occurrence(s: Seq<char>, pat: Seq<char>, rep: Seq<char>)
    requires
        pat.len() > 0,
        !occurs_in(s, pat),
    ensures
        replace_all(s, pat, rep) == s,
    decreases s.len(),
{
    if s.len() >= pat.len() {
        assert(s.take(pat.len() as int) == s.subrange(0, pat.len() as int));
        assert(s.subrange(0int, 0int + pat.len()) != pat);
        assert(s.take(pat.len() as int) != pat);
        let rest = s.skip(1);
        assert forall|i: int| 0 <= i && i + pat.len() <= rest.len() implies #[trigger] rest.subrange(
            i,
            i + pat.len(),
        ) != pat by {
            assert(rest.subrange(i, i + pat.len()) =~= s.subrange(i + 1, i + 1 + pat.len()));
        }
        replace_all_without_occurrence(rest, pat, rep);
        assert(seq![s[0]] + rest =~= s);
    }
}

} // verus!

verus! {

/// The number that a run of decimal digits stands for, most significant first.
pub open spec fn digits_value(s: Seq<char>) -> int
    decreases s.len(),
{
    if s.len() == 0 {
        0
    } else {
        digits_value(s.drop_last()) * 10 + (s.last() as u32 - 48)
    }
}

/// The decimal notation of a number is made of the digits `0` to `9`, starts
/// with `0` only for zero itself, and reads back as the number.
pub proof fn decimal_reads_back(n: nat)
    ensures
        decimal(n).len() >= 1,
        forall|i: int| 0 <= i < decimal(n).len() ==> '0' <= #[trigger] decimal(n)[i] <= '9',
        n > 0 ==> decimal(n)[0] != '0',
        digits_value(decimal(n)) == n,
    decreases n,
{
    if n < 10 {
        let s = decimal(n);
        assert(s.drop_last() =~= Seq::<char>::empty());
        assert(digit_char(n) as u32 == 48 + n);
        assert(s.last() == digit_char(n));
        assert(digits_value(s) == digits_value(s.drop_last()) * 10 + (s.last() as u32 - 48));
        assert(digits_value(s.drop_last()) == 0);
    } else {
        decimal_reads_back(n / 10);
        let s = decimal(n);
        let t = decimal(n / 10);
        assert(s == t.push(digit_char(n % 10)));
        assert(s.drop_last() =~= t);
        assert(digit_char(n % 10) as u32 == 48 + n % 10);
        assert(s.last() == digit_char(n % 10));
        assert(digits_value(s) == digits_value(t) * 10 + (s.last() as u32 - 48));
        assert forall|i: int| 0 <= i < s.len() implies '0' <= #[trigger] s[i] <= '9' by {
            if i < t.len() {
                assert(s[i] == t[i]);
            }
        }
        assert(s[0] == t[0]);
    }
}

/// Occurrences are replaced from the left: a text that begins with the
/// pattern begins, once replaced, with the replacement, and the rest is
/// replaced in the same way.
pub proof fn replace_all_leading(pat: Seq<char>, s: Seq<char>, rep: Seq<char>)
    requires
        pat.len() > 0,
    ensures
        replace_all(pat + s, pat, rep) == rep + replace_all(s, pat, rep),
{
    let t = pat + s;
    assert(t.take(pat.len() as int) =~= pat);
    assert(t.skip(pat.len() as int) =~= s);
}

/// A text that is the pattern alone becomes the replacement.
pub proof fn replace_all_whole(pat: Seq<char>, rep: Seq<char>)
    requires
        pat.len() > 0,
    ensures
        replace_all(pat, pat, rep) == rep,
{
    replace_all_leading(pat, Seq::<char>::empty(), rep);
    assert(pat + Seq::<char>::empty() =~= pat);
    assert(rep + Seq::<char>::empty() =~= rep);
}

/// An amount written `0.00` or `0`, or a blank text, is printed as nothing;
/// any other value is printed as it is.
pub proof fn zero_amounts_hidden(value: Seq<char>)
    ensures
        shown_value("0.00"@).len() == 0,
        shown_value("0"@).len() == 0,
        is_blank(value) ==> shown_value(value).len() == 0,
        value != "0.00"@ && value != "0"@ && !is_blank(value) ==> shown_value(value) == value,
{
}

} // verus!
