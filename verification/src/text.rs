//! Text building blocks: number rendering and token replacement over
//! sequences of characters.

use vstd::prelude::*;
use vstd::string::*;

verus! {

/// The lower-case hexadecimal digit for a value below sixteen.
pub open spec fn hex_char(d: nat) -> char {
    if d == 0 {
        '0'
    } else if d == 1 {
        '1'
    } else if d == 2 {
        '2'
    } else if d == 3 {
        '3'
    } else if d == 4 {
        '4'
    } else if d == 5 {
        '5'
    } else if d == 6 {
        '6'
    } else if d == 7 {
        '7'
    } else if d == 8 {
        '8'
    } else if d == 9 {
        '9'
    } else if d == 10 {
        'a'
    } else if d == 11 {
        'b'
    } else if d == 12 {
        'c'
    } else if d == 13 {
        'd'
    } else if d == 14 {
        'e'
    } else {
        'f'
    }
}

/// Lower-case hexadecimal digits of `n`, most significant first, without
/// padding: zero is the single digit `0`.
pub open spec fn hex_digits(n: nat) -> Seq<char>
    decreases n,
{
    if n < 16 {
        seq![hex_char(n)]
    } else {
        hex_digits(n / 16).push(hex_char(n % 16))
    }
}

/// Decimal digits of `n`, most significant first, without padding.
pub open spec fn dec_digits(n: nat) -> Seq<char>
    decreases n,
{
    if n < 10 {
        seq![hex_char(n)]
    } else {
        dec_digits(n / 10).push(hex_char(n % 10))
    }
}

/// `String::push`: appends one character to the end of the string.
#[verifier::external_body]
pub(crate) fn push_char(out: &mut String, c: char)
    ensures
        final(out)@ == old(out)@.push(c),
{
    out.push(c)
}

fn digit_char(d: u8) -> (c: char)
    requires
        d < 16,
    ensures
        c == hex_char(d as nat),
{
    if d == 0 {
        '0'
    } else if d == 1 {
        '1'
    } else if d == 2 {
        '2'
    } else if d == 3 {
        '3'
    } else if d == 4 {
        '4'
    } else if d == 5 {
        '5'
    } else if d == 6 {
        '6'
    } else if d == 7 {
        '7'
    } else if d == 8 {
        '8'
    } else if d == 9 {
        '9'
    } else if d == 10 {
        'a'
    } else if d == 11 {
        'b'
    } else if d == 12 {
        'c'
    } else if d == 13 {
        'd'
    } else if d == 14 {
        'e'
    } else {
        'f'
    }
}

/// Appends the hexadecimal rendering of `n` to `out`.
pub fn push_hex(out: &mut String, n: u64)
    ensures
        final(out)@ == old(out)@ + hex_digits(n as nat),
    decreases n,
{
    if n >= 16 {
        push_hex(out, n / 16);
    }
    let d: u8 = (n % 16) as u8;
    push_char(out, digit_char(d));
}

/// Appends the decimal rendering of `n` to `out`.
pub fn push_dec(out: &mut String, n: u64)
    ensures
        final(out)@ == old(out)@ + dec_digits(n as nat),
    decreases n,
{
    if n >= 10 {
        push_dec(out, n / 10);
    }
    let d: u8 = (n % 10) as u8;
    push_char(out, digit_char(d));
}

/// The characters of a string slice, one by one.
pub fn chars_of(s: &str) -> (v: Vec<char>)
    ensures
        v@ == s@,
{
    let mut v: Vec<char> = Vec::new();
    for c in it: s.chars()
        invariant
            v@ == it.seq().take(it.index() as int),
            it.seq() == s@,
    {
        v.push(c);
    }
    v
}

/// The string made of the given characters.
pub fn string_of(chars: &Vec<char>) -> (s: String)
    ensures
        s@ == chars@,
{
    let mut s = String::new();
    let mut i: usize = 0;
    while i < chars.len()
        invariant
            i <= chars.len(),
            s@ == chars@.take(i as int),
        decreases chars.len() - i,
    {
        push_char(&mut s, chars[i]);
        assert(chars@.take(i + 1) =~= chars@.take(i as int).push(chars@[i as int]));
        i = i + 1;
    }
    assert(chars@.take(i as int) =~= chars@);
    s
}

/// Whether `s` begins with `prefix`.
pub open spec fn starts_with(s: Seq<char>, prefix: Seq<char>) -> bool {
    prefix.len() <= s.len() && s.subrange(0, prefix.len() as int) == prefix
}

/// Whether `token` stands somewhere in `s`.
pub open spec fn occurs(s: Seq<char>, token: Seq<char>) -> bool {
    exists|i: int| 0 <= i <= s.len() && #[trigger] starts_with(s.skip(i), token)
}

/// `s` with every occurrence of `from` replaced by `to`. Occurrences are
/// found from the left and do not overlap; what a replacement puts in is
/// not searched again. An empty `from` replaces nothing.
pub open spec fn replace_all(s: Seq<char>, from: Seq<char>, to: Seq<char>) -> Seq<char>
    decreases s.len(),
{
    if from.len() == 0 || s.len() == 0 {
        s
    } else if starts_with(s, from) {
        to + replace_all(s.skip(from.len() as int), from, to)
    } else {
        seq![s[0]] + replace_all(s.skip(1), from, to)
    }
}

fn matches_at(text: &Vec<char>, at: usize, token: &Vec<char>) -> (found: bool)
    requires
        at <= text.len(),
    ensures
        found == starts_with(text@.skip(at as int), token@),
{
    if token.len() > text.len() - at {
        return false;
    }
    let ghost rest = text@.skip(at as int);
    let mut j: usize = 0;
    while j < token.len()
        invariant
            j <= token.len(),
            at + token.len() <= text.len(),
            rest == text@.skip(at as int),
            forall|k: int| 0 <= k < j ==> rest[k] == token@[k],
        decreases token.len() - j,
    {
        if text[at + j] != token[j] {
            assert(rest.subrange(0, token@.len() as int)[j as int] != token@[j as int]);
            return false;
        }
        j = j + 1;
    }
    assert(rest.subrange(0, token@.len() as int) =~= token@);
    true
}

/// Replaces every occurrence of `from` in `text` by `to`.
pub fn replace_token(text: &Vec<char>, from: &Vec<char>, to: &Vec<char>) -> (out: Vec<char>)
    ensures
        out@ == replace_all(text@, from@, to@),
{
    let mut out: Vec<char> = Vec::new();
    if from.len() == 0 {
        let mut k: usize = 0;
        while k < text.len()
            invariant
                k <= text.len(),
                out@ == text@.take(k as int),
            decreases text.len() - k,
        {
            out.push(text[k]);
            assert(text@.take(k + 1) =~= text@.take(k as int).push(text@[k as int]));
            k = k + 1;
        }
        assert(text@.take(k as int) =~= text@);
        return out;
    }
    let mut i: usize = 0;
    assert(text@.skip(0) =~= text@);
    assert(Seq::<char>::empty() + replace_all(text@, from@, to@) =~= replace_all(
        text@,
        from@,
        to@,
    ));
    while i < text.len()
        invariant
            i <= text.len(),
            from.len() > 0,
            replace_all(text@, from@, to@) == out@ + replace_all(text@.skip(i as int), from@, to@),
        decreases text.len() - i,
    {
        let ghost rest = text@.skip(i as int);
        let ghost before = out@;
        if matches_at(text, i, from) {
            let mut k: usize = 0;
            while k < to.len()
                invariant
                    k <= to.len(),
                    out@ == before + to@.take(k as int),
                decreases to.len() - k,
            {
                out.push(to[k]);
                assert(to@.take(k + 1) =~= to@.take(k as int).push(to@[k as int]));
                assert(out@ =~= before + to@.take(k + 1));
                k = k + 1;
            }
            assert(to@.take(k as int) =~= to@);
            assert(rest.skip(from@.len() as int) =~= text@.skip(i + from@.len()));
            assert(out@ + replace_all(text@.skip(i + from@.len()), from@, to@) =~= before + (to@
                + replace_all(rest.skip(from@.len() as int), from@, to@)));
            i = i + from.len();
        } else {
            out.push(text[i]);
            assert(rest.skip(1) =~= text@.skip(i + 1));
            assert(out@ + replace_all(text@.skip(i + 1), from@, to@) =~= before + (seq![rest[0]]
                + replace_all(rest.skip(1), from@, to@)));
            i = i + 1;
        }
    }
    assert(text@.skip(i as int) =~= Seq::<char>::empty());
    assert(out@ + Seq::<char>::empty() =~= out@);
    out
}

/// Where the token does not occur, nothing is replaced.
pub proof fn lemma_replace_all_absent(s: Seq<char>, from: Seq<char>, to: Seq<char>)
    requires
        !occurs(s, from),
    ensures
        replace_all(s, from, to) == s,
    decreases s.len(),
{
    if from.len() == 0 || s.len() == 0 {
    } else {
        assert(s.skip(0) =~= s);
        assert(!starts_with(s, from));
        assert(!occurs(s.skip(1), from)) by {
            if occurs(s.skip(1), from) {
                let i = choose|i: int| 0 <= i <= s.skip(1).len() && #[trigger] starts_with(
                    s.skip(1).skip(i),
                    from,
                );
                assert(s.skip(1).skip(i) =~= s.skip(i + 1));
            }
        }
        lemma_replace_all_absent(s.skip(1), from, to);
        assert(seq![s[0]] + s.skip(1) =~= s);
    }
}

/// Replacing a token by one that is no longer never lengthens the text.
pub proof fn lemma_replace_all_never_grows(s: Seq<char>, from: Seq<char>, to: Seq<char>)
    requires
        to.len() <= from.len(),
    ensures
        replace_all(s, from, to).len() <= s.len(),
    decreases s.len(),
{
    if from.len() == 0 || s.len() == 0 {
    } else if starts_with(s, from) {
        lemma_replace_all_never_grows(s.skip(from.len() as int), from, to);
    } else {
        lemma_replace_all_never_grows(s.skip(1), from, to);
    }
}

/// Replacing a token by a shorter one shortens every text in which the
/// token occurs.
pub proof fn lemma_replace_all_shrinks(s: Seq<char>, from: Seq<char>, to: Seq<char>)
    requires
        to.len() < from.len(),
        occurs(s, from),
    ensures
        replace_all(s, from, to).len() < s.len(),
    decreases s.len(),
{
    let i = choose|i: int| 0 <= i <= s.len() && #[trigger] starts_with(s.skip(i), from);
    if s.len() == 0 {
        assert(s.skip(i).len() == 0);
    } else if starts_with(s, from) {
        lemma_replace_all_never_grows(s.skip(from.len() as int), from, to);
    } else {
        assert(s.skip(0) =~= s);
        assert(i > 0);
        assert(s.skip(1).skip(i - 1) =~= s.skip(i));
        assert(starts_with(s.skip(1).skip(i - 1), from));
        lemma_replace_all_shrinks(s.skip(1), from, to);
    }
}

} // verus!
