//! Parsing of a secret key written as a list of byte values, such as
//! `"[12, 200, 7, ...]"`.
//!
//! The text is read as follows: every leading and trailing `[` or `]` is
//! removed, the rest is split at each `,`, every piece is trimmed of white
//! space and read as a decimal `u8`. A text with a piece that does not read
//! as a `u8` (an empty list among them) cannot be parsed into a byte array:
//! it gives no bytes.

use vstd::prelude::*;

verus! {

/// The two kinds of characters that are trimmed from the ends of a text.
#[derive(Clone, Copy, PartialEq, Eq)]
pub enum CharClass {
    /// `[` and `]`.
    Brackets,
    /// Unicode white space, as `char::is_whitespace` defines it.
    Whitespace,
}

/// Unicode `White_Space`: the characters that `char::is_whitespace` accepts.
pub open spec fn is_white_space(c: char) -> bool {
    let v = c as u32;
    ||| 0x9 <= v <= 0xd
    ||| v == 0x20
    ||| v == 0x85
    ||| v == 0xa0
    ||| v == 0x1680
    ||| 0x2000 <= v <= 0x200a
    ||| v == 0x2028
    ||| v == 0x2029
    ||| v == 0x202f
    ||| v == 0x205f
    ||| v == 0x3000
}

/// Whether `c` is of class `k`.
pub open spec fn in_class(k: CharClass, c: char) -> bool {
    match k {
        CharClass::Brackets => c == '[' || c == ']',
        CharClass::Whitespace => is_white_space(c),
    }
}

/// `s` without its leading characters of class `k`.
pub open spec fn strip_front(s: Seq<char>, k: CharClass) -> Seq<char>
    decreases s.len(),
{
    if s.len() > 0 && in_class(k, s[0]) {
        strip_front(s.drop_first(), k)
    } else {
        s
    }
}

/// `s` without its trailing characters of class `k`.
pub open spec fn strip_back(s: Seq<char>, k: CharClass) -> Seq<char>
    decreases s.len(),
{
    if s.len() > 0 && in_class(k, s.last()) {
        strip_back(s.drop_last(), k)
    } else {
        s
    }
}

/// `s` without its leading and trailing characters of class `k`
/// (`str::trim_matches` for brackets, `str::trim` for white space).
pub open spec fn trim_class(s: Seq<char>, k: CharClass) -> Seq<char> {
    strip_back(strip_front(s, k), k)
}

/// The pieces of `s` between commas, as `str::split(',')` yields them:
/// `n` commas give `n + 1` pieces, empty ones included.
pub open spec fn split_commas(s: Seq<char>) -> Seq<Seq<char>>
    decreases s.len(),
{
    if s.len() == 0 {
        seq![Seq::empty()]
    } else {
        let p = split_commas(s.drop_last());
        if s.last() == ',' {
            p.push(Seq::empty())
        } else {
            p.update(p.len() - 1, p.last().push(s.last()))
        }
    }
}

/// Whether `c` is a decimal digit.
pub open spec fn is_digit(c: char) -> bool {
    '0' <= c && c <= '9'
}

/// The value of the decimal digit `c`.
pub open spec fn digit_value(c: char) -> nat {
    ((c as u32) - ('0' as u32)) as nat
}

/// The number that the decimal digits `d` write.
pub open spec fn digits_value(d: Seq<char>) -> nat
    decreases d.len(),
{
    if d.len() == 0 {
        0
    } else {
        digits_value(d.drop_last()) * 10 + digit_value(d.last())
    }
}

/// `p` without one leading `+`, if it has one.
pub open spec fn unsigned_digits(p: Seq<char>) -> Seq<char> {
    if p.len() > 0 && p[0] == '+' {
        p.drop_first()
    } else {
        p
    }
}

/// What `p.parse::<u8>()` gives: an optional `+`, then at least one decimal
/// digit and nothing else, with a value of at most 255.
pub open spec fn parse_u8(p: Seq<char>) -> Option<u8> {
    let d = unsigned_digits(p);
    if d.len() == 0 || !(forall|i: int| 0 <= i < d.len() ==> is_digit(#[trigger] d[i])) {
        None
    } else if digits_value(d) <= 255 {
        Some(digits_value(d) as u8)
    } else {
        None
    }
}

/// The bytes of the pieces, in order, where every piece reads as a `u8`;
/// `None` where one does not.
pub open spec fn piece_bytes(pieces: Seq<Seq<char>>) -> Option<Seq<u8>>
    decreases pieces.len(),
{
    if pieces.len() == 0 {
        Some(Seq::empty())
    } else {
        match (
            piece_bytes(pieces.drop_last()),
            parse_u8(trim_class(pieces.last(), CharClass::Whitespace)),
        ) {
            (Some(rest), Some(b)) => Some(rest.push(b)),
            _ => None,
        }
    }
}

/// The bytes that a secret-key text lists; `None` where a piece of it does
/// not read as a `u8`.
pub open spec fn secret_key_bytes_of(text: Seq<char>) -> Option<Seq<u8>> {
    piece_bytes(split_commas(trim_class(text, CharClass::Brackets)))
}

/// Whether `c` is of class `k`.
pub fn char_in_class(k: CharClass, c: char) -> (b: bool)
    ensures
        b == in_class(k, c),
{
    match k {
        CharClass::Brackets => c == '[' || c == ']',
        CharClass::Whitespace => {
            let v = c as u32;
            (0x9 <= v && v <= 0xd) || v == 0x20 || v == 0x85 || v == 0xa0 || v == 0x1680 || (
            0x2000 <= v && v <= 0x200a) || v == 0x2028 || v == 0x2029 || v == 0x202f || v
                == 0x205f || v == 0x3000
        },
    }
}

proof fn lemma_strip_front_step(s: Seq<char>, k: CharClass, i: int)
    requires
        0 <= i < s.len(),
        in_class(k, s[i]),
    ensures
        strip_front(s.subrange(i, s.len() as int), k) == strip_front(
            s.subrange(i + 1, s.len() as int),
            k,
        ),
{
    assert(s.subrange(i, s.len() as int).drop_first() =~= s.subrange(i + 1, s.len() as int));
}

proof fn lemma_strip_back_step(s: Seq<char>, k: CharClass, j: int)
    requires
        0 < j <= s.len(),
        in_class(k, s[j - 1]),
    ensures
        strip_back(s.subrange(0, j), k) == strip_back(s.subrange(0, j - 1), k),
{
    assert(s.subrange(0, j).drop_last() =~= s.subrange(0, j - 1));
}

/// The characters of `s` without the leading and trailing ones of class `k`.
pub fn trim_chars(s: &Vec<char>, k: CharClass) -> (t: Vec<char>)
    ensures
        t@ == trim_class(s@, k),
{
    let n = s.len();
    let mut lo: usize = 0;
    assert(s@.subrange(0, n as int) =~= s@);
    while lo < n && char_in_class(k, s[lo])
        invariant
            n == s@.len(),
            lo <= n,
            strip_front(s@, k) == strip_front(s@.subrange(lo as int, n as int), k),
        decreases n - lo,
    {
        proof {
            lemma_strip_front_step(s@, k, lo as int);
        }
        lo = lo + 1;
    }
    assert(strip_front(s@, k) == s@.subrange(lo as int, n as int));
    let ghost front = s@.subrange(lo as int, n as int);
    let mut hi: usize = n;
    assert(front.subrange(0, hi - lo) =~= front);
    while hi > lo && char_in_class(k, s[hi - 1])
        invariant
            n == s@.len(),
            lo <= hi <= n,
            front == s@.subrange(lo as int, n as int),
            strip_back(front, k) == strip_back(front.subrange(0, hi - lo), k),
        decreases hi,
    {
        proof {
            assert(front[hi - lo - 1] == s@[hi - 1]);
            lemma_strip_back_step(front, k, hi - lo);
        }
        hi = hi - 1;
    }
    assert(strip_back(front, k) == front.subrange(0, hi - lo));
    let mut t: Vec<char> = Vec::new();
    let mut i: usize = lo;
    while i < hi
        invariant
            n == s@.len(),
            lo <= i <= hi <= n,
            t@ == s@.subrange(lo as int, i as int),
        decreases hi - i,
    {
        t.push(s[i]);
        assert(t@ =~= s@.subrange(lo as int, i + 1));
        i = i + 1;
    }
    assert(t@ =~= front.subrange(0, hi - lo));
    t
}

/// What `p.parse::<u8>()` gives for the digits `p`, without trimming.
pub fn parse_u8_chars(p: &Vec<char>) -> (r: Option<u8>)
    ensures
        r == parse_u8(p@),
{
    let n = p.len();
    let start: usize = if n > 0 && p[0] == '+' {
        1
    } else {
        0
    };
    let ghost d = unsigned_digits(p@);
    assert(d =~= p@.subrange(start as int, n as int));
    if start == n {
        return None;
    }
    // `value` is the value of the digits read so far, held at 256 once it
    // passes 255.
    let mut value: u32 = 0;
    let mut i: usize = start;
    while i < n
        invariant
            n == p@.len(),
            start <= i <= n,
            d == p@.subrange(start as int, n as int),
            d == unsigned_digits(p@),
            forall|j: int| 0 <= j < i - start ==> is_digit(#[trigger] d[j]),
            value == if digits_value(d.subrange(0, i - start)) <= 255 {
                digits_value(d.subrange(0, i - start))
            } else {
                256
            },
        decreases n - i,
    {
        let c = p[i];
        if !('0' <= c && c <= '9') {
            assert(d[i - start] == c);
            assert(!is_digit(d[i - start]));
            assert(!(forall|j: int| 0 <= j < d.len() ==> is_digit(#[trigger] d[j])));
            return None;
        }
        let digit: u32 = (c as u32) - ('0' as u32);
        let ghost prefix = d.subrange(0, i - start);
        let ghost next = d.subrange(0, i + 1 - start);
        assert(next.drop_last() =~= prefix);
        assert(next.last() == c);
        assert(digits_value(next) == digits_value(prefix) * 10 + digit);
        if value <= 255 {
            value = value * 10 + digit;
            if value > 255 {
                value = 256;
            }
        } else {
            assert(digits_value(prefix) > 255);
            assert(digits_value(next) > 255) by (nonlinear_arith)
                requires
                    digits_value(next) == digits_value(prefix) * 10 + digit,
                    digits_value(prefix) > 255,
            ;
        }
        i = i + 1;
    }
    assert(d.subrange(0, n - start) =~= d);
    if value <= 255 {
        Some(value as u8)
    } else {
        None
    }
}

/// The byte that one comma-separated piece reads as, if any.
pub fn parse_piece(piece: &Vec<char>) -> (r: Option<u8>)
    ensures
        r == parse_u8(trim_class(piece@, CharClass::Whitespace)),
{
    let t = trim_chars(piece, CharClass::Whitespace);
    parse_u8_chars(&t)
}

proof fn lemma_split_len(s: Seq<char>)
    ensures
        split_commas(s).len() >= 1,
    decreases s.len(),
{
    if s.len() > 0 {
        lemma_split_len(s.drop_last());
    }
}

/// The bytes that the secret-key text `text` lists, in order (the parsing
/// step of loading a keypair); `None` where a piece of it does not read as a
/// `u8`.
pub fn secret_key_bytes(text: &str) -> (r: Option<Vec<u8>>)
    ensures
        match r {
            Some(bytes) => secret_key_bytes_of(text@) == Some(bytes@),
            None => secret_key_bytes_of(text@) is None,
        },
{
    let mut chars: Vec<char> = Vec::new();
    for c in it: text.chars()
        invariant
            chars@ == it.seq().subrange(0, it.index() as int),
    {
        chars.push(c);
        assert(chars@ =~= it.seq().subrange(0, it.index() + 1));
    }
    assert(chars@ =~= text@);
    let t = trim_chars(&chars, CharClass::Brackets);
    let n = t.len();
    let mut bytes: Vec<u8> = Vec::new();
    let mut ok: bool = true;
    let mut current: Vec<char> = Vec::new();
    let ghost mut done: Seq<Seq<char>> = Seq::empty();
    let mut i: usize = 0;
    assert(t@.subrange(0, 0) =~= Seq::<char>::empty());
    assert(split_commas(Seq::<char>::empty()) =~= done.push(current@));
    while i < n
        invariant
            n == t@.len(),
            i <= n,
            split_commas(t@.subrange(0, i as int)) == done.push(current@),
            ok ==> piece_bytes(done) == Some(bytes@),
            !ok ==> piece_bytes(done) is None,
        decreases n - i,
    {
        let c = t[i];
        let ghost prefix = t@.subrange(0, i as int);
        let ghost next = t@.subrange(0, i + 1);
        assert(next.drop_last() =~= prefix);
        assert(next.last() == c);
        if c == ',' {
            let r = parse_piece(&current);
            proof {
                let nd = done.push(current@);
                assert(nd.drop_last() =~= done);
                assert(nd.last() == current@);
            }
            match r {
                Some(b) => bytes.push(b),
                None => ok = false,
            }
            proof {
                done = done.push(current@);
            }
            current = Vec::new();
            assert(split_commas(next) =~= done.push(current@));
        } else {
            current.push(c);
            assert(split_commas(next) =~= done.push(current@));
        }
        i = i + 1;
    }
    assert(t@.subrange(0, n as int) =~= t@);
    let r = parse_piece(&current);
    proof {
        let nd = done.push(current@);
        assert(nd.drop_last() =~= done);
        assert(nd.last() == current@);
    }
    match r {
        Some(b) => bytes.push(b),
        None => ok = false,
    }
    if ok {
        Some(bytes)
    } else {
        None
    }
}

/// The character of a decimal digit.
pub open spec fn digit_char(d: nat) -> char {
    if d == 0 {
        '0'
    } else if d == 1 {
        '1'
    } else if d == 2 {
        '2'
    } else if d == 3 {
        '3'
    } else if d == 4 {
        '4'
    } else if d == 5 {
        '5'
    } else if d == 6 {
        '6'
    } else if d == 7 {
        '7'
    } else if d == 8 {
        '8'
    } else {
        '9'
    }
}

/// `n` written in decimal, without leading zeros.
pub open spec fn decimal(n: nat) -> Seq<char>
    decreases n,
{
    if n < 10 {
        seq![digit_char(n)]
    } else {
        decimal(n / 10).push(digit_char(n % 10))
    }
}

/// The bytes written in decimal and separated by `", "`.
pub open spec fn byte_list_items(bytes: Seq<u8>) -> Seq<char>
    decreases bytes.len(),
{
    if bytes.len() == 0 {
        Seq::empty()
    } else if bytes.len() == 1 {
        decimal(bytes[0] as nat)
    } else {
        byte_list_items(bytes.drop_last()) + seq![',', ' '] + decimal(bytes.last() as nat)
    }
}

/// The usual text of a byte array, as `{:?}` prints it: `"[1, 2, 3]"`.
pub open spec fn byte_list_text(bytes: Seq<u8>) -> Seq<char> {
    seq!['['] + byte_list_items(bytes) + seq![']']
}

proof fn lemma_digit_char(d: nat)
    requires
        d < 10,
    ensures
        is_digit(digit_char(d)),
        digit_value(digit_char(d)) == d,
{
}

proof fn lemma_decimal(n: nat)
    ensures
        decimal(n).len() >= 1,
        forall|i: int| 0 <= i < decimal(n).len() ==> is_digit(#[trigger] decimal(n)[i]),
        digits_value(decimal(n)) == n,
    decreases n,
{
    if n < 10 {
        lemma_digit_char(n);
        assert(decimal(n).drop_last() =~= Seq::<char>::empty());
        assert(digits_value(Seq::<char>::empty()) == 0);
        assert(digits_value(decimal(n)) == digits_value(decimal(n).drop_last()) * 10 + digit_value(
            decimal(n).last(),
        ));
    } else {
        lemma_decimal(n / 10);
        lemma_digit_char(n % 10);
        let d = decimal(n);
        assert(d.drop_last() =~= decimal(n / 10));
        assert(d.last() == digit_char(n % 10));
        assert(digits_value(d) == digits_value(decimal(n / 10)) * 10 + digit_value(d.last()));
        assert(n == (n / 10) * 10 + n % 10);
        assert forall|i: int| 0 <= i < d.len() implies is_digit(#[trigger] d[i]) by {
            if i < d.len() - 1 {
                assert(d[i] == decimal(n / 10)[i]);
            }
        }
    }
}

proof fn lemma_digit_is_plain(c: char)
    requires
        is_digit(c),
    ensures
        !in_class(CharClass::Whitespace, c),
        !in_class(CharClass::Brackets, c),
        c != ',',
        c != '+',
{
}

proof fn lemma_parse_decimal(b: u8)
    ensures
        parse_u8(decimal(b as nat)) == Some(b),
{
    lemma_decimal(b as nat);
    let d = decimal(b as nat);
    lemma_digit_is_plain(d[0]);
    assert(unsigned_digits(d) == d);
}

proof fn lemma_trim_spaced_decimal(n: nat)
    ensures
        trim_class(seq![' '] + decimal(n), CharClass::Whitespace) == decimal(n),
{
    lemma_decimal(n);
    let d = decimal(n);
    let s = seq![' '] + d;
    assert(s.drop_first() =~= d);
    lemma_digit_is_plain(d[0]);
    lemma_digit_is_plain(d.last());
    assert(strip_front(s, CharClass::Whitespace) == strip_front(d, CharClass::Whitespace));
    assert(strip_front(d, CharClass::Whitespace) == d);
    assert(strip_back(d, CharClass::Whitespace) == d);
}

proof fn lemma_trim_decimal(n: nat)
    ensures
        trim_class(decimal(n), CharClass::Whitespace) == decimal(n),
{
    lemma_decimal(n);
    let d = decimal(n);
    lemma_digit_is_plain(d[0]);
    lemma_digit_is_plain(d.last());
}

proof fn lemma_split_without_commas(t: Seq<char>)
    requires
        forall|i: int| 0 <= i < t.len() ==> #[trigger] t[i] != ',',
    ensures
        split_commas(t) == seq![t],
    decreases t.len(),
{
    if t.len() > 0 {
        lemma_split_without_commas(t.drop_last());
        assert(split_commas(t.drop_last()) == seq![t.drop_last()]);
        assert(t.drop_last().push(t.last()) =~= t);
        assert(seq![t.drop_last()].update(0, t.drop_last().push(t.last())) =~= seq![t]);
    } else {
        assert(t =~= Seq::<char>::empty());
    }
}

proof fn lemma_split_after_comma(s: Seq<char>, t: Seq<char>)
    requires
        forall|i: int| 0 <= i < t.len() ==> #[trigger] t[i] != ',',
    ensures
        split_commas(s + seq![','] + t) == split_commas(s).push(t),
    decreases t.len(),
{
    if t.len() == 0 {
        let x = s + seq![','] + t;
        assert(x.drop_last() =~= s);
        assert(t =~= Seq::<char>::empty());
    } else {
        let t0 = t.drop_last();
        lemma_split_after_comma(s, t0);
        let x = s + seq![','] + t;
        assert(x.drop_last() =~= s + seq![','] + t0);
        assert(x.last() == t.last());
        assert(t0.push(t.last()) =~= t);
        assert(split_commas(s).push(t0).update(split_commas(s).len() as int, t0.push(t.last()))
            =~= split_commas(s).push(t));
    }
}

proof fn lemma_items_ends(bytes: Seq<u8>)
    requires
        bytes.len() >= 1,
    ensures
        byte_list_items(bytes).len() >= 1,
        is_digit(byte_list_items(bytes)[0]),
        is_digit(byte_list_items(bytes).last()),
    decreases bytes.len(),
{
    lemma_decimal(bytes.last() as nat);
    if bytes.len() > 1 {
        lemma_items_ends(bytes.drop_last());
        let items = byte_list_items(bytes);
        let d = decimal(bytes.last() as nat);
        assert(items[0] == byte_list_items(bytes.drop_last())[0]);
        assert(items.last() == d.last());
    } else {
        lemma_decimal(bytes[0] as nat);
    }
}

proof fn lemma_items_pieces(bytes: Seq<u8>)
    requires
        bytes.len() >= 1,
    ensures
        piece_bytes(split_commas(byte_list_items(bytes))) == Some(bytes),
    decreases bytes.len(),
{
    if bytes.len() == 1 {
        let d = decimal(bytes[0] as nat);
        lemma_decimal(bytes[0] as nat);
        assert forall|i: int| 0 <= i < d.len() implies #[trigger] d[i] != ',' by {
            lemma_digit_is_plain(d[i]);
        }
        lemma_split_without_commas(d);
        lemma_trim_decimal(bytes[0] as nat);
        lemma_parse_decimal(bytes[0]);
        assert(seq![d].drop_last() =~= Seq::<Seq<char>>::empty());
        assert(seq![d].last() == d);
        assert(piece_bytes(Seq::<Seq<char>>::empty()) == Some(Seq::<u8>::empty()));
        assert(parse_u8(trim_class(seq![d].last(), CharClass::Whitespace)) == Some(bytes[0]));
        assert(piece_bytes(seq![d]) == Some(Seq::<u8>::empty().push(bytes[0])));
        assert(Seq::<u8>::empty().push(bytes[0]) =~= bytes);
    } else {
        let rest = bytes.drop_last();
        let b = bytes.last();
        lemma_items_pieces(rest);
        let d = decimal(b as nat);
        lemma_decimal(b as nat);
        let t = seq![' '] + d;
        assert forall|i: int| 0 <= i < t.len() implies #[trigger] t[i] != ',' by {
            if i > 0 {
                assert(t[i] == d[i - 1]);
                lemma_digit_is_plain(d[i - 1]);
            }
        }
        assert(byte_list_items(bytes) =~= byte_list_items(rest) + seq![','] + t);
        lemma_split_after_comma(byte_list_items(rest), t);
        let pieces = split_commas(byte_list_items(rest)).push(t);
        assert(pieces.drop_last() =~= split_commas(byte_list_items(rest)));
        assert(pieces.last() == t);
        lemma_trim_spaced_decimal(b as nat);
        lemma_parse_decimal(b);
        assert(parse_u8(trim_class(pieces.last(), CharClass::Whitespace)) == Some(b));
        assert(piece_bytes(pieces) == Some(rest.push(b)));
        assert(rest.push(b) =~= bytes);
    }
}

/// A byte array written as `{:?}` writes it, `"[1, 2, 3]"`, reads back as
/// the same bytes: the text that generating a keypair prints is a text that
/// loading a keypair accepts, and it gives the same keypair. (The empty
/// array, printed `"[]"`, is no byte list: its one piece is empty.)
pub proof fn lemma_byte_list_text_round_trip(bytes: Seq<u8>)
    requires
        bytes.len() >= 1,
    ensures
        secret_key_bytes_of(byte_list_text(bytes)) == Some(bytes),
{
    let text = byte_list_text(bytes);
    let items = byte_list_items(bytes);
    let k = CharClass::Brackets;
    lemma_items_ends(bytes);
    lemma_digit_is_plain(items[0]);
    lemma_digit_is_plain(items.last());
    let inner = items + seq![']'];
    assert(text.drop_first() =~= inner);
    assert(inner[0] == items[0]);
    assert(strip_front(text, k) == strip_front(inner, k));
    assert(strip_front(inner, k) == inner);
    assert(inner.drop_last() =~= items);
    assert(strip_back(inner, k) == strip_back(items, k));
    assert(strip_back(items, k) == items);
    assert(trim_class(text, k) == items);
    lemma_items_pieces(bytes);
}

/// The bytes written in decimal, each after the first preceded by a comma
/// and the characters `ws`.
pub open spec fn byte_items_with(bytes: Seq<u8>, ws: Seq<char>) -> Seq<char>
    decreases bytes.len(),
{
    if bytes.len() == 0 {
        Seq::empty()
    } else if bytes.len() == 1 {
        decimal(bytes[0] as nat)
    } else {
        byte_items_with(bytes.drop_last(), ws) + seq![','] + ws + decimal(bytes.last() as nat)
    }
}

/// Whether every character of `ws` is white space.
pub open spec fn all_white_space(ws: Seq<char>) -> bool {
    forall|i: int| 0 <= i < ws.len() ==> in_class(CharClass::Whitespace, #[trigger] ws[i])
}

proof fn lemma_strip_leading_white_space(ws: Seq<char>, d: Seq<char>)
    requires
        all_white_space(ws),
    ensures
        strip_front(ws + d, CharClass::Whitespace) == strip_front(d, CharClass::Whitespace),
    decreases ws.len(),
{
    if ws.len() > 0 {
        assert((ws + d)[0] == ws[0]);
        assert((ws + d).drop_first() =~= ws.drop_first() + d);
        assert(all_white_space(ws.drop_first())) by {
            assert forall|i: int| 0 <= i < ws.drop_first().len() implies in_class(
                CharClass::Whitespace,
                #[trigger] ws.drop_first()[i],
            ) by {
                assert(ws.drop_first()[i] == ws[i + 1]);
            }
        }
        lemma_strip_leading_white_space(ws.drop_first(), d);
    } else {
        assert(ws + d =~= d);
    }
}

proof fn lemma_items_with_ends(bytes: Seq<u8>, ws: Seq<char>)
    requires
        bytes.len() >= 1,
    ensures
        byte_items_with(bytes, ws).len() >= 1,
        is_digit(byte_items_with(bytes, ws)[0]),
        is_digit(byte_items_with(bytes, ws).last()),
    decreases bytes.len(),
{
    lemma_decimal(bytes.last() as nat);
    if bytes.len() > 1 {
        lemma_items_with_ends(bytes.drop_last(), ws);
        let items = byte_items_with(bytes, ws);
        let d = decimal(bytes.last() as nat);
        assert(items[0] == byte_items_with(bytes.drop_last(), ws)[0]);
        assert(items.last() == d.last());
    } else {
        lemma_decimal(bytes[0] as nat);
    }
}

proof fn lemma_items_with_pieces(bytes: Seq<u8>, ws: Seq<char>)
    requires
        bytes.len() >= 1,
        all_white_space(ws),
    ensures
        piece_bytes(split_commas(byte_items_with(bytes, ws))) == Some(bytes),
    decreases bytes.len(),
{
    if bytes.len() == 1 {
        let d = decimal(bytes[0] as nat);
        lemma_decimal(bytes[0] as nat);
        assert forall|i: int| 0 <= i < d.len() implies #[trigger] d[i] != ',' by {
            lemma_digit_is_plain(d[i]);
        }
        lemma_split_without_commas(d);
        lemma_trim_decimal(bytes[0] as nat);
        lemma_parse_decimal(bytes[0]);
        assert(seq![d].drop_last() =~= Seq::<Seq<char>>::empty());
        assert(seq![d].last() == d);
        assert(piece_bytes(Seq::<Seq<char>>::empty()) == Some(Seq::<u8>::empty()));
        assert(parse_u8(trim_class(seq![d].last(), CharClass::Whitespace)) == Some(bytes[0]));
        assert(piece_bytes(seq![d]) == Some(Seq::<u8>::empty().push(bytes[0])));
        assert(Seq::<u8>::empty().push(bytes[0]) =~= bytes);
    } else {
        let rest = bytes.drop_last();
        let b = bytes.last();
        lemma_items_with_pieces(rest, ws);
        let d = decimal(b as nat);
        lemma_decimal(b as nat);
        let t = ws + d;
        assert forall|i: int| 0 <= i < t.len() implies #[trigger] t[i] != ',' by {
            if i < ws.len() {
                assert(t[i] == ws[i]);
                assert(in_class(CharClass::Whitespace, ws[i]));
            } else {
                assert(t[i] == d[i - ws.len()]);
                lemma_digit_is_plain(d[i - ws.len()]);
            }
        }
        assert(byte_items_with(bytes, ws) =~= byte_items_with(rest, ws) + seq![','] + t);
        lemma_split_after_comma(byte_items_with(rest, ws), t);
        let pieces = split_commas(byte_items_with(rest, ws)).push(t);
        assert(pieces.drop_last() =~= split_commas(byte_items_with(rest, ws)));
        assert(pieces.last() == t);
        lemma_strip_leading_white_space(ws, d);
        lemma_digit_is_plain(d[0]);
        lemma_digit_is_plain(d.last());
        assert(strip_front(d, CharClass::Whitespace) == d);
        assert(strip_back(d, CharClass::Whitespace) == d);
        assert(trim_class(t, CharClass::Whitespace) == d);
        lemma_parse_decimal(b);
        assert(parse_u8(trim_class(pieces.last(), CharClass::Whitespace)) == Some(b));
        assert(piece_bytes(pieces) == Some(rest.push(b)));
        assert(rest.push(b) =~= bytes);
    }
}

/// A byte list whose items are separated by a comma and any white space
/// reads back as the listed bytes.
pub proof fn lemma_white_space_separated_round_trip(bytes: Seq<u8>, ws: Seq<char>)
    requires
        bytes.len() >= 1,
        all_white_space(ws),
    ensures
        secret_key_bytes_of(seq!['['] + byte_items_with(bytes, ws) + seq![']']) == Some(bytes),
{
    let items = byte_items_with(bytes, ws);
    let text = seq!['['] + items + seq![']'];
    let k = CharClass::Brackets;
    lemma_items_with_ends(bytes, ws);
    lemma_digit_is_plain(items[0]);
    lemma_digit_is_plain(items.last());
    let inner = items + seq![']'];
    assert(text.drop_first() =~= inner);
    assert(inner[0] == items[0]);
    assert(strip_front(text, k) == strip_front(inner, k));
    assert(strip_front(inner, k) == inner);
    assert(inner.drop_last() =~= items);
    assert(strip_back(inner, k) == strip_back(items, k));
    assert(strip_back(items, k) == items);
    assert(trim_class(text, k) == items);
    lemma_items_with_pieces(bytes, ws);
}

/// The white space trimmed from each piece is Unicode `White_Space`, as
/// `str::trim` and `char::is_whitespace` take it: the control characters
/// tab, line feed, vertical tab, form feed and carriage return, the space,
/// the next line, the no-break space, the Ogham space mark, the spaces from
/// the en quad to the hair space, the line and paragraph separators, the
/// narrow no-break space, the medium mathematical space and the ideographic
/// space.
pub proof fn lemma_unicode_white_space()
    ensures
        all_white_space(
            seq![
                '\t', '\n', '\u{0B}', '\u{0C}', '\r', ' ', '\u{85}', '\u{A0}', '\u{1680}',
                '\u{2000}', '\u{2001}', '\u{2002}', '\u{2003}', '\u{2004}', '\u{2005}', '\u{2006}',
                '\u{2007}', '\u{2008}', '\u{2009}', '\u{200A}', '\u{2028}', '\u{2029}', '\u{202F}',
                '\u{205F}', '\u{3000}',
            ],
        ),
        !in_class(CharClass::Whitespace, '\u{200B}'),
        !in_class(CharClass::Whitespace, '\u{0}'),
        !in_class(CharClass::Whitespace, '\u{FEFF}'),
{
}

/// A key written one item per line with Windows line endings, `"[12,\r\n
/// 200,\r\n...]"`, reads back as the listed bytes, as does one with Unix
/// line endings or tabs.
pub proof fn lemma_line_separated_round_trip(bytes: Seq<u8>)
    requires
        bytes.len() >= 1,
    ensures
        secret_key_bytes_of(seq!['['] + byte_items_with(bytes, seq!['\r', '\n']) + seq![']'])
            == Some(bytes),
        secret_key_bytes_of(seq!['['] + byte_items_with(bytes, seq!['\n']) + seq![']']) == Some(
            bytes,
        ),
        secret_key_bytes_of(seq!['['] + byte_items_with(bytes, seq!['\t']) + seq![']']) == Some(
            bytes,
        ),
{
    assert(all_white_space(seq!['\r', '\n']));
    assert(all_white_space(seq!['\n']));
    assert(all_white_space(seq!['\t']));
    lemma_white_space_separated_round_trip(bytes, seq!['\r', '\n']);
    lemma_white_space_separated_round_trip(bytes, seq!['\n']);
    lemma_white_space_separated_round_trip(bytes, seq!['\t']);
}

} // verus!
