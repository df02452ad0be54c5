//! Text building blocks: decimal and hexadecimal rendering, JSON string
//! escaping, C-string sanitizing and joining with a separator.

use vstd::prelude::*;

verus! {

/// Appends one character to a string (`String::push`).
#[verifier::external_body]
pub fn push_char(s: &mut String, c: char)
    ensures
        final(s)@ == old(s)@.push(c),
{
    s.push(c);
}

/// The ASCII character of a digit in base 16 (lower-case letters).
pub open spec fn hex_digit(d: nat) -> char
    recommends
        d < 16,
{
    if d < 10 {
        (d + 48) as char
    } else {
        (d + 87) as char
    }
}

/// Decimal digits of a natural number, most significant first, no leading zeros.
pub open spec fn decimal_digits(n: nat) -> Seq<char>
    decreases n,
{
    if n < 10 {
        seq![hex_digit(n)]
    } else {
        decimal_digits(n / 10).push(hex_digit(n % 10))
    }
}

/// Decimal rendering of an integer, with a leading `-` when negative.
pub open spec fn decimal(v: int) -> Seq<char> {
    if v < 0 {
        seq!['-'] + decimal_digits((-v) as nat)
    } else {
        decimal_digits(v as nat)
    }
}

/// The number that decimal digit text stands for, read most significant
/// digit first.
pub open spec fn digits_value(t: Seq<char>) -> int
    decreases t.len(),
{
    if t.len() == 0 {
        0
    } else {
        digits_value(t.drop_last()) * 10 + ((t.last() as u32) - 48)
    }
}

/// The decimal digits of `n` are digits `0` to `9` that read back as `n`,
/// with no leading zero: the one canonical decimal spelling of `n`.
pub proof fn lemma_decimal_digits_read_back(n: nat)
    ensures
        digits_value(decimal_digits(n)) == n,
        decimal_digits(n).len() > 0,
        forall|i: int|
            0 <= i < decimal_digits(n).len() ==> '0' <= #[trigger] decimal_digits(n)[i] <= '9',
        n > 0 ==> decimal_digits(n)[0] != '0',
    decreases n,
{
    let t = decimal_digits(n);
    let d = n % 10;
    assert(t.last() == hex_digit(d));
    assert((hex_digit(d) as u32) - 48 == d);
    if n >= 10 {
        lemma_decimal_digits_read_back(n / 10);
        assert(t.drop_last() =~= decimal_digits(n / 10));
        assert(t[0] == decimal_digits(n / 10)[0]);
        assert(digits_value(t.drop_last()) == n / 10);
        assert(digits_value(t) == digits_value(t.drop_last()) * 10 + d);
        assert(n == (n / 10) * 10 + d);
    } else {
        assert(t.drop_last() =~= Seq::<char>::empty());
        assert(digits_value(t) == digits_value(t.drop_last()) * 10 + d);
    }
}

fn digit_char(d: u64) -> (c: char)
    requires
        d < 16,
    ensures
        c == hex_digit(d as nat),
{
    let b: u8 = d as u8;
    if b < 10 {
        (b + 48) as char
    } else {
        (b + 87) as char
    }
}

/// Appends the decimal rendering of `n` to `out`.
pub fn push_decimal_u64(out: &mut String, n: u64)
    ensures
        final(out)@ == old(out)@ + decimal_digits(n as nat),
    decreases n,
{
    if n >= 10 {
        push_decimal_u64(out, n / 10);
    }
    push_char(out, digit_char(n % 10));
}


/// Appends the decimal rendering of `v` to `out`, with a `-` sign when negative.
pub fn push_decimal_i64(out: &mut String, v: i64)
    ensures
        final(out)@ == old(out)@ + decimal(v as int),
{
    if v < 0 {
        push_char(out, '-');
        let magnitude: u64 = (-(v + 1)) as u64 + 1;
        push_decimal_u64(out, magnitude);
        assert(old(out)@ + decimal(v as int) =~= old(out)@.push('-') + decimal_digits(
            magnitude as nat,
        ));
    } else {
        push_decimal_u64(out, v as u64);
    }
}

/// Two lower-case hexadecimal digits of a byte (as `{:02x}` renders it).
pub open spec fn hex_byte(b: u8) -> Seq<char> {
    seq![hex_digit((b / 16) as nat), hex_digit((b % 16) as nat)]
}

/// Lower-case hexadecimal rendering of a byte string, two digits per byte.
pub open spec fn hex(bytes: Seq<u8>) -> Seq<char>
    decreases bytes.len(),
{
    if bytes.len() == 0 {
        Seq::empty()
    } else {
        hex(bytes.drop_last()) + hex_byte(bytes.last())
    }
}

/// Every byte takes exactly two digits.
pub proof fn lemma_hex_len(bytes: Seq<u8>)
    ensures
        hex(bytes).len() == 2 * bytes.len(),
    decreases bytes.len(),
{
    if bytes.len() > 0 {
        lemma_hex_len(bytes.drop_last());
    }
}

/// The value of a hexadecimal digit character (either case).
pub open spec fn hex_value(c: char) -> int {
    if '0' <= c && c <= '9' {
        (c as u32) - 48
    } else if 'a' <= c && c <= 'f' {
        (c as u32) - 87
    } else {
        (c as u32) - 55
    }
}

/// Reads hexadecimal text back as bytes, two digits per byte.
pub open spec fn unhex(t: Seq<char>) -> Seq<u8>
    decreases t.len(),
{
    if t.len() < 2 {
        Seq::empty()
    } else {
        unhex(t.subrange(0, t.len() - 2)).push(
            (hex_value(t[t.len() - 2]) * 16 + hex_value(t[t.len() - 1])) as u8,
        )
    }
}

/// Hex encoding loses nothing: reading the digits back gives the bytes.
pub proof fn lemma_hex_round_trip(bytes: Seq<u8>)
    ensures
        unhex(hex(bytes)) == bytes,
    decreases bytes.len(),
{
    if bytes.len() > 0 {
        let prev = bytes.drop_last();
        lemma_hex_round_trip(prev);
        lemma_hex_len(prev);
        lemma_hex_len(bytes);
        let t = hex(bytes);
        assert(t.subrange(0, t.len() - 2) =~= hex(prev));
        let b = bytes.last();
        assert(t[t.len() - 2] == hex_digit((b / 16) as nat));
        assert(t[t.len() - 1] == hex_digit((b % 16) as nat));
        assert(hex_value(hex_digit((b / 16) as nat)) == b / 16);
        assert(hex_value(hex_digit((b % 16) as nat)) == b % 16);
        assert(bytes =~= prev.push(b));
    }
}

/// Hex-encodes raw bytes, two lower-case digits per byte.
pub fn hex_encode(bytes: &[u8]) -> (r: String)
    ensures
        r@ == hex(bytes@),
{
    let mut out = String::new();
    let mut i: usize = 0;
    while i < bytes.len()
        invariant
            i <= bytes.len(),
            out@ == hex(bytes@.take(i as int)),
        decreases bytes.len() - i,
    {
        let b = bytes[i];
        push_char(&mut out, digit_char((b / 16) as u64));
        push_char(&mut out, digit_char((b % 16) as u64));
        assert(bytes@.take(i + 1).drop_last() =~= bytes@.take(i as int));
        i = i + 1;
    }
    assert(bytes@.take(i as int) =~= bytes@);
    out
}


/// How one character appears inside a JSON string literal: quote, backslash,
/// newline, carriage return and tab get their short escapes, the other control
/// characters a `\u00XX` escape, everything else stands as it is.
pub open spec fn json_escape_char(c: char) -> Seq<char> {
    if c == '"' {
        seq!['\\', '"']
    } else if c == '\\' {
        seq!['\\', '\\']
    } else if c == '\n' {
        seq!['\\', 'n']
    } else if c == '\r' {
        seq!['\\', 'r']
    } else if c == '\t' {
        seq!['\\', 't']
    } else if (c as u32) < 0x20 {
        seq!['\\', 'u', '0', '0', hex_digit(((c as u32) / 16) as nat), hex_digit(((c as u32) % 16) as nat)]
    } else {
        seq![c]
    }
}

/// A string escaped for inclusion between the quotes of a JSON string.
pub open spec fn json_escaped(s: Seq<char>) -> Seq<char>
    decreases s.len(),
{
    if s.len() == 0 {
        Seq::empty()
    } else {
        json_escaped(s.drop_last()) + json_escape_char(s.last())
    }
}

fn push_json_escaped_char(out: &mut String, c: char)
    ensures
        final(out)@ == old(out)@ + json_escape_char(c),
{
    let ghost start = out@;
    if c == '"' {
        push_char(out, '\\');
        push_char(out, '"');
    } else if c == '\\' {
        push_char(out, '\\');
        push_char(out, '\\');
    } else if c == '\n' {
        push_char(out, '\\');
        push_char(out, 'n');
    } else if c == '\r' {
        push_char(out, '\\');
        push_char(out, 'r');
    } else if c == '\t' {
        push_char(out, '\\');
        push_char(out, 't');
    } else if (c as u32) < 0x20 {
        let v: u32 = c as u32;
        push_char(out, '\\');
        push_char(out, 'u');
        push_char(out, '0');
        push_char(out, '0');
        push_char(out, digit_char((v / 16) as u64));
        push_char(out, digit_char((v % 16) as u64));
    } else {
        push_char(out, c);
    }
    assert(out@ =~= start + json_escape_char(c));
}

/// Escaped text holds no control character (below U+0020): each one is
/// written as an escape of printable characters.
pub proof fn lemma_json_escaped_printable(s: Seq<char>)
    ensures
        forall|i: int| 0 <= i < json_escaped(s).len() ==> (#[trigger] json_escaped(s)[i] as u32)
            >= 0x20,
    decreases s.len(),
{
    if s.len() > 0 {
        lemma_json_escaped_printable(s.drop_last());
        let c = s.last();
        let prev = json_escaped(s.drop_last());
        let e = json_escape_char(c);
        assert forall|i: int| 0 <= i < e.len() implies (#[trigger] e[i] as u32) >= 0x20 by {
            if (c as u32) < 0x20 && c != '\n' && c != '\r' && c != '\t' && c != '"' && c != '\\' {
                let v = c as u32;
                assert(v / 16 < 16 && v % 16 < 16);
            }
        }
        assert forall|i: int| 0 <= i < json_escaped(s).len() implies (
        #[trigger] json_escaped(s)[i] as u32) >= 0x20 by {
            if i < prev.len() {
                assert(json_escaped(s)[i] == prev[i]);
            } else {
                assert(json_escaped(s)[i] == e[i - prev.len()]);
            }
        }
    }
}

/// The character that a JSON short escape `\e` stands for.
pub open spec fn short_escape_target(e: char) -> Option<char> {
    if e == '"' {
        Some('"')
    } else if e == '\\' {
        Some('\\')
    } else if e == 'n' {
        Some('\n')
    } else if e == 'r' {
        Some('\r')
    } else if e == 't' {
        Some('\t')
    } else if e == '/' {
        Some('/')
    } else if e == 'b' {
        Some('\u{8}')
    } else if e == 'f' {
        Some('\u{c}')
    } else {
        None
    }
}

/// Whether a character is a hexadecimal digit.
pub open spec fn is_hex_digit(c: char) -> bool {
    ('0' <= c && c <= '9') || ('a' <= c && c <= 'f') || ('A' <= c && c <= 'F')
}

/// How a JSON reader reads the text between the quotes of a string value:
/// the short escapes `\"`, `\\`, `\/`, `\b`, `\f`, `\n`, `\r`, `\t`, a
/// `\uXXXX` escape outside the surrogate range, and a pair of `\uXXXX` escapes
/// of a high and a low surrogate each stand for one character; a raw quote,
/// backslash or control character, or a lone surrogate, makes the text
/// unreadable (`None`); other characters stand for themselves.
pub open spec fn json_unescaped(t: Seq<char>) -> Option<Seq<char>>
    decreases t.len(),
{
    if t.len() == 0 {
        Some(Seq::empty())
    } else if t[0] == '\\' {
        if t.len() < 2 {
            None
        } else if t[1] == 'u' {
            if t.len() < 6 || !is_hex_digit(t[2]) || !is_hex_digit(t[3]) || !is_hex_digit(t[4])
                || !is_hex_digit(t[5]) {
                None
            } else {
                let v = ((hex_value(t[2]) * 16 + hex_value(t[3])) * 16 + hex_value(t[4])) * 16
                    + hex_value(t[5]);
                if 0xD800 <= v && v < 0xDC00 {
                    if t.len() < 12 || t[6] != '\\' || t[7] != 'u' || !is_hex_digit(t[8])
                        || !is_hex_digit(t[9]) || !is_hex_digit(t[10]) || !is_hex_digit(t[11]) {
                        None
                    } else {
                        let lo = ((hex_value(t[8]) * 16 + hex_value(t[9])) * 16 + hex_value(t[10]))
                            * 16 + hex_value(t[11]);
                        if lo < 0xDC00 || lo >= 0xE000 {
                            None
                        } else {
                            let c = 0x10000 + (v - 0xD800) * 0x400 + (lo - 0xDC00);
                            match json_unescaped(t.subrange(12, t.len() as int)) {
                                Some(rest) => Some(seq![c as char] + rest),
                                None => None,
                            }
                        }
                    }
                } else if 0xDC00 <= v && v < 0xE000 {
                    None
                } else {
                    match json_unescaped(t.subrange(6, t.len() as int)) {
                        Some(rest) => Some(seq![v as char] + rest),
                        None => None,
                    }
                }
            }
        } else {
            match short_escape_target(t[1]) {
                Some(c) => match json_unescaped(t.subrange(2, t.len() as int)) {
                    Some(rest) => Some(seq![c] + rest),
                    None => None,
                },
                None => None,
            }
        }
    } else if t[0] == '"' || (t[0] as u32) < 0x20 {
        None
    } else {
        match json_unescaped(t.drop_first()) {
            Some(rest) => Some(seq![t[0]] + rest),
            None => None,
        }
    }
}

proof fn lemma_json_escaped_front(s: Seq<char>)
    requires
        s.len() > 0,
    ensures
        json_escaped(s) == json_escape_char(s[0]) + json_escaped(s.drop_first()),
    decreases s.len(),
{
    if s.len() == 1 {
        assert(s.drop_last() =~= Seq::<char>::empty());
        assert(s.drop_first() =~= Seq::<char>::empty());
        assert(json_escaped(s) =~= json_escape_char(s[0]));
    } else {
        let p = s.drop_last();
        lemma_json_escaped_front(p);
        assert(s.drop_first().drop_last() =~= p.drop_first());
        assert(s.drop_first().last() == s.last());
        assert(json_escaped(s) =~= json_escape_char(s[0]) + json_escaped(s.drop_first()));
    }
}

proof fn lemma_unescape_one(c: char, rest: Seq<char>)
    ensures
        json_unescaped(json_escape_char(c) + rest) == match json_unescaped(rest) {
            Some(r) => Some(seq![c] + r),
            None => None::<Seq<char>>,
        },
{
    let t = json_escape_char(c) + rest;
    if c == '"' || c == '\\' || c == '\n' || c == '\r' || c == '\t' {
        assert(t.subrange(2, t.len() as int) =~= rest);
    } else if (c as u32) < 0x20 {
        let v = c as u32;
        assert(t.subrange(6, t.len() as int) =~= rest);
        assert(hex_value(hex_digit((v / 16) as nat)) == v / 16);
        assert(hex_value(hex_digit((v % 16) as nat)) == v % 16);
        assert(hex_value('0') == 0);
        assert(((0 * 16 + 0) * 16 + v / 16) * 16 + v % 16 == v);
        assert((v as char) == c);
    } else {
        assert(t.drop_first() =~= rest);
    }
}

/// Escaping is undone by reading: a JSON reader reads the escaped text of
/// any string back as that string, so the escaped text is always readable
/// between quotes and stands for exactly that string.
pub proof fn lemma_json_escape_round_trip(s: Seq<char>)
    ensures
        json_unescaped(json_escaped(s)) == Some(s),
    decreases s.len(),
{
    if s.len() > 0 {
        lemma_json_escaped_front(s);
        lemma_json_escape_round_trip(s.drop_first());
        lemma_unescape_one(s[0], json_escaped(s.drop_first()));
        assert(seq![s[0]] + s.drop_first() =~= s);
    }
}

/// Escapes a string for safe inclusion as a JSON string value.
pub fn json_escape(s: &str) -> (r: String)
    ensures
        r@ == json_escaped(s@),
{
    let mut out = String::new();
    for c in it: s.chars()
        invariant
            it.seq() == s@,
            out@ == json_escaped(it.seq().take(it.index() as int)),
    {
        proof {
            assert(it.seq().take(it.index() + 1).drop_last() =~= it.seq().take(it.index() as int));
        }
        push_json_escaped_char(&mut out, c);
    }
    assert(s@.take(s@.len() as int) =~= s@);
    out
}


/// What a string becomes when handed to C: the string itself, or the empty
/// string when it holds a NUL character (a C string cannot carry one).
pub open spec fn c_text_of(s: Seq<char>) -> Seq<char> {
    if s.contains('\0') {
        Seq::empty()
    } else {
        s
    }
}

/// A string without a NUL character reaches C unchanged; one with a NUL
/// character reaches it as the empty string.
pub proof fn lemma_c_text_passes_nul_free(s: Seq<char>)
    ensures
        !s.contains('\0') ==> c_text_of(s) == s,
        s.contains('\0') ==> c_text_of(s).len() == 0,
{
}

/// The text of the C string made from `s`: `s` unchanged, or empty when `s`
/// holds a NUL character.
pub fn c_text(s: &str) -> (r: String)
    ensures
        r@ == c_text_of(s@),
        !r@.contains('\0'),
        !s@.contains('\0') ==> r@ == s@,
        s@.contains('\0') ==> r@.len() == 0,
{
    let mut has_nul = false;
    for c in it: s.chars()
        invariant
            it.seq() == s@,
            has_nul <==> exists|j: int| 0 <= j < it.index() && s@[j] == '\0',
    {
        if c == '\0' {
            has_nul = true;
        }
    }
    if has_nul {
        String::new()
    } else {
        s.to_owned()
    }
}

/// The parts written one after another with `sep` between neighbours.
pub open spec fn joined(parts: Seq<Seq<char>>, sep: Seq<char>) -> Seq<char>
    decreases parts.len(),
{
    if parts.len() == 0 {
        Seq::empty()
    } else if parts.len() == 1 {
        parts[0]
    } else {
        joined(parts.drop_last(), sep) + sep + parts.last()
    }
}

/// The total number of characters of the parts.
pub open spec fn total_len(parts: Seq<Seq<char>>) -> nat
    decreases parts.len(),
{
    if parts.len() == 0 {
        0
    } else {
        total_len(parts.drop_last()) + parts.last().len()
    }
}

/// Where part `k` begins when the parts are written one after another with a
/// one-character separator between neighbours: after the earlier parts and
/// one separator each.
pub open spec fn part_start(parts: Seq<Seq<char>>, k: int) -> int {
    total_len(parts.take(k)) + k
}

/// Joining with a one-character separator lays the parts out in order: the
/// text is as long as the parts plus one separator between each two
/// neighbours, part `k` stands at `part_start(parts, k)`, and the separator
/// follows every part but the last.
pub proof fn lemma_joined_layout(parts: Seq<Seq<char>>, sep: Seq<char>)
    requires
        parts.len() > 0,
        sep.len() == 1,
    ensures
        joined(parts, sep).len() == total_len(parts) + parts.len() - 1,
        forall|k: int|
            #![trigger part_start(parts, k)]
            0 <= k < parts.len() ==> 0 <= part_start(parts, k) && part_start(parts, k)
                + parts[k].len() <= joined(parts, sep).len() && joined(parts, sep).subrange(
                part_start(parts, k),
                part_start(parts, k) + parts[k].len(),
            ) == parts[k],
        forall|k: int|
            #![trigger part_start(parts, k)]
            0 <= k < parts.len() - 1 ==> joined(parts, sep)[part_start(parts, k) + parts[k].len()]
                == sep[0],
{
    lemma_joined_len(parts, sep);
    assert forall|k: int| 0 <= k < parts.len() implies 0 <= part_start(parts, k) && part_start(
        parts,
        k,
    ) + parts[k].len() <= joined(parts, sep).len() && joined(parts, sep).subrange(
        part_start(parts, k),
        part_start(parts, k) + parts[k].len(),
    ) == parts[k] by {
        lemma_joined_part(parts, sep, k);
    }
    assert forall|k: int| 0 <= k < parts.len() - 1 implies joined(parts, sep)[part_start(parts, k)
        + parts[k].len()] == sep[0] by {
        lemma_joined_sep(parts, sep, k);
    }
}

proof fn lemma_joined_len(parts: Seq<Seq<char>>, sep: Seq<char>)
    requires
        parts.len() > 0,
        sep.len() == 1,
    ensures
        joined(parts, sep).len() == total_len(parts) + parts.len() - 1,
    decreases parts.len(),
{
    if parts.len() == 1 {
        assert(total_len(parts.drop_last()) == 0);
    } else {
        lemma_joined_len(parts.drop_last(), sep);
    }
}

proof fn lemma_joined_part(parts: Seq<Seq<char>>, sep: Seq<char>, k: int)
    requires
        0 <= k < parts.len(),
        sep.len() == 1,
    ensures
        0 <= part_start(parts, k),
        part_start(parts, k) + parts[k].len() <= joined(parts, sep).len(),
        joined(parts, sep).subrange(part_start(parts, k), part_start(parts, k) + parts[k].len())
            == parts[k],
    decreases parts.len(),
{
    let n = parts.len() as int;
    let whole = joined(parts, sep);
    let front = parts.drop_last();
    lemma_joined_len(parts, sep);
    if n == 1 {
        assert(parts.take(0) =~= Seq::<Seq<char>>::empty());
        assert(whole.subrange(0, parts[0].len() as int) =~= parts[0]);
    } else if k == n - 1 {
        lemma_joined_len(front, sep);
        assert(parts.take(n - 1) =~= front);
        assert(whole.subrange(part_start(parts, k), part_start(parts, k) + parts[k].len())
            =~= parts[k]);
    } else {
        lemma_joined_part(front, sep, k);
        let head = joined(front, sep);
        assert(front.take(k) =~= parts.take(k));
        assert(whole.subrange(part_start(parts, k), part_start(parts, k) + parts[k].len())
            =~= head.subrange(part_start(front, k), part_start(front, k) + front[k].len()));
    }
}

proof fn lemma_joined_sep(parts: Seq<Seq<char>>, sep: Seq<char>, k: int)
    requires
        0 <= k < parts.len() - 1,
        sep.len() == 1,
    ensures
        joined(parts, sep)[part_start(parts, k) + parts[k].len()] == sep[0],
    decreases parts.len(),
{
    let n = parts.len() as int;
    let front = parts.drop_last();
    let head = joined(front, sep);
    lemma_joined_len(front, sep);
    assert(front.take(k) =~= parts.take(k));
    if k == n - 2 {
        assert(front.drop_last() =~= parts.take(k));
    } else {
        lemma_joined_sep(front, sep, k);
        lemma_joined_part(front, sep, k + 1);
        assert(front.take(k + 1).drop_last() =~= front.take(k));
    }
}

/// The character views of a list of strings.
pub open spec fn texts(parts: Seq<String>) -> Seq<Seq<char>> {
    parts.map_values(|p: String| p@)
}

/// Joins strings with a separator.
pub fn join(parts: &[String], sep: &str) -> (r: String)
    ensures
        r@ == joined(texts(parts@), sep@),
{
    let mut out = String::new();
    let mut i: usize = 0;
    while i < parts.len()
        invariant
            i <= parts.len(),
            out@ == joined(texts(parts@).take(i as int), sep@),
        decreases parts.len() - i,
    {
        let ghost before = texts(parts@).take(i as int);
        let ghost after = texts(parts@).take(i + 1);
        assert(after.drop_last() =~= before);
        if i > 0 {
            out.append(sep);
        }
        out.append(parts[i].as_str());
        i = i + 1;
    }
    assert(texts(parts@).take(i as int) =~= texts(parts@));
    out
}

} // verus!
