use vstd::prelude::*;
use vstd::string::{StrSliceExecFns, StringExecFns};

verus! {

/// The character of a decimal digit.
pub open spec fn digit_char(d: int) -> char {
    ('0' as int + d) as char
}

/// The decimal digits of `n`, most significant first, without leading zeros.
pub open spec fn digits_of(n: nat) -> Seq<char>
    decreases n,
{
    if n < 10 {
        seq![digit_char(n as int)]
    } else {
        digits_of(n / 10).push(digit_char((n % 10) as int))
    }
}

/// `v` written in decimal, with a leading minus sign when negative.
pub open spec fn decimal(v: int) -> Seq<char> {
    if v < 0 {
        seq!['-'] + digits_of((-v) as nat)
    } else {
        digits_of(v as nat)
    }
}

/// `s` padded on the left with `c` up to `width` characters.
pub open spec fn pad_left(s: Seq<char>, width: nat, c: char) -> Seq<char> {
    if s.len() >= width {
        s
    } else {
        Seq::new((width - s.len()) as nat, |_i: int| c) + s
    }
}

/// `v` right-aligned in `width` characters, as `format!("{:>width$}", v)`
/// writes it.
pub open spec fn format_right(v: int, width: nat) -> Seq<char> {
    pad_left(decimal(v), width, ' ')
}

/// `v` zero-padded to `width` characters, as `format!("{:0width$}", v)`
/// writes it: the sign, if any, comes before the zeros.
pub open spec fn format_zero(v: int, width: nat) -> Seq<char> {
    if v < 0 {
        seq!['-'] + pad_left(digits_of((-v) as nat), if width == 0 { 0 } else { (width - 1) as nat }, '0')
    } else {
        pad_left(digits_of(v as nat), width, '0')
    }
}

/// Appends a character to a string: `String::push`, which appends the
/// character at the end and changes nothing else.
#[verifier::external_body]
fn push_char(s: &mut String, c: char)
    ensures
        final(s)@ == old(s)@.push(c),
{
    s.push(c);
}

/// Appends the decimal digits of `n`.
fn push_digits(s: &mut String, n: u64)
    ensures
        final(s)@ == old(s)@ + digits_of(n as nat),
    decreases n,
{
    if n >= 10 {
        push_digits(s, n / 10);
    }
    let d: u64 = n % 10;
    let c: char = if d == 0 {
        '0'
    } else if d == 1 {
        '1'
    } else if d == 2 {
        '2'
    } else if d == 3 {
        '3'
    } else if d == 4 {
        '4'
    } else if d == 5 {
        '5'
    } else if d == 6 {
        '6'
    } else if d == 7 {
        '7'
    } else if d == 8 {
        '8'
    } else {
        '9'
    };
    push_char(s, c);
    proof {
        assert(c == digit_char(d as int));
        if n >= 10 {
            assert(digits_of(n as nat) == digits_of((n / 10) as nat).push(digit_char(d as int)));
        } else {
            assert(digits_of(n as nat) == seq![digit_char(d as int)]);
        }
    }
}

/// Appends `count` copies of `c`.
fn push_repeated(s: &mut String, c: char, count: usize)
    ensures
        final(s)@ == old(s)@ + Seq::new(count as nat, |_i: int| c),
{
    let mut k: usize = 0;
    while k < count
        invariant
            k <= count,
            s@ == old(s)@ + Seq::new(k as nat, |_i: int| c),
        decreases count - k,
    {
        push_char(s, c);
        k = k + 1;
        assert(s@ =~= old(s)@ + Seq::new(k as nat, |_i: int| c));
    }
}

/// Appends `body` padded on the left with `c` up to `width` characters.
fn push_padded(s: &mut String, body: &String, width: usize, c: char)
    ensures
        final(s)@ == old(s)@ + pad_left(body@, width as nat, c),
{
    let len = body.as_str().unicode_len();
    if len < width {
        push_repeated(s, c, width - len);
    }
    s.append(body.as_str());
    assert(s@ =~= old(s)@ + pad_left(body@, width as nat, c));
}

/// The magnitude of `v`.
fn magnitude(v: i32) -> (m: u64)
    ensures
        m as int == (if v < 0 { -v } else { v as int }),
{
    if v < 0 {
        (-(v as i64)) as u64
    } else {
        v as u64
    }
}

/// Appends `v` right-aligned in `width` characters.
pub fn push_right(s: &mut String, v: i32, width: usize)
    ensures
        final(s)@ == old(s)@ + format_right(v as int, width as nat),
{
    let mut body = String::new();
    if v < 0 {
        push_char(&mut body, '-');
    }
    push_digits(&mut body, magnitude(v));
    assert(body@ =~= decimal(v as int));
    push_padded(s, &body, width, ' ');
}

/// Appends `v` zero-padded to `width` characters.
pub fn push_zero_padded(s: &mut String, v: i32, width: usize)
    ensures
        final(s)@ == old(s)@ + format_zero(v as int, width as nat),
{
    let mut digits = String::new();
    push_digits(&mut digits, magnitude(v));
    if v < 0 {
        push_char(s, '-');
        let w: usize = if width == 0 { 0 } else { width - 1 };
        push_padded(s, &digits, w, '0');
        assert(s@ =~= old(s)@ + format_zero(v as int, width as nat));
    } else {
        push_padded(s, &digits, width, '0');
    }
}

/// Appends `v` in decimal, as `format!("{}", v)` writes it.
pub fn push_decimal(s: &mut String, v: i32)
    ensures
        final(s)@ == old(s)@ + decimal(v as int),
{
    push_right(s, v, 0);
}

/// The text above the play area: `Level:` with the level zero-padded to two
/// digits, seven spaces, and `Score:` with the score right-aligned in five
/// characters.
pub open spec fn gui_text_of(level: i32, score: i32) -> Seq<char> {
    "Level:"@ + format_zero(level as int, 2) + "       Score:"@ + format_right(score as int, 5)
}

/// The text above the play area.
pub fn gui_text(level: i32, score: i32) -> (s: String)
    ensures
        s@ == gui_text_of(level, score),
{
    let mut s = String::new();
    s.append("Level:");
    push_zero_padded(&mut s, level, 2);
    s.append("       Score:");
    push_right(&mut s, score, 5);
    s
}

/// `Level:` and the level zero-padded to two digits, as the game-over
/// screen shows it.
pub fn level_text(level: i32) -> (s: String)
    ensures
        s@ == "Level:"@ + format_zero(level as int, 2),
{
    let mut s = String::new();
    s.append("Level:");
    push_zero_padded(&mut s, level, 2);
    s
}

/// `Score:` and the score zero-padded to five digits, as the game-over
/// screen shows it.
pub fn score_text(score: i32) -> (s: String)
    ensures
        s@ == "Score:"@ + format_zero(score as int, 5),
{
    let mut s = String::new();
    s.append("Score:");
    push_zero_padded(&mut s, score, 5);
    s
}

/// The volume setting: `volume:`, the volume right-aligned in three
/// characters, and `%`.
pub fn volume_text(volume: i32) -> (s: String)
    ensures
        s@ == "volume:"@ + format_right(volume as int, 3) + "%"@,
{
    let mut s = String::new();
    s.append("volume:");
    push_right(&mut s, volume, 3);
    s.append("%");
    s
}

/// The starting level setting: `level:` and the level right-aligned in two
/// characters.
pub fn start_level_text(level: i32) -> (s: String)
    ensures
        s@ == "level:"@ + format_right(level as int, 2),
{
    let mut s = String::new();
    s.append("level:");
    push_right(&mut s, level, 2);
    s
}

/// The stars setting: `stars:` and the number right-aligned in five
/// characters.
pub fn stars_text(stars: i32) -> (s: String)
    ensures
        s@ == "stars:"@ + format_right(stars as int, 5),
{
    let mut s = String::new();
    s.append("stars:");
    push_right(&mut s, stars, 5);
    s
}

/// The scores shown in the top score table: among the first `count`
/// entries, those that are not zero.
pub open spec fn shown_scores(table: Seq<i32>, count: nat) -> Seq<i32> {
    (if table.len() <= count { table } else { table.take(count as int) }).filter(|v: i32| v != 0)
}

/// The lines of the top score table: the non-zero scores among the first
/// `TOP_SCORE_COUNT`, each right-aligned in five characters.
pub fn top_score_lines(table: &Vec<i32>) -> (lines: Vec<String>)
    ensures
        lines@.map_values(|l: String| l@)
            == shown_scores(table@, crate::constants::TOP_SCORE_COUNT as nat).map_values(|v: i32| format_right(v as int, 5)),
{
    let count: usize = crate::constants::TOP_SCORE_COUNT;
    let n: usize = if table.len() <= count { table.len() } else { count };
    let ghost head = if table@.len() <= count { table@ } else { table@.take(count as int) };
    assert(head.len() == n);
    let mut lines: Vec<String> = Vec::new();
    let mut i: usize = 0;
    while i < n
        invariant
            n == head.len(),
            n <= table@.len(),
            head == (if table@.len() <= count { table@ } else { table@.take(count as int) }),
            i <= n,
            lines@.map_values(|l: String| l@)
                == head.take(i as int).filter(|v: i32| v != 0).map_values(|v: i32| format_right(v as int, 5)),
        decreases n - i,
    {
        let v = table[i];
        assert(head[i as int] == v);
        let ghost before = lines@.map_values(|l: String| l@);
        assert(head.take(i as int + 1).drop_last() =~= head.take(i as int));
        reveal_with_fuel(Seq::filter, 1);
        if v != 0 {
            let mut line = String::new();
            push_right(&mut line, v, 5);
            lines.push(line);
            assert(lines@.map_values(|l: String| l@) =~= before.push(format_right(v as int, 5)));
        } else {
            assert(lines@.map_values(|l: String| l@) =~= before);
        }
        i = i + 1;
    }
    assert(head.take(n as int) =~= head);
    lines
}

/// Ten to the power `w`.
pub open spec fn pow10(w: nat) -> nat
    decreases w,
{
    if w == 0 {
        1
    } else {
        10 * pow10((w - 1) as nat)
    }
}

/// A number below `10^w` (and `w >= 1`) has at most `w` digits.
pub proof fn lemma_digits_len(n: nat, w: nat)
    requires
        w >= 1,
        n < pow10(w),
    ensures
        1 <= digits_of(n).len() <= w,
    decreases n,
{
    if n >= 10 {
        assert(pow10(w) == 10 * pow10((w - 1) as nat));
        if w == 1 {
            assert(pow10(0) == 1);
        }
        lemma_digits_len(n / 10, (w - 1) as nat);
    }
}

/// A value in `0 .. 10^w` is written right-aligned in exactly `w`
/// characters: the settings texts keep their length as their values change
/// within their ranges, so they can be rewritten in place.
pub proof fn lemma_format_right_width(v: int, w: nat)
    requires
        w >= 1,
        0 <= v < pow10(w),
    ensures
        format_right(v, w).len() == w,
{
    lemma_digits_len(v as nat, w);
}

} // verus!
