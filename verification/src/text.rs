//! The text the middleware writes and reads: message building blocks, decimal
//! numbers, column padding and line framing.
use vstd::prelude::*;
use vstd::string::*;

verus! {

/// The character of one decimal digit.
pub open spec fn digit(d: nat) -> char {
    ('0' as nat + d) as char
}

/// The decimal numeral of `n`, without leading zeros.
pub open spec fn decimal(n: nat) -> Seq<char>
    decreases n,
{
    if n < 10 {
        seq![digit(n)]
    } else {
        decimal(n / 10).push(digit(n % 10))
    }
}

/// The word a truth value is written as.
pub open spec fn truth(b: bool) -> Seq<char> {
    if b {
        "true"@
    } else {
        "false"@
    }
}

fn digit_text(d: u64) -> (r: &'static str)
    requires
        d < 10,
    ensures
        r@ == seq![digit(d as nat)],
{
    proof {
        reveal_strlit("0");
        reveal_strlit("1");
        reveal_strlit("2");
        reveal_strlit("3");
        reveal_strlit("4");
        reveal_strlit("5");
        reveal_strlit("6");
        reveal_strlit("7");
        reveal_strlit("8");
        reveal_strlit("9");
    }
    match d {
        0 => "0",
        1 => "1",
        2 => "2",
        3 => "3",
        4 => "4",
        5 => "5",
        6 => "6",
        7 => "7",
        8 => "8",
        _ => "9",
    }
}

/// Writes `n` as a decimal numeral.
pub fn decimal_text(n: u64) -> (r: String)
    ensures
        r@ == decimal(n as nat),
    decreases n,
{
    if n < 10 {
        String::from_str(digit_text(n))
    } else {
        let mut r = decimal_text(n / 10);
        r.append(digit_text(n % 10));
        r
    }
}

/// Writes a truth value as a word.
pub fn truth_text(b: bool) -> (r: &'static str)
    ensures
        r@ == truth(b),
{
    if b {
        "true"
    } else {
        "false"
    }
}

/// Two pieces of text, one after the other.
pub fn join2(a: &str, b: &str) -> (r: String)
    ensures
        r@ == a@ + b@,
{
    let mut r = String::from_str(a);
    r.append(b);
    r
}

/// Three pieces of text, one after the other.
pub fn join3(a: &str, b: &str, c: &str) -> (r: String)
    ensures
        r@ == a@ + b@ + c@,
{
    let mut r = join2(a, b);
    r.append(c);
    r
}

/// Text made of `n` spaces.
pub open spec fn spaces(n: nat) -> Seq<char> {
    Seq::new(n, |i: int| ' ')
}

/// `s` filled up with spaces on the right to `width` characters; text that is
/// already as wide stays as it is.
pub open spec fn padded(s: Seq<char>, width: nat) -> Seq<char> {
    if s.len() < width {
        s + spaces((width - s.len()) as nat)
    } else {
        s
    }
}

/// Fills `s` up with spaces on the right to `width` characters.
pub fn pad_right(s: &str, width: usize) -> (r: String)
    ensures
        r@ == padded(s@, width as nat),
{
    let length: usize = s.unicode_len();
    let mut r = String::from_str(s);
    let mut count: usize = length;
    proof {
        reveal_strlit(" ");
    }
    while count < width
        invariant
            s@.len() == length,
            length <= count,
            count <= width || count == length,
            r@ == s@ + spaces((count - length) as nat),
            " "@ == seq![' '],
        decreases width - count,
    {
        r.append(" ");
        count = count + 1;
        assert(r@ =~= s@ + spaces((count - length) as nat));
    }
    r
}

/// The characters with the Unicode property `White_Space`.
pub open spec fn white_space(c: char) -> bool {
    ||| 0x9 <= c as u32 <= 0xd
    ||| c as u32 == 0x20
    ||| c as u32 == 0x85
    ||| c as u32 == 0xa0
    ||| c as u32 == 0x1680
    ||| 0x2000 <= c as u32 <= 0x200a
    ||| c as u32 == 0x2028
    ||| c as u32 == 0x2029
    ||| c as u32 == 0x202f
    ||| c as u32 == 0x205f
    ||| c as u32 == 0x3000
}

/// `s` from its first character that is no white space on.
pub open spec fn trimmed_start(s: Seq<char>) -> Seq<char>
    decreases s.len(),
{
    if s.len() > 0 && white_space(s.first()) {
        trimmed_start(s.drop_first())
    } else {
        s
    }
}

/// `s` up to its last character that is no white space.
pub open spec fn trimmed_end(s: Seq<char>) -> Seq<char>
    decreases s.len(),
{
    if s.len() > 0 && white_space(s.last()) {
        trimmed_end(s.drop_last())
    } else {
        s
    }
}

/// `s` without the white space at its two ends.
pub open spec fn trimmed(s: Seq<char>) -> Seq<char> {
    trimmed_end(trimmed_start(s))
}

/// `str::trim`: gives `s` without leading and trailing white space, where white
/// space is what has the Unicode property `White_Space`.
#[verifier::external_body]
pub(crate) fn trim(s: &str) -> (r: &str)
    ensures
        r@ == trimmed(s@),
{
    s.trim()
}

/// The line that carries `payload`: the payload and a line feed.
pub open spec fn framed(payload: Seq<char>) -> Seq<char> {
    payload + "\n"@
}

/// Frames `payload` as one line.
pub fn frame(payload: &str) -> (r: String)
    ensures
        r@ == framed(payload@),
{
    join2(payload, "\n")
}

/// The payload a line carries, or `None` where it carries none: a line of white
/// space only, or an end of input.
pub fn unframe(line: &str) -> (r: Option<String>)
    ensures
        r is None <==> trimmed(line@).len() == 0,
        r matches Some(payload) ==> payload@ == trimmed(line@),
{
    let payload = trim(line);
    if payload.is_empty() {
        None
    } else {
        Some(String::from_str(payload))
    }
}

/// The first line of an input: up to and with its first line feed, or all of it
/// where it holds none.
pub open spec fn first_line(input: Seq<char>) -> Seq<char>
    decreases input.len(),
{
    if input.len() == 0 || input.first() == '\n' {
        input.take(if input.len() == 0 { 0 } else { 1 })
    } else {
        seq![input.first()] + first_line(input.drop_first())
    }
}

/// A payload that fits the line framing: not empty, on one line, and with no
/// white space at its ends.
pub open spec fn fits_line(payload: Seq<char>) -> bool {
    &&& payload.len() > 0
    &&& !payload.contains('\n')
    &&& !white_space(payload.first())
    &&& !white_space(payload.last())
}

/// What is framed comes back: of an input that starts with the line of a fitting
/// payload the first line is that line, and the payload is what the line carries.
pub proof fn law_frame_round_trip(payload: Seq<char>, rest: Seq<char>)
    requires
        fits_line(payload),
    ensures
        first_line(framed(payload) + rest) == framed(payload),
        trimmed(framed(payload)) == payload,
{
    reveal_strlit("\n");
    lemma_first_line(payload, rest);
    let line = framed(payload);
    assert(line.first() == payload.first());
    assert(trimmed_start(line) == line);
    assert(line.last() == '\n');
    assert(line.drop_last() =~= payload);
    assert(trimmed_end(payload) == payload);
    assert(trimmed_end(line) == trimmed_end(line.drop_last()));
}

proof fn lemma_first_line(payload: Seq<char>, rest: Seq<char>)
    requires
        !payload.contains('\n'),
    ensures
        first_line(framed(payload) + rest) == framed(payload),
    decreases payload.len(),
{
    reveal_strlit("\n");
    let input = framed(payload) + rest;
    if payload.len() == 0 {
        assert(input.first() == '\n');
        assert(input.take(1) =~= framed(payload));
    } else {
        assert(payload.contains(payload.first()));
        let tail = payload.drop_first();
        assert forall|i: int| 0 <= i < tail.len() implies tail[i] != '\n' by {
            assert(payload.contains(payload[i + 1]));
        }
        lemma_first_line(tail, rest);
        assert(input.drop_first() =~= framed(tail) + rest);
        assert(seq![input.first()] + framed(tail) =~= framed(payload));
    }
}

/// The number that a row of decimal digits stands for.
pub open spec fn number(numeral: Seq<char>) -> nat
    decreases numeral.len(),
{
    if numeral.len() == 0 {
        0
    } else {
        10 * number(numeral.drop_last()) + (numeral.last() as int - '0' as int) as nat
    }
}

/// A numeral as it is written by hand: digits only, at least one, and no zero in
/// front of another digit.
pub open spec fn plain_numeral(numeral: Seq<char>) -> bool {
    &&& numeral.len() > 0
    &&& forall|i: int| 0 <= i < numeral.len() ==> '0' <= #[trigger] numeral[i] <= '9'
    &&& numeral.len() > 1 ==> numeral.first() != '0'
}

/// A number that is written reads back as itself, from a plain numeral.
pub proof fn law_number_reads_back(n: nat)
    ensures
        plain_numeral(decimal(n)),
        number(decimal(n)) == n,
    decreases n,
{
    if n < 10 {
        assert(decimal(n).drop_last() =~= Seq::empty());
        reveal_with_fuel(number, 2);
    } else {
        law_number_reads_back(n / 10);
        assert(decimal(n).drop_last() =~= decimal(n / 10));
        if decimal(n / 10).first() == '0' {
            lemma_zero(decimal(n / 10));
        }
    }
}

proof fn lemma_zero(numeral: Seq<char>)
    requires
        plain_numeral(numeral),
        numeral.first() == '0',
    ensures
        number(numeral) == 0,
{
    assert(numeral.drop_last() =~= Seq::empty());
    reveal_with_fuel(number, 2);
}

/// Truth values are written as the words of the language.
pub proof fn law_truth_words(b: bool)
    ensures
        b ==> truth(b) == seq!['t', 'r', 'u', 'e'],
        !b ==> truth(b) == seq!['f', 'a', 'l', 's', 'e'],
{
    reveal_strlit("true");
    reveal_strlit("false");
    assert(b ==> truth(b) =~= seq!['t', 'r', 'u', 'e']);
    assert(!b ==> truth(b) =~= seq!['f', 'a', 'l', 's', 'e']);
}

/// Padding keeps the text, adds nothing but spaces behind it, and adds exactly
/// as many as are missing.
pub proof fn law_padding(s: Seq<char>, width: nat)
    ensures
        padded(s, width).len() == if s.len() < width {
            width
        } else {
            s.len()
        },
        padded(s, width).take(s.len() as int) == s,
        forall|i: int|
            s.len() <= i < padded(s, width).len() ==> #[trigger] padded(s, width)[i] == ' ',
{
    assert(padded(s, width).take(s.len() as int) =~= s);
}

/// The code points of white space.
pub open spec fn white_space_points() -> Seq<u32> {
    seq![
        9, 10, 11, 12, 13, 32, 133, 160, 5760, 8192, 8193, 8194, 8195, 8196, 8197, 8198, 8199, 8200,
        8201, 8202, 8232, 8233, 8239, 8287, 12288,
    ]
}

/// White space is what has one of the code points of white space, and nothing
/// else.
pub proof fn law_white_space(c: char)
    ensures
        white_space(c) <==> white_space_points().contains(c as u32),
{
    let points = white_space_points();
    assert(points.len() == 25);
    if white_space(c) {
        let p = c as u32;
        let i = if p <= 13 {
            p - 9
        } else if 8192 <= p <= 8202 {
            p - 8192 + 9
        } else if p == 32 {
            5int
        } else if p == 133 {
            6int
        } else if p == 160 {
            7int
        } else if p == 5760 {
            8int
        } else if p == 8232 {
            20int
        } else if p == 8233 {
            21int
        } else if p == 8239 {
            22int
        } else if p == 8287 {
            23int
        } else {
            24int
        };
        assert(points[i] == p);
    }
}

proof fn lemma_trimmed_start(s: Seq<char>) -> (k: int)
    ensures
        0 <= k <= s.len(),
        trimmed_start(s) == s.skip(k),
        forall|i: int| 0 <= i < k ==> white_space(#[trigger] s[i]),
        k < s.len() ==> !white_space(s[k]),
    decreases s.len(),
{
    if s.len() > 0 && white_space(s.first()) {
        let rest = s.drop_first();
        let k = lemma_trimmed_start(rest);
        assert(rest.skip(k) =~= s.skip(k + 1));
        assert forall|i: int| 0 <= i < k + 1 implies white_space(#[trigger] s[i]) by {
            if i > 0 {
                assert(white_space(rest[i - 1]));
            }
        }
        k + 1
    } else {
        assert(s.skip(0) =~= s);
        0
    }
}

proof fn lemma_trimmed_end(s: Seq<char>) -> (k: int)
    ensures
        0 <= k <= s.len(),
        trimmed_end(s) == s.take(k),
        forall|i: int| k <= i < s.len() ==> white_space(#[trigger] s[i]),
        k > 0 ==> !white_space(s[k - 1]),
    decreases s.len(),
{
    if s.len() > 0 && white_space(s.last()) {
        let rest = s.drop_last();
        let k = lemma_trimmed_end(rest);
        assert(rest.take(k) =~= s.take(k));
        assert forall|i: int| k <= i < s.len() implies white_space(#[trigger] s[i]) by {
            if i < rest.len() {
                assert(white_space(rest[i]));
            }
        }
        k
    } else {
        assert(s.take(s.len() as int) =~= s);
        s.len() as int
    }
}

/// Whether `s` from `i` up to `j` is what is left of `s` once the white space at
/// both ends is gone.
pub open spec fn core_of(s: Seq<char>, i: int, j: int) -> bool {
    &&& 0 <= i <= j <= s.len()
    &&& forall|k: int| 0 <= k < i ==> white_space(#[trigger] s[k])
    &&& forall|k: int| j <= k < s.len() ==> white_space(#[trigger] s[k])
    &&& i < j ==> !white_space(s[i]) && !white_space(s[j - 1])
}

/// Trimming cuts white space off both ends and nothing else, and leaves none
/// there.
pub proof fn law_trimming(s: Seq<char>)
    ensures
        exists|i: int, j: int| #[trigger] core_of(s, i, j) && trimmed(s) == s.subrange(i, j),
{
    let i = lemma_trimmed_start(s);
    let rest = s.skip(i);
    let n = lemma_trimmed_end(rest);
    assert(rest.take(n) =~= s.subrange(i, i + n));
    assert forall|k: int| i + n <= k < s.len() implies white_space(#[trigger] s[k]) by {
        assert(white_space(rest[k - i]));
    }
    if n > 0 {
        assert(rest[n - 1] == s[i + n - 1]);
    }
    assert(core_of(s, i, i + n));
}

/// A line is its payload and a single line feed behind it.
pub proof fn law_line_ends_with_a_line_feed(payload: Seq<char>)
    ensures
        framed(payload).len() == payload.len() + 1,
        framed(payload).drop_last() == payload,
        framed(payload).last() == '\n',
{
    reveal_strlit("\n");
    assert(framed(payload).drop_last() =~= payload);
}

/// The text that is written is what was asked for: pieces one after the other, a
/// number as a plain numeral that reads back, a word for a truth value, a text
/// filled up with spaces, a payload with its line feed.
pub proof fn law_written_text(
    a: &str,
    b: &str,
    c: &str,
    n: u64,
    truth_value: bool,
    width: usize,
    word: &'static str,
    r: String,
)
    ensures
        call_ensures(join2, (a, b), r) ==> r@ == a@ + b@,
        call_ensures(join3, (a, b, c), r) ==> r@ == a@ + b@ + c@,
        call_ensures(decimal_text, (n,), r) ==> plain_numeral(r@) && number(r@) == n,
        call_ensures(truth_text, (truth_value,), word) ==> word@ == if truth_value {
            seq!['t', 'r', 'u', 'e']
        } else {
            seq!['f', 'a', 'l', 's', 'e']
        },
        call_ensures(pad_right, (a, width), r) ==> {
            &&& r@.len() == if a@.len() < width {
                width as nat
            } else {
                a@.len()
            }
            &&& r@.take(a@.len() as int) == a@
            &&& forall|i: int| a@.len() <= i < r@.len() ==> #[trigger] r@[i] == ' '
        },
        call_ensures(frame, (a,), r) ==> r@ == a@.push('\n'),
{
    law_number_reads_back(n as nat);
    law_truth_words(truth_value);
    law_padding(a@, width as nat);
    law_line_ends_with_a_line_feed(a@);
    assert(framed(a@) =~= a@.push('\n'));
}

/// A line of white space carries nothing; any other line carries its text
/// without the white space at both ends.
pub proof fn law_carried_text(line: &str, carried: Option<String>)
    requires
        call_ensures(unframe, (line,), carried),
    ensures
        carried is None <==> forall|i: int| 0 <= i < line@.len() ==> white_space(#[trigger] line@[i]),
        carried matches Some(payload) ==> payload@.len() > 0 && exists|i: int, j: int| #[trigger]
            core_of(line@, i, j) && payload@ == line@.subrange(i, j),
{
    law_trimming(line@);
    let (i, j) = choose|i: int, j: int| #[trigger]
        core_of(line@, i, j) && trimmed(line@) == line@.subrange(i, j);
    if i < j {
        assert(!white_space(line@[i]));
    }
}

} // verus!
