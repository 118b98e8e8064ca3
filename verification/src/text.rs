//! Text helpers: comparing strings, writing numbers, cutting keys at a delimiter.
use vstd::prelude::*;
use vstd::utf8::*;

verus! {

/// The character that separates the parts of a key.
pub const REDIS_DELIMITER: char = ':';

/// The digit character for `d`.
pub open spec fn digit(d: nat) -> char {
    (48 + d) as char
}

/// The decimal notation of `n`, without leading zeros.
pub open spec fn decimal(n: nat) -> Seq<char>
    decreases n,
{
    if n < 10 {
        seq![digit(n)]
    } else {
        decimal(n / 10).push(digit(n % 10))
    }
}

/// The decimal notation of an integer, with a leading minus sign below zero.
pub open spec fn signed_decimal(i: int) -> Seq<char> {
    if i < 0 {
        seq!['-'] + decimal((-i) as nat)
    } else {
        decimal(i as nat)
    }
}

/// The UTF-8 encoding of a text.
pub open spec fn utf8(s: Seq<char>) -> Seq<u8> {
    encode_utf8(s)
}

/// Whether `s` holds a delimiter.
pub open spec fn has_delimiter(s: Seq<char>) -> bool {
    exists|i: int| 0 <= i < s.len() && s[i] == REDIS_DELIMITER
}

/// Whether the first delimiter of `s` stands at position `i`.
pub open spec fn first_delimiter_at(s: Seq<char>, i: int) -> bool {
    &&& 0 <= i < s.len()
    &&& s[i] == REDIS_DELIMITER
    &&& !has_delimiter(s.take(i))
}

/// Whether the last delimiter of `s` stands at position `i`.
pub open spec fn last_delimiter_at(s: Seq<char>, i: int) -> bool {
    &&& 0 <= i < s.len()
    &&& s[i] == REDIS_DELIMITER
    &&& !has_delimiter(s.skip(i + 1))
}

/// Equal encodings come from equal texts.
pub proof fn lemma_utf8_injective(a: Seq<char>, b: Seq<char>)
    requires
        utf8(a) == utf8(b),
    ensures
        a == b,
{
    encode_utf8_decode_utf8(a);
    encode_utf8_decode_utf8(b);
}

/// Equal decimal notations stand for equal numbers.
pub proof fn lemma_decimal_injective(a: nat, b: nat)
    requires
        decimal(a) == decimal(b),
    ensures
        a == b,
    decreases a,
{
    lemma_decimal_len(a);
    lemma_decimal_len(b);
    assert(decimal(a).last() == digit(a % 10));
    assert(decimal(b).last() == digit(b % 10));
    if a < 10 {
    } else if b < 10 {
    } else {
        assert(decimal(a / 10) =~= decimal(a).drop_last());
        assert(decimal(b / 10) =~= decimal(b).drop_last());
        lemma_decimal_injective(a / 10, b / 10);
    }
}

/// One digit exactly below ten, more from ten on; the last one is the remainder by ten.
proof fn lemma_decimal_len(n: nat)
    ensures
        decimal(n).len() >= 1,
        decimal(n).len() == 1 <==> n < 10,
        decimal(n).last() == digit(n % 10),
    decreases n,
{
    if n >= 10 {
        lemma_decimal_len(n / 10);
    }
}

/// The first delimiter of a text stands in one place only.
pub proof fn lemma_first_delimiter_unique(s: Seq<char>, i: int, j: int)
    requires
        first_delimiter_at(s, i),
        first_delimiter_at(s, j),
    ensures
        i == j,
{
    if i < j {
        assert(s.take(j)[i] == REDIS_DELIMITER);
    } else if j < i {
        assert(s.take(i)[j] == REDIS_DELIMITER);
    }
}

/// Whether two texts are the same.
pub fn str_eq(a: &str, b: &str) -> (r: bool)
    ensures
        r == (a@ == b@),
{
    let x = a.as_bytes();
    let y = b.as_bytes();
    if x.len() != y.len() {
        return false;
    }
    let mut i: usize = 0;
    while i < x.len()
        invariant
            x@ == utf8(a@),
            y@ == utf8(b@),
            x@.len() == y@.len(),
            0 <= i <= x@.len(),
            forall|k: int| 0 <= k < i ==> x@[k] == y@[k],
        decreases x@.len() - i,
    {
        if x[i] != y[i] {
            return false;
        }
        i += 1;
    }
    proof {
        assert(x@ =~= y@);
        lemma_utf8_injective(a@, b@);
    }
    true
}

/// The digit `d` as a text.
fn digit_str(d: u64) -> (r: &'static str)
    requires
        d < 10,
    ensures
        r@ == seq![digit(d as nat)],
{
    proof {
        reveal_strlit("0");
        reveal_strlit("1");
        reveal_strlit("2");
        reveal_strlit("3");
        reveal_strlit("4");
        reveal_strlit("5");
        reveal_strlit("6");
        reveal_strlit("7");
        reveal_strlit("8");
        reveal_strlit("9");
    }
    let r = if d == 0 {
        "0"
    } else if d == 1 {
        "1"
    } else if d == 2 {
        "2"
    } else if d == 3 {
        "3"
    } else if d == 4 {
        "4"
    } else if d == 5 {
        "5"
    } else if d == 6 {
        "6"
    } else if d == 7 {
        "7"
    } else if d == 8 {
        "8"
    } else {
        "9"
    };
    assert(r@ =~= seq![digit(d as nat)]);
    r
}

/// `n` in decimal notation.
pub fn decimal_string(n: u64) -> (r: String)
    ensures
        r@ == decimal(n as nat),
    decreases n,
{
    if n < 10 {
        digit_str(n).to_owned()
    } else {
        let mut s = decimal_string(n / 10);
        s.append(digit_str(n % 10));
        assert(s@ =~= decimal(n as nat));
        s
    }
}

/// The position, in characters, of the first delimiter.
pub fn find_delimiter(s: &str) -> (r: Option<usize>)
    ensures
        match r {
            Some(i) => first_delimiter_at(s@, i as int),
            None => !has_delimiter(s@),
        },
{
    let n = s.unicode_len();
    let mut i: usize = 0;
    for c in it: s.chars()
        invariant
            n == s@.len(),
            it.seq() == s@,
            i == it.index(),
            forall|k: int| 0 <= k < i ==> s@[k] != REDIS_DELIMITER,
    {
        if c == REDIS_DELIMITER {
            return Some(i);
        }
        i += 1;
    }
    None
}

/// The position, in characters, of the last delimiter.
pub fn find_last_delimiter(s: &str) -> (r: Option<usize>)
    ensures
        match r {
            Some(i) => last_delimiter_at(s@, i as int),
            None => !has_delimiter(s@),
        },
{
    let n = s.unicode_len();
    let mut i: usize = 0;
    let mut found: Option<usize> = None;
    for c in it: s.chars()
        invariant
            n == s@.len(),
            it.seq() == s@,
            i == it.index(),
            match found {
                Some(j) => j < i && s@[j as int] == REDIS_DELIMITER && forall|k: int|
                    j < k < i ==> s@[k] != REDIS_DELIMITER,
                None => forall|k: int| 0 <= k < i ==> s@[k] != REDIS_DELIMITER,
            },
    {
        if c == REDIS_DELIMITER {
            found = Some(i);
        }
        i += 1;
    }
    found
}

/// The texts one after the other.
pub fn concat3(a: &str, b: &str, c: &str) -> (r: String)
    ensures
        r@ == a@ + b@ + c@,
{
    let mut s = a.to_owned();
    s.append(b);
    s.append(c);
    s
}

/// The number that a row of digit characters stands for, the last digit counting least.
pub open spec fn digits_value(s: Seq<char>) -> nat
    decreases s.len(),
{
    if s.len() == 0 {
        0
    } else {
        10 * digits_value(s.drop_last()) + (s.last() as nat - '0' as nat) as nat
    }
}

/// The decimal notation of a number is the one row of digits, without leading zeros, that stands
/// for the number; below zero a minus sign stands in front of it.
pub proof fn law_decimal_stands_for_the_number(n: nat)
    ensures
        digits_value(decimal(n)) == n,
        forall|i: int| 0 <= i < decimal(n).len() ==> '0' <= #[trigger] decimal(n)[i] <= '9',
        decimal(n).len() >= 1,
        n > 0 ==> decimal(n)[0] != '0',
        n == 0 ==> decimal(n) == seq!['0'],
        signed_decimal(n as int) == decimal(n),
        n > 0 ==> signed_decimal(-n) == seq!['-'] + decimal(n),
    decreases n,
{
    lemma_decimal_len(n);
    if n < 10 {
        assert(decimal(n).drop_last() =~= Seq::<char>::empty());
        assert(digits_value(decimal(n).drop_last()) == 0);
        assert(decimal(0) =~= seq!['0']);
    } else {
        law_decimal_stands_for_the_number(n / 10);
        assert(decimal(n).drop_last() =~= decimal(n / 10));
        assert(decimal(n)[0] == decimal(n / 10)[0]);
        assert forall|i: int| 0 <= i < decimal(n).len() implies '0' <= #[trigger] decimal(n)[i]
            <= '9' by {
            if i < decimal(n / 10).len() {
                assert(decimal(n)[i] == decimal(n / 10)[i]);
            }
        }
    }
}

/// Bytes of a text are read back as the text, and different texts have different bytes.
pub proof fn law_utf8_is_read_back(a: Seq<char>, b: Seq<char>)
    ensures
        decode_utf8(utf8(a)) == a,
        utf8(a) == utf8(b) <==> a == b,
{
    encode_utf8_decode_utf8(a);
    encode_utf8_decode_utf8(b);
}

/// The delimiter is the colon, and a text holds a first and a last one exactly where it holds one.
pub proof fn law_delimiter_is_the_colon(s: Seq<char>, i: int)
    ensures
        has_delimiter(s) <==> s.contains(':'),
        first_delimiter_at(s, i) <==> 0 <= i < s.len() && s[i] == ':' && (forall|j: int|
            0 <= j < i ==> s[j] != ':'),
        last_delimiter_at(s, i) <==> 0 <= i < s.len() && s[i] == ':' && (forall|j: int|
            i < j < s.len() ==> s[j] != ':'),
{
    if 0 <= i < s.len() {
        let front = s.take(i);
        let back = s.skip(i + 1);
        assert forall|j: int| 0 <= j < i implies front[j] == s[j] by {}
        if !has_delimiter(front) {
            assert forall|j: int| 0 <= j < i implies s[j] != ':' by {
                assert(front[j] == s[j]);
            }
        }
        if !has_delimiter(back) {
            assert forall|j: int| i < j < s.len() implies s[j] != ':' by {
                assert(back[j - i - 1] == s[j]);
            }
        }
    }
}

} // verus!
