use vstd::prelude::*;

verus! {

/// The character of a decimal digit `d < 10`.
pub open spec fn digit_char(d: nat) -> char {
    if d == 0 { '0' }
    else if d == 1 { '1' }
    else if d == 2 { '2' }
    else if d == 3 { '3' }
    else if d == 4 { '4' }
    else if d == 5 { '5' }
    else if d == 6 { '6' }
    else if d == 7 { '7' }
    else if d == 8 { '8' }
    else { '9' }
}

/// The value of a decimal digit character.
pub open spec fn char_value(c: char) -> int {
    c as int - '0' as int
}

pub open spec fn is_digit(c: char) -> bool {
    '0' <= c && c <= '9'
}

/// Decimal digits of a natural number, most significant first, without leading zeros.
pub open spec fn nat_digits(n: nat) -> Seq<char>
    decreases n,
{
    if n < 10 {
        seq![digit_char(n)]
    } else {
        nat_digits(n / 10).push(digit_char(n % 10))
    }
}

/// The text that Rust's `Display` gives for an integer.
pub open spec fn decimal_of(n: int) -> Seq<char> {
    if n < 0 {
        seq!['-'] + nat_digits((-n) as nat)
    } else {
        nat_digits(n as nat)
    }
}

/// The value of a string of decimal digits.
pub open spec fn digits_value(s: Seq<char>) -> int
    decreases s.len(),
{
    if s.len() == 0 {
        0
    } else {
        digits_value(s.drop_last()) * 10 + char_value(s.last())
    }
}

pub open spec fn all_digits(s: Seq<char>) -> bool {
    forall|i: int| 0 <= i < s.len() ==> is_digit(#[trigger] s[i])
}

/// What `str::parse` returns for an integer type whose values run from `lo`
/// to `hi`: an optional `+` (or `-` when the type is `signed`), then one or
/// more decimal digits whose value is in range.
pub open spec fn parse_int_spec(s: Seq<char>, signed: bool, lo: int, hi: int) -> Option<int> {
    let neg = signed && s.len() > 0 && s[0] == '-';
    let body = if s.len() > 0 && (s[0] == '+' || neg) { s.drop_first() } else { s };
    let v = if neg { -digits_value(body) } else { digits_value(body) };
    if body.len() > 0 && all_digits(body) && lo <= v && v <= hi {
        Some(v)
    } else {
        None
    }
}

/// What `str::parse::<i32>` returns.
pub open spec fn parse_i32_spec(s: Seq<char>) -> Option<i32> {
    match parse_int_spec(s, true, i32::MIN as int, i32::MAX as int) {
        Some(v) => Some(v as i32),
        None => None,
    }
}

/// What `str::parse::<u32>` returns.
pub open spec fn parse_u32_spec(s: Seq<char>) -> Option<u32> {
    match parse_int_spec(s, false, 0, u32::MAX as int) {
        Some(v) => Some(v as u32),
        None => None,
    }
}

/// What `str::parse::<i64>` returns.
pub open spec fn parse_i64_spec(s: Seq<char>) -> Option<i64> {
    match parse_int_spec(s, true, i64::MIN as int, i64::MAX as int) {
        Some(v) => Some(v as i64),
        None => None,
    }
}

/// Relies on `i32`'s `Display` impl: the plain decimal text of the number.
#[verifier::external_body]
pub(crate) fn i32_text(n: i32) -> (r: String)
    ensures
        r@ == decimal_of(n as int),
{
    n.to_string()
}

/// Relies on `usize`'s `Display` impl: the plain decimal text of the number.
#[verifier::external_body]
pub(crate) fn usize_text(n: usize) -> (r: String)
    ensures
        r@ == decimal_of(n as int),
{
    n.to_string()
}

/// Relies on `u16`'s `Display` impl: the plain decimal text of the number.
#[verifier::external_body]
pub(crate) fn u16_text(n: u16) -> (r: String)
    ensures
        r@ == decimal_of(n as int),
{
    n.to_string()
}

/// Relies on `str::parse::<i32>` (`i32::from_str`): an optional `+` or `-`
/// followed by decimal digits whose value is in range, and nothing else.
#[verifier::external_body]
pub(crate) fn parse_i32(s: &str) -> (r: Option<i32>)
    ensures
        r == parse_i32_spec(s@),
{
    s.parse::<i32>().ok()
}

/// Relies on `str::parse::<u32>` (`u32::from_str`): an optional `+` followed
/// by decimal digits whose value is in range, and nothing else.
#[verifier::external_body]
pub(crate) fn parse_u32(s: &str) -> (r: Option<u32>)
    ensures
        r == parse_u32_spec(s@),
{
    s.parse::<u32>().ok()
}

/// Relies on `str::parse::<i64>` (`i64::from_str`): an optional `+` or `-`
/// followed by decimal digits whose value is in range, and nothing else.
#[verifier::external_body]
pub(crate) fn parse_i64(s: &str) -> (r: Option<i64>)
    ensures
        r == parse_i64_spec(s@),
{
    s.parse::<i64>().ok()
}

/// Index of the first `c` at or after `from`, or the length when there is none.
pub open spec fn next_index_of(s: Seq<char>, c: char, from: int) -> int
    decreases s.len() - from,
{
    if from >= s.len() {
        s.len() as int
    } else if s[from] == c {
        from
    } else {
        next_index_of(s, c, from + 1)
    }
}

/// What `s.split(c).nth(n)` yields from position `from` on: `None` when the
/// text has fewer than `n + 1` pieces.
pub open spec fn split_piece_from(s: Seq<char>, c: char, n: nat, from: int) -> Option<Seq<char>>
    decreases n,
{
    let end = next_index_of(s, c, from);
    if n == 0 {
        Some(s.subrange(from, end))
    } else if end >= s.len() {
        None
    } else {
        split_piece_from(s, c, (n - 1) as nat, end + 1)
    }
}

/// The `n`-th piece of `s` split at `c`, or the empty text when there is none.
pub open spec fn split_piece(s: Seq<char>, c: char, n: nat) -> Seq<char> {
    match split_piece_from(s, c, n, 0) {
        Some(p) => p,
        None => Seq::empty(),
    }
}

proof fn lemma_next_index_bounds(s: Seq<char>, c: char, from: int)
    requires
        0 <= from <= s.len(),
    ensures
        from <= next_index_of(s, c, from) <= s.len(),
        next_index_of(s, c, from) < s.len() ==> s[next_index_of(s, c, from)] == c,
        forall|k: int| from <= k < next_index_of(s, c, from) ==> s[k] != c,
    decreases s.len() - from,
{
    if from < s.len() && s[from] != c {
        lemma_next_index_bounds(s, c, from + 1);
    }
}

/// Finds the first `c` in `s` at or after `from`.
fn find_from(s: &str, c: char, from: usize) -> (r: usize)
    requires
        from <= s@.len(),
    ensures
        r == next_index_of(s@, c, from as int),
{
    let len = s.unicode_len();
    let mut i = from;
    proof {
        lemma_next_index_bounds(s@, c, from as int);
    }
    while i < len
        invariant
            len == s@.len(),
            from <= i <= len,
            next_index_of(s@, c, i as int) == next_index_of(s@, c, from as int),
        decreases len - i,
    {
        if s.get_char(i) == c {
            return i;
        }
        i = i + 1;
    }
    i
}

/// The `n`-th piece of `s` split at `c` (counting from zero), or the empty
/// text when `s` has fewer pieces.
pub fn split_nth(s: &str, c: char, n: usize) -> (r: &str)
    ensures
        r@ == split_piece(s@, c, n as nat),
{
    let len = s.unicode_len();
    let mut from: usize = 0;
    let mut k: usize = n;
    while k > 0
        invariant
            len == s@.len(),
            0 <= from <= len,
            k <= n,
            split_piece_from(s@, c, n as nat, 0) == split_piece_from(s@, c, k as nat, from as int),
        decreases k,
    {
        let end = find_from(s, c, from);
        proof {
            lemma_next_index_bounds(s@, c, from as int);
        }
        if end >= len {
            proof {
                reveal_strlit("");
            }
            assert(split_piece_from(s@, c, k as nat, from as int).is_none());
            return "";
        }
        from = end + 1;
        k = k - 1;
    }
    let end = find_from(s, c, from);
    proof {
        lemma_next_index_bounds(s@, c, from as int);
    }
    s.substring_char(from, end)
}

/// Whether two texts are the same, char by char.
pub fn same_text(a: &str, b: &str) -> (r: bool)
    ensures
        r == (a@ == b@),
{
    let n = a.unicode_len();
    if n != b.unicode_len() {
        return false;
    }
    let mut i: usize = 0;
    while i < n
        invariant
            n == a@.len(),
            n == b@.len(),
            0 <= i <= n,
            forall|j: int| 0 <= j < i ==> a@[j] == b@[j],
        decreases n - i,
    {
        if a.get_char(i) != b.get_char(i) {
            return false;
        }
        i = i + 1;
    }
    assert(a@ =~= b@);
    true
}

/// The lower-case form of a text, as Unicode defines it.
pub uninterp spec fn lower_of(s: Seq<char>) -> Seq<char>;

/// Relies on `str::to_lowercase`: the result depends on the characters alone.
#[verifier::external_body]
pub(crate) fn lowercase(s: &str) -> (r: String)
    ensures
        r@ == lower_of(s@),
{
    s.to_lowercase()
}

} // verus!
