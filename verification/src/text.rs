use vstd::prelude::*;

verus! {

/// `String::push` puts one character at the end of the string and leaves the
/// rest as it was.
pub assume_specification[ String::push ](s: &mut String, ch: char)
    ensures
        final(s)@ == old(s)@.push(ch),
;

/// What `str::to_lowercase` returns for a text: its Unicode lower-case form.
pub uninterp spec fn lowercase_of(s: Seq<char>) -> Seq<char>;

/// `str::to_lowercase` maps a text to its Unicode lower-case form, which
/// depends on the characters of the text alone.
#[verifier::external_body]
pub(crate) fn to_lowercase(s: &str) -> (lower: String)
    ensures
        lower@ == lowercase_of(s@),
{
    s.to_lowercase()
}

/// What `char::is_alphanumeric` answers for a character: whether Unicode
/// classes it as a letter or a number.
pub uninterp spec fn alphanumeric(c: char) -> bool;

/// `char::is_alphanumeric` tells whether Unicode classes the character as a
/// letter or a number, which depends on the character alone.
#[verifier::external_body]
pub(crate) fn is_alphanumeric(c: char) -> (answer: bool)
    ensures
        answer == alphanumeric(c),
{
    c.is_alphanumeric()
}

/// What `char::is_numeric` answers for a character: whether Unicode classes
/// it as a number.
pub uninterp spec fn numeric(c: char) -> bool;

/// `char::is_numeric` tells whether Unicode classes the character as a
/// number, which depends on the character alone.
#[verifier::external_body]
pub(crate) fn is_numeric(c: char) -> (answer: bool)
    ensures
        answer == numeric(c),
{
    c.is_numeric()
}

/// The characters of a string, in order.
pub fn chars_of(s: &str) -> (chars: Vec<char>)
    ensures
        chars@ == s@,
{
    let n: usize = s.unicode_len();
    let mut chars: Vec<char> = Vec::new();
    let mut i: usize = 0;
    while i < n
        invariant
            n == s@.len(),
            i <= n,
            chars@ == s@.subrange(0, i as int),
        decreases n - i,
    {
        let c: char = s.get_char(i);
        chars.push(c);
        i = i + 1;
        assert(chars@ == s@.subrange(0, i as int));
    }
    assert(s@.subrange(0, n as int) == s@);
    chars
}

/// The string made of the given characters, in order.
pub fn string_of(chars: &Vec<char>) -> (s: String)
    ensures
        s@ == chars@,
{
    let mut s: String = String::new();
    let mut i: usize = 0;
    while i < chars.len()
        invariant
            i <= chars.len(),
            s@ == chars@.subrange(0, i as int),
        decreases chars.len() - i,
    {
        s.push(chars[i]);
        i = i + 1;
        assert(s@ == chars@.subrange(0, i as int));
    }
    assert(chars@.subrange(0, chars.len() as int) == chars@);
    s
}

/// A class of characters that a scan can test for.
#[derive(Clone, Copy, Debug)]
pub enum CharClass {
    /// A character with the Unicode property `White_Space`.
    Whitespace,
    /// One of the ten ASCII decimal digits.
    Digit,
    /// Any character but an ASCII decimal digit.
    NotDigit,
    /// Exactly the given character.
    Is(char),
}

/// Whether `c` is an ASCII decimal digit.
pub open spec fn is_digit(c: char) -> bool {
    '0' <= c && c <= '9'
}

/// Whether `c` has the Unicode property `White_Space`.
pub open spec fn is_whitespace(c: char) -> bool {
    let n = c as u32;
    ||| 0x09 <= n <= 0x0D
    ||| n == 0x20
    ||| n == 0x85
    ||| n == 0xA0
    ||| n == 0x1680
    ||| 0x2000 <= n <= 0x200A
    ||| n == 0x2028
    ||| n == 0x2029
    ||| n == 0x202F
    ||| n == 0x205F
    ||| n == 0x3000
}

impl CharClass {
    /// Whether `c` belongs to the class.
    pub open spec fn holds(self, c: char) -> bool {
        match self {
            CharClass::Whitespace => is_whitespace(c),
            CharClass::Digit => is_digit(c),
            CharClass::NotDigit => !is_digit(c),
            CharClass::Is(d) => c == d,
        }
    }

    /// Tests whether `c` belongs to the class.
    pub fn test(&self, c: char) -> (member: bool)
        ensures
            member == self.holds(c),
    {
        match self {
            CharClass::Whitespace => {
                let n: u32 = c as u32;
                (0x09 <= n && n <= 0x0D) || n == 0x20 || n == 0x85 || n == 0xA0 || n == 0x1680
                    || (0x2000 <= n && n <= 0x200A) || n == 0x2028 || n == 0x2029 || n == 0x202F
                    || n == 0x205F || n == 0x3000
            },
            CharClass::Digit => '0' <= c && c <= '9',
            CharClass::NotDigit => !('0' <= c && c <= '9'),
            CharClass::Is(d) => c == *d,
        }
    }
}

/// How many characters of the class stand in a row in `s` from index `from` on.
pub open spec fn run_from(s: Seq<char>, class: CharClass, from: int) -> nat
    decreases s.len() - from,
{
    if 0 <= from < s.len() && class.holds(s[from]) {
        1 + run_from(s, class, from + 1)
    } else {
        0
    }
}

/// How many characters of the class stand in a row at the start of `s`.
pub open spec fn leading_run(s: Seq<char>, class: CharClass) -> nat {
    run_from(s, class, 0)
}

/// How many characters of the class stand in a row just before index `to` of `s`.
pub open spec fn run_before(s: Seq<char>, class: CharClass, to: int) -> nat
    decreases to,
{
    if 0 < to <= s.len() && class.holds(s[to - 1]) {
        1 + run_before(s, class, to - 1)
    } else {
        0
    }
}

/// How many characters of the class stand in a row at the end of `s`.
pub open spec fn trailing_run(s: Seq<char>, class: CharClass) -> nat {
    run_before(s, class, s.len() as int)
}

/// `s` without the characters of the class at its start.
pub open spec fn trim_start_of(s: Seq<char>, class: CharClass) -> Seq<char> {
    s.subrange(leading_run(s, class) as int, s.len() as int)
}

/// `s` without the characters of the class at its end.
pub open spec fn trim_end_of(s: Seq<char>, class: CharClass) -> Seq<char> {
    s.subrange(0, s.len() - trailing_run(s, class))
}

/// `s` without the characters of the class at either end.
pub open spec fn trim_of(s: Seq<char>, class: CharClass) -> Seq<char> {
    trim_end_of(trim_start_of(s, class), class)
}

/// `s` without white space at either end.
pub open spec fn trimmed(s: Seq<char>) -> Seq<char> {
    trim_of(s, CharClass::Whitespace)
}

/// Counts the characters of the class that stand in a row at the start of the text.
pub fn count_leading(v: &Vec<char>, class: CharClass) -> (count: usize)
    ensures
        count == leading_run(v@, class),
        count <= v.len(),
{
    let mut i: usize = 0;
    while i < v.len() && class.test(v[i])
        invariant
            i <= v.len(),
            leading_run(v@, class) == i + run_from(v@, class, i as int),
        decreases v.len() - i,
    {
        i = i + 1;
    }
    i
}

/// Counts the characters of the class that stand in a row at the end of the text.
pub fn count_trailing(v: &Vec<char>, class: CharClass) -> (count: usize)
    ensures
        count == trailing_run(v@, class),
        count <= v.len(),
{
    let n: usize = v.len();
    let mut i: usize = n;
    while i > 0 && class.test(v[i - 1])
        invariant
            i <= n,
            n == v.len(),
            trailing_run(v@, class) == (n - i) + run_before(v@, class, i as int),
        decreases i,
    {
        i = i - 1;
    }
    n - i
}

/// The characters of `v` from index `from` up to, not including, index `to`.
pub fn slice(v: &Vec<char>, from: usize, to: usize) -> (part: Vec<char>)
    requires
        from <= to <= v.len(),
    ensures
        part@ == v@.subrange(from as int, to as int),
{
    let mut part: Vec<char> = Vec::new();
    let mut i: usize = from;
    while i < to
        invariant
            from <= i <= to <= v.len(),
            part@ == v@.subrange(from as int, i as int),
        decreases to - i,
    {
        part.push(v[i]);
        i = i + 1;
        assert(part@ == v@.subrange(from as int, i as int));
    }
    part
}

/// Removes the characters of the class from both ends of the text.
pub fn trim_class(v: &Vec<char>, class: CharClass) -> (kept: Vec<char>)
    ensures
        kept@ == trim_of(v@, class),
{
    let start: usize = count_leading(v, class);
    let rest: Vec<char> = slice(v, start, v.len());
    let tail: usize = count_trailing(&rest, class);
    slice(&rest, 0, rest.len() - tail)
}

/// Whether two texts hold the same characters.
pub fn same(a: &Vec<char>, b: &Vec<char>) -> (equal: bool)
    ensures
        equal == (a@ == b@),
{
    if a.len() != b.len() {
        return false;
    }
    let mut i: usize = 0;
    while i < a.len()
        invariant
            a.len() == b.len(),
            i <= a.len(),
            a@.subrange(0, i as int) == b@.subrange(0, i as int),
        decreases a.len() - i,
    {
        if a[i] != b[i] {
            return false;
        }
        i = i + 1;
        assert(a@.subrange(0, i as int) == a@.subrange(0, i - 1).push(a@[i - 1]));
        assert(b@.subrange(0, i as int) == b@.subrange(0, i - 1).push(b@[i - 1]));
    }
    assert(a@ == a@.subrange(0, a.len() as int));
    assert(b@ == b@.subrange(0, b.len() as int));
    true
}

/// The least index at or after `from` where `c` stands in `s`, or the length
/// of `s` where it stands nowhere from there on.
pub open spec fn index_from(s: Seq<char>, c: char, from: int) -> int
    decreases s.len() - from,
{
    if 0 <= from < s.len() {
        if s[from] == c {
            from
        } else {
            index_from(s, c, from + 1)
        }
    } else {
        s.len() as int
    }
}

/// The least index where `c` stands in `s`, or the length of `s` where it
/// stands nowhere.
pub open spec fn first_index_of(s: Seq<char>, c: char) -> int {
    index_from(s, c, 0)
}

/// Whether `c` stands somewhere in `s`.
pub open spec fn has_char(s: Seq<char>, c: char) -> bool {
    first_index_of(s, c) < s.len()
}

/// The part of `s` before the first `c`, or all of `s` where there is none.
pub open spec fn before_first(s: Seq<char>, c: char) -> Seq<char> {
    s.subrange(0, first_index_of(s, c))
}

/// The part of `s` after the first `c`, or the empty text where there is none.
pub open spec fn after_first(s: Seq<char>, c: char) -> Seq<char> {
    if has_char(s, c) {
        s.subrange(first_index_of(s, c) + 1, s.len() as int)
    } else {
        Seq::empty()
    }
}

/// The pieces of `s` between the occurrences of `sep`, in order. There is
/// always at least one piece, and a piece may be empty.
pub open spec fn split_of(s: Seq<char>, sep: char) -> Seq<Seq<char>>
    decreases s.len(),
{
    if has_char(s, sep) {
        proof {
            lemma_index_from(s, sep, 0);
        }
        seq![before_first(s, sep)] + split_of(after_first(s, sep), sep)
    } else {
        seq![s]
    }
}

/// Whether `pattern` stands somewhere in `s` as a run of consecutive characters.
pub open spec fn contains_text(s: Seq<char>, pattern: Seq<char>) -> bool {
    exists|i: int|
        0 <= i && i + pattern.len() <= s.len() && #[trigger] s.subrange(i, i + pattern.len())
            == pattern
}

/// The texts behind a vector of character vectors.
pub open spec fn texts_of(parts: Seq<Vec<char>>) -> Seq<Seq<char>> {
    Seq::new(parts.len(), |i: int| parts[i]@)
}

/// The index that `index_from` gives lies between `from` and the length, no
/// `c` stands before it, and `c` stands at it unless it is the length.
pub proof fn lemma_index_from(s: Seq<char>, c: char, from: int)
    requires
        0 <= from <= s.len(),
    ensures
        from <= index_from(s, c, from) <= s.len(),
        forall|j: int| from <= j < index_from(s, c, from) ==> s[j] != c,
        index_from(s, c, from) < s.len() ==> s[index_from(s, c, from)] == c,
    decreases s.len() - from,
{
    if from < s.len() && s[from] != c {
        lemma_index_from(s, c, from + 1);
    }
}

/// Finds the first `c` at or after `from`.
pub fn find_from(v: &Vec<char>, c: char, from: usize) -> (at: usize)
    requires
        from <= v.len(),
    ensures
        at == index_from(v@, c, from as int),
        from <= at <= v.len(),
{
    let mut i: usize = from;
    while i < v.len() && v[i] != c
        invariant
            from <= i <= v.len(),
            index_from(v@, c, from as int) == index_from(v@, c, i as int),
        decreases v.len() - i,
    {
        i = i + 1;
    }
    i
}

/// Finds the first `c` in the text.
pub fn find(v: &Vec<char>, c: char) -> (at: usize)
    ensures
        at == first_index_of(v@, c),
        at <= v.len(),
{
    find_from(v, c, 0)
}

/// Cuts the text at every `sep`.
pub fn split(v: &Vec<char>, sep: char) -> (parts: Vec<Vec<char>>)
    ensures
        texts_of(parts@) == split_of(v@, sep),
        parts.len() >= 1,
{
    let mut parts: Vec<Vec<char>> = Vec::new();
    let mut rest: Vec<char> = slice(v, 0, v.len());
    assert(rest@ == v@);
    loop
        invariant_except_break
            split_of(v@, sep) == texts_of(parts@) + split_of(rest@, sep),
        ensures
            texts_of(parts@) == split_of(v@, sep),
            parts.len() >= 1,
        decreases rest.len(),
    {
        let at: usize = find(&rest, sep);
        if at == rest.len() {
            let ghost before = texts_of(parts@);
            parts.push(rest);
            assert(texts_of(parts@) == before + seq![rest@]);
            break;
        }
        let piece: Vec<char> = slice(&rest, 0, at);
        let tail: Vec<char> = slice(&rest, at + 1, rest.len());
        let ghost before = texts_of(parts@);
        parts.push(piece);
        assert(texts_of(parts@) == before + seq![piece@]);
        assert(split_of(rest@, sep) == seq![piece@] + split_of(tail@, sep));
        rest = tail;
    }
    parts
}

/// Whether the text begins with the pattern.
pub fn starts_with(v: &Vec<char>, pattern: &Vec<char>) -> (found: bool)
    ensures
        found == pattern@.is_prefix_of(v@),
{
    if pattern.len() > v.len() {
        return false;
    }
    let head: Vec<char> = slice(v, 0, pattern.len());
    same(&head, pattern)
}

/// Whether the text ends with the pattern.
pub fn ends_with(v: &Vec<char>, pattern: &Vec<char>) -> (found: bool)
    ensures
        found == pattern@.is_suffix_of(v@),
{
    if pattern.len() > v.len() {
        return false;
    }
    let tail: Vec<char> = slice(v, v.len() - pattern.len(), v.len());
    same(&tail, pattern)
}

/// Whether the pattern stands somewhere in the text.
pub fn contains(v: &Vec<char>, pattern: &Vec<char>) -> (found: bool)
    ensures
        found == contains_text(v@, pattern@),
{
    if pattern.len() > v.len() {
        return false;
    }
    let last: usize = v.len() - pattern.len();
    let mut i: usize = 0;
    loop
        invariant
            last == v.len() - pattern.len(),
            i <= last,
            forall|j: int| 0 <= j < i ==> #[trigger] v@.subrange(j, j + pattern.len()) != pattern@,
        decreases last - i,
    {
        let window: Vec<char> = slice(v, i, i + pattern.len());
        if same(&window, pattern) {
            return true;
        }
        if i == last {
            return false;
        }
        i = i + 1;
    }
}

/// The two texts one after the other.
pub fn join(a: &Vec<char>, b: &Vec<char>) -> (both: Vec<char>)
    ensures
        both@ == a@ + b@,
{
    let mut both: Vec<char> = slice(a, 0, a.len());
    assert(both@ == a@);
    let mut i: usize = 0;
    while i < b.len()
        invariant
            i <= b.len(),
            both@ == a@ + b@.subrange(0, i as int),
        decreases b.len() - i,
    {
        both.push(b[i]);
        i = i + 1;
        assert(both@ == a@ + b@.subrange(0, i as int));
    }
    assert(b@.subrange(0, b.len() as int) == b@);
    both
}

/// The number that a decimal digit stands for.
pub open spec fn digit_value(c: char) -> int {
    c as int - 48
}

/// Whether every character of `s` is an ASCII decimal digit.
pub open spec fn all_digits(s: Seq<char>) -> bool {
    forall|i: int| 0 <= i < s.len() ==> is_digit(#[trigger] s[i])
}

/// The number that the first `n` characters of `s` denote in base ten, read
/// as digits; 0 for no characters.
pub open spec fn number_upto(s: Seq<char>, n: int) -> int
    decreases n,
{
    if n <= 0 {
        0
    } else {
        number_upto(s, n - 1) * 10 + digit_value(s[n - 1])
    }
}

/// The number that `s` denotes in base ten, read as digits.
pub open spec fn number_of(s: Seq<char>) -> int {
    number_upto(s, s.len() as int)
}

/// The number that a run of digits denotes, where there is at least one
/// digit, nothing but digits, and the number is at most `max`.
pub open spec fn digits_number(s: Seq<char>, max: int) -> Option<int> {
    if s.len() > 0 && all_digits(s) && number_of(s) <= max {
        Some(number_of(s))
    } else {
        None
    }
}

/// The number that `s` denotes as an unsigned decimal: one `+` may stand
/// before the digits, and nothing else may stand beside them.
pub open spec fn unsigned_number(s: Seq<char>, max: int) -> Option<int> {
    if s.len() > 0 && s[0] == '+' {
        digits_number(s.subrange(1, s.len() as int), max)
    } else {
        digits_number(s, max)
    }
}

/// Reading more digits never gives a smaller number.
pub proof fn lemma_number_grows(s: Seq<char>, k: int, n: int)
    requires
        0 <= k <= n <= s.len(),
        all_digits(s),
    ensures
        0 <= number_upto(s, k) <= number_upto(s, n),
    decreases n,
{
    if k < n {
        lemma_number_grows(s, k, n - 1);
        assert(is_digit(s[n - 1]));
    } else if n > 0 {
        lemma_number_grows(s, k - 1, n - 1);
        assert(is_digit(s[n - 1]));
    }
}

/// Reads a run of decimal digits as a number of at most `max`.
pub(crate) fn parse_digits(v: &Vec<char>, max: u64) -> (number: Option<u64>)
    requires
        max <= 0xFFFF_FFFF,
    ensures
        match number {
            Some(n) => digits_number(v@, max as int) == Some(n as int),
            None => digits_number(v@, max as int) is None,
        },
{
    if v.len() == 0 {
        return None;
    }
    let mut acc: u64 = 0;
    let mut i: usize = 0;
    while i < v.len()
        invariant
            max <= 0xFFFF_FFFF,
            i <= v.len(),
            acc <= max,
            acc == number_upto(v@, i as int),
            forall|j: int| 0 <= j < i ==> is_digit(#[trigger] v@[j]),
        decreases v.len() - i,
    {
        let c: char = v[i];
        if !('0' <= c && c <= '9') {
            return None;
        }
        let d: u64 = (c as u32 - 48) as u64;
        let next: u64 = acc * 10 + d;
        if next > max {
            proof {
                assert(next == number_upto(v@, i + 1));
                if all_digits(v@) {
                    lemma_number_grows(v@, i + 1, v.len() as int);
                }
            }
            return None;
        }
        acc = next;
        i = i + 1;
    }
    Some(acc)
}

/// Reads an unsigned decimal of at most `max`; one `+` may stand before the digits.
pub(crate) fn parse_unsigned(v: &Vec<char>, max: u64) -> (number: Option<u64>)
    requires
        max <= 0xFFFF_FFFF,
    ensures
        match number {
            Some(n) => unsigned_number(v@, max as int) == Some(n as int),
            None => unsigned_number(v@, max as int) is None,
        },
{
    if v.len() > 0 && v[0] == '+' {
        let digits: Vec<char> = slice(v, 1, v.len());
        parse_digits(&digits, max)
    } else {
        parse_digits(v, max)
    }
}

/// Whether `a` comes before `b` from index `from` on, the characters before
/// it being equal: at the first index where the two differ `a` holds the
/// smaller character, or `a` ends there and `b` does not.
pub open spec fn less_from(a: Seq<char>, b: Seq<char>, from: int) -> bool
    decreases a.len() - from,
{
    if from < 0 || from >= b.len() {
        false
    } else if from >= a.len() {
        true
    } else if a[from] != b[from] {
        a[from] < b[from]
    } else {
        less_from(a, b, from + 1)
    }
}

/// Whether `a` comes strictly before `b` in the lexicographic order of their
/// characters.
pub open spec fn text_less(a: Seq<char>, b: Seq<char>) -> bool {
    less_from(a, b, 0)
}

/// Two texts that agree up to `from`, neither of which comes before the
/// other from there on, are equal.
pub proof fn lemma_less_from_total(a: Seq<char>, b: Seq<char>, from: int)
    requires
        0 <= from <= a.len(),
        from <= b.len(),
        a.subrange(0, from) == b.subrange(0, from),
        !less_from(a, b, from),
        !less_from(b, a, from),
    ensures
        a == b,
    decreases a.len() - from,
{
    if from >= a.len() || from >= b.len() {
        assert(a.len() == b.len());
        assert(a == a.subrange(0, from));
        assert(b == b.subrange(0, from));
    } else {
        assert(a[from] == b[from]);
        assert(a.subrange(0, from + 1) == a.subrange(0, from).push(a[from]));
        assert(b.subrange(0, from + 1) == b.subrange(0, from).push(b[from]));
        lemma_less_from_total(a, b, from + 1);
    }
}

/// Of two texts at most one comes before the other.
pub proof fn lemma_less_from_asymmetric(a: Seq<char>, b: Seq<char>, from: int)
    requires
        0 <= from,
        less_from(a, b, from),
    ensures
        !less_from(b, a, from),
    decreases a.len() - from,
{
    if from < a.len() && from < b.len() && a[from] == b[from] {
        lemma_less_from_asymmetric(a, b, from + 1);
    }
}

/// Coming before is transitive.
pub proof fn lemma_less_from_transitive(a: Seq<char>, b: Seq<char>, c: Seq<char>, from: int)
    requires
        0 <= from,
        less_from(a, b, from),
        less_from(b, c, from),
    ensures
        less_from(a, c, from),
    decreases a.len() - from,
{
    if from < a.len() && from < b.len() && from < c.len() && a[from] == b[from] && b[from]
        == c[from] {
        lemma_less_from_transitive(a, b, c, from + 1);
    }
}

/// Whether `a` comes strictly before `b` in the lexicographic order.
pub fn less(a: &Vec<char>, b: &Vec<char>) -> (before: bool)
    ensures
        before == text_less(a@, b@),
{
    let mut i: usize = 0;
    loop
        invariant
            i <= a.len(),
            i <= b.len(),
            text_less(a@, b@) == less_from(a@, b@, i as int),
        decreases a.len() - i,
    {
        if i >= b.len() {
            return false;
        }
        if i >= a.len() {
            return true;
        }
        if a[i] != b[i] {
            return a[i] < b[i];
        }
        i = i + 1;
    }
}

} // verus!
