//! Character-level helpers shared by the parsers and formatters.

use vstd::prelude::*;

verus! {

/// The characters of `s`, in order.
pub fn chars_of(s: &str) -> (v: Vec<char>)
    ensures
        v@ == s@,
{
    let mut v: Vec<char> = Vec::new();
    for c in it: s.chars()
        invariant
            it.seq() == s@,
            v@ == it.seq().take(it.index() as int),
    {
        v.push(c);
    }
    v
}

/// Appends one character to a `String` (std's `String::push`).
#[verifier::external_body]
pub fn push_char(s: &mut String, c: char)
    ensures
        final(s)@ == old(s)@.push(c),
{
    s.push(c);
}

/// A `String` holding exactly the characters of `v`.
pub fn string_of(v: &Vec<char>) -> (s: String)
    ensures
        s@ == v@,
{
    let mut s = String::new();
    let mut i: usize = 0;
    while i < v.len()
        invariant
            i <= v.len(),
            s@ == v@.take(i as int),
        decreases v.len() - i,
    {
        push_char(&mut s, v[i]);
        i = i + 1;
        assert(v@.take(i as int) == v@.take(i - 1).push(v@[i - 1]));
    }
    assert(v@.take(v.len() as int) == v@);
    s
}

/// ASCII upper case of one character.
pub open spec fn upper(c: char) -> char {
    if 'a' <= c <= 'z' { ((c as u32) - 32) as char } else { c }
}

pub fn upper_char(c: char) -> (r: char)
    ensures
        r == upper(c),
{
    if 'a' <= c && c <= 'z' {
        ((c as u8) - 32) as char
    } else {
        c
    }
}

} // verus!

verus! {

/// Whether two character vectors hold the same characters.
pub fn same(a: &Vec<char>, b: &Vec<char>) -> (r: bool)
    ensures
        r == (a@ == b@),
{
    if a.len() != b.len() {
        return false;
    }
    let mut i: usize = 0;
    while i < a.len()
        invariant
            i <= a.len() == b.len(),
            forall|k: int| 0 <= k < i ==> a@[k] == b@[k],
        decreases a.len() - i,
    {
        if a[i] != b[i] {
            assert(a@[i as int] != b@[i as int]);
            return false;
        }
        i = i + 1;
    }
    assert(a@ =~= b@);
    true
}

} // verus!

verus! {

/// Rust's `char::is_whitespace`: the Unicode `White_Space` property.
pub open spec fn is_ws(c: char) -> bool {
    let u = c as u32;
    ||| 0x09 <= u <= 0x0d
    ||| u == 0x20
    ||| u == 0x85
    ||| u == 0xa0
    ||| u == 0x1680
    ||| 0x2000 <= u <= 0x200a
    ||| u == 0x2028
    ||| u == 0x2029
    ||| u == 0x202f
    ||| u == 0x205f
    ||| u == 0x3000
}

pub fn is_ws_char(c: char) -> (r: bool)
    ensures
        r == is_ws(c),
{
    let u = c as u32;
    (0x09 <= u && u <= 0x0d) || u == 0x20 || u == 0x85 || u == 0xa0 || u == 0x1680 || (0x2000 <= u
        && u <= 0x200a) || u == 0x2028 || u == 0x2029 || u == 0x202f || u == 0x205f || u == 0x3000
}

/// `s` without its leading whitespace.
pub open spec fn trim_start(s: Seq<char>) -> Seq<char>
    decreases s.len(),
{
    if s.len() > 0 && is_ws(s[0]) {
        trim_start(s.drop_first())
    } else {
        s
    }
}

/// `s` without its trailing whitespace.
pub open spec fn trim_end(s: Seq<char>) -> Seq<char>
    decreases s.len(),
{
    if s.len() > 0 && is_ws(s.last()) {
        trim_end(s.drop_last())
    } else {
        s
    }
}

/// `str::trim`.
pub open spec fn trim(s: Seq<char>) -> Seq<char> {
    trim_end(trim_start(s))
}

/// `s` without any trailing `c` (`str::trim_end_matches` with one char).
pub open spec fn strip_end(s: Seq<char>, c: char) -> Seq<char>
    decreases s.len(),
{
    if s.len() > 0 && s.last() == c {
        strip_end(s.drop_last(), c)
    } else {
        s
    }
}

pub open spec fn starts_with(s: Seq<char>, p: Seq<char>) -> bool {
    p.len() <= s.len() && s.take(p.len() as int) == p
}

/// `i` is the first position of `c` in `s`.
pub open spec fn first_at(s: Seq<char>, c: char, i: int) -> bool {
    &&& 0 <= i < s.len()
    &&& s[i] == c
    &&& forall|k: int| 0 <= k < i ==> s[k] != c
}

/// `i` is the last position of `c` in `s`.
pub open spec fn last_at(s: Seq<char>, c: char, i: int) -> bool {
    &&& 0 <= i < s.len()
    &&& s[i] == c
    &&& forall|k: int| i < k < s.len() ==> s[k] != c
}

/// `str::find` for one character, by character position.
pub open spec fn find(s: Seq<char>, c: char) -> Option<int> {
    if exists|i: int| first_at(s, c, i) {
        Some(choose|i: int| first_at(s, c, i))
    } else {
        None
    }
}

/// `str::rfind` for one character, by character position.
pub open spec fn rfind(s: Seq<char>, c: char) -> Option<int> {
    if exists|i: int| last_at(s, c, i) {
        Some(choose|i: int| last_at(s, c, i))
    } else {
        None
    }
}

/// The text strictly between the first `open` and the first `close` after it.
pub open spec fn between(s: Seq<char>, open: char, close: char) -> Option<Seq<char>> {
    match find(s, open) {
        None => None,
        Some(i) => {
            let rest = s.skip(i + 1);
            match find(rest, close) {
                None => None,
                Some(j) => Some(rest.take(j)),
            }
        },
    }
}

/// The second piece of `s` split on `c` (`s.split(c).nth(1)`).
pub open spec fn second_piece(s: Seq<char>, c: char) -> Option<Seq<char>> {
    match find(s, c) {
        None => None,
        Some(i) => {
            let rest = s.skip(i + 1);
            match find(rest, c) {
                None => Some(rest),
                Some(j) => Some(rest.take(j)),
            }
        },
    }
}

/// `str::split` on one character: every piece, empty ones included.
pub open spec fn split(s: Seq<char>, c: char) -> Seq<Seq<char>>
    decreases s.len(),
{
    if s.len() == 0 {
        seq![Seq::<char>::empty()]
    } else {
        let r = split(s.drop_last(), c);
        if s.last() == c {
            r.push(Seq::<char>::empty())
        } else {
            r.update(r.len() - 1, r.last().push(s.last()))
        }
    }
}

pub proof fn lemma_split_nonempty(s: Seq<char>, c: char)
    ensures
        split(s, c).len() >= 1,
    decreases s.len(),
{
    if s.len() > 0 {
        lemma_split_nonempty(s.drop_last(), c);
    }
}

pub proof fn lemma_find_is(s: Seq<char>, c: char, i: int)
    requires
        first_at(s, c, i),
    ensures
        find(s, c) == Some(i),
{
    let j = choose|j: int| first_at(s, c, j);
    assert(first_at(s, c, j));
    if j < i {
        assert(s[j] != c);
    } else if i < j {
        assert(s[i] != c);
    }
}

pub proof fn lemma_rfind_is(s: Seq<char>, c: char, i: int)
    requires
        last_at(s, c, i),
    ensures
        rfind(s, c) == Some(i),
{
    let j = choose|j: int| last_at(s, c, j);
    assert(last_at(s, c, j));
    if j < i {
        assert(s[i] != c);
    } else if i < j {
        assert(s[j] != c);
    }
}

/// Characters `a..b` of `v`.
pub fn slice(v: &Vec<char>, a: usize, b: usize) -> (r: Vec<char>)
    requires
        a <= b <= v.len(),
    ensures
        r@ == v@.subrange(a as int, b as int),
{
    let mut r: Vec<char> = Vec::new();
    let mut i: usize = a;
    while i < b
        invariant
            a <= i <= b <= v.len(),
            r@ == v@.subrange(a as int, i as int),
        decreases b - i,
    {
        r.push(v[i]);
        i = i + 1;
        assert(r@ == v@.subrange(a as int, i as int));
    }
    r
}

/// First position of `c` in `v`.
pub fn find_char(v: &Vec<char>, c: char) -> (r: Option<usize>)
    ensures
        match r {
            Some(i) => i < v.len() && first_at(v@, c, i as int) && find(v@, c) == Some(i as int),
            None => find(v@, c) is None,
        },
{
    let mut i: usize = 0;
    while i < v.len()
        invariant
            i <= v.len(),
            forall|k: int| 0 <= k < i ==> v@[k] != c,
        decreases v.len() - i,
    {
        if v[i] == c {
            proof {
                lemma_find_is(v@, c, i as int);
            }
            return Some(i);
        }
        i = i + 1;
    }
    assert(!exists|j: int| first_at(v@, c, j));
    None
}

/// Last position of `c` in `v`.
pub fn rfind_char(v: &Vec<char>, c: char) -> (r: Option<usize>)
    ensures
        match r {
            Some(i) => i < v.len() && last_at(v@, c, i as int) && rfind(v@, c) == Some(i as int),
            None => rfind(v@, c) is None,
        },
{
    let mut i: usize = v.len();
    while i > 0
        invariant
            i <= v.len(),
            forall|k: int| i <= k < v.len() ==> v@[k] != c,
        decreases i,
    {
        if v[i - 1] == c {
            proof {
                lemma_rfind_is(v@, c, i - 1);
            }
            return Some(i - 1);
        }
        i = i - 1;
    }
    assert(!exists|j: int| last_at(v@, c, j));
    None
}

/// Whether `v` starts with `p`.
pub fn has_prefix(v: &Vec<char>, p: &Vec<char>) -> (r: bool)
    ensures
        r == starts_with(v@, p@),
{
    if p.len() > v.len() {
        return false;
    }
    let head = slice(v, 0, p.len());
    same(&head, p)
}

/// `str::trim`.
pub fn trimmed(v: &Vec<char>) -> (r: Vec<char>)
    ensures
        r@ == trim(v@),
{
    let mut a: usize = 0;
    assert(v@.skip(0) == v@);
    while a < v.len() && is_ws_char(v[a])
        invariant
            a <= v.len(),
            trim_start(v@) == trim_start(v@.skip(a as int)),
        decreases v.len() - a,
    {
        assert(v@.skip(a as int).drop_first() == v@.skip(a + 1));
        a = a + 1;
    }
    let ghost u = v@.skip(a as int);
    assert(trim_start(u) == u);
    let mut b: usize = v.len();
    assert(u.take(u.len() as int) == u);
    while b > a && is_ws_char(v[b - 1])
        invariant
            a <= b <= v.len(),
            u == v@.skip(a as int),
            trim_end(u) == trim_end(u.take(b - a)),
        decreases b,
    {
        assert(u.take(b - a).drop_last() == u.take(b - 1 - a));
        b = b - 1;
    }
    assert(trim_end(u.take(b - a)) == u.take(b - a));
    assert(u.take(b - a) == v@.subrange(a as int, b as int));
    slice(v, a, b)
}

/// `str::trim_end_matches(c)`.
pub fn stripped_end(v: &Vec<char>, c: char) -> (r: Vec<char>)
    ensures
        r@ == strip_end(v@, c),
{
    let mut b: usize = v.len();
    assert(v@.take(v.len() as int) == v@);
    while b > 0 && v[b - 1] == c
        invariant
            b <= v.len(),
            strip_end(v@, c) == strip_end(v@.take(b as int), c),
        decreases b,
    {
        assert(v@.take(b as int).drop_last() == v@.take(b - 1));
        b = b - 1;
    }
    slice(v, 0, b)
}

/// The text between the first `open` and the next `close`.
pub fn between_chars(v: &Vec<char>, open: char, close: char) -> (r: Option<Vec<char>>)
    ensures
        match r {
            Some(x) => between(v@, open, close) == Some(x@),
            None => between(v@, open, close) is None,
        },
{
    match find_char(v, open) {
        None => None,
        Some(i) => {
            let rest = slice(v, i + 1, v.len());
            assert(rest@ == v@.skip(i + 1));
            match find_char(&rest, close) {
                None => None,
                Some(j) => {
                    let x = slice(&rest, 0, j);
                    assert(x@ == rest@.take(j as int));
                    Some(x)
                },
            }
        },
    }
}

/// `s.split(c).nth(1)`.
pub fn second_piece_of(v: &Vec<char>, c: char) -> (r: Option<Vec<char>>)
    ensures
        match r {
            Some(x) => second_piece(v@, c) == Some(x@),
            None => second_piece(v@, c) is None,
        },
{
    match find_char(v, c) {
        None => None,
        Some(i) => {
            let rest = slice(v, i + 1, v.len());
            assert(rest@ == v@.skip(i + 1));
            match find_char(&rest, c) {
                None => Some(rest),
                Some(j) => {
                    let x = slice(&rest, 0, j);
                    assert(x@ == rest@.take(j as int));
                    Some(x)
                },
            }
        },
    }
}

/// The character sequences held by a vector of character vectors.
pub open spec fn views(v: Seq<Vec<char>>) -> Seq<Seq<char>> {
    v.map_values(|x: Vec<char>| x@)
}

/// Every piece of `v` split on `c`.
pub fn split_on(v: &Vec<char>, c: char) -> (r: Vec<Vec<char>>)
    ensures
        views(r@) == split(v@, c),
{
    let mut pieces: Vec<Vec<char>> = Vec::new();
    let mut cur: Vec<char> = Vec::new();
    let mut i: usize = 0;
    assert(v@.take(0) == Seq::<char>::empty());
    assert(views(pieces@).push(cur@) =~= seq![Seq::<char>::empty()]);
    while i < v.len()
        invariant
            i <= v.len(),
            split(v@.take(i as int), c) == views(pieces@).push(cur@),
        decreases v.len() - i,
    {
        let ghost before = v@.take(i as int);
        assert(v@.take(i + 1).drop_last() == before);
        assert(v@.take(i + 1).last() == v@[i as int]);
        if v[i] == c {
            let ghost old_pieces = pieces@;
            let done = cur;
            pieces.push(done);
            cur = Vec::new();
            assert(views(pieces@) =~= views(old_pieces).push(done@));
        } else {
            let ghost old_cur = cur@;
            cur.push(v[i]);
            assert(views(pieces@).push(old_cur).update(views(pieces@).len() as int, cur@)
                =~= views(pieces@).push(cur@));
        }
        i = i + 1;
    }
    assert(v@.take(v.len() as int) == v@);
    let ghost old_pieces = pieces@;
    let last = cur;
    pieces.push(last);
    assert(views(pieces@) =~= views(old_pieces).push(last@));
    pieces
}

} // verus!

verus! {

pub open spec fn is_digit(c: char) -> bool {
    '0' <= c <= '9'
}

/// The decimal value of a string of digits.
pub open spec fn digits_value(d: Seq<char>) -> int
    decreases d.len(),
{
    if d.len() == 0 {
        0
    } else {
        digits_value(d.drop_last()) * 10 + (d.last() as int - '0' as int)
    }
}

/// `s` without one leading `+`.
pub open spec fn unsigned_part(s: Seq<char>) -> Seq<char> {
    if s.len() > 0 && s[0] == '+' {
        s.drop_first()
    } else {
        s
    }
}

/// `u16::from_str`: an optional `+`, then one or more decimal digits whose
/// value fits.
pub open spec fn parse_u16(s: Seq<char>) -> Option<u16> {
    let d = unsigned_part(s);
    if d.len() > 0 && (forall|i: int| 0 <= i < d.len() ==> is_digit(d[i])) && digits_value(d)
        <= 65535 {
        Some(digits_value(d) as u16)
    } else {
        None
    }
}

pub proof fn lemma_digits_grow(d: Seq<char>, i: int)
    requires
        0 <= i <= d.len(),
        forall|k: int| 0 <= k < d.len() ==> is_digit(d[k]),
    ensures
        0 <= digits_value(d.take(i)) <= digits_value(d),
    decreases d.len(),
{
    if i == d.len() {
        assert(d.take(i) == d);
        if d.len() > 0 {
            lemma_digits_grow(d.drop_last(), i - 1);
        }
    } else {
        assert(d.drop_last().take(i) == d.take(i));
        lemma_digits_grow(d.drop_last(), i);
    }
}

/// `u16::from_str`.
pub fn parse_u16_of(v: &Vec<char>) -> (r: Option<u16>)
    ensures
        r == parse_u16(v@),
{
    let start: usize = if v.len() > 0 && v[0] == '+' { 1 } else { 0 };
    let d = slice(v, start, v.len());
    assert(d@ == unsigned_part(v@));
    if d.len() == 0 {
        return None;
    }
    let mut val: u32 = 0;
    let mut i: usize = 0;
    while i < d.len()
        invariant
            i <= d.len(),
            d@ == unsigned_part(v@),
            d@.len() > 0,
            forall|k: int| 0 <= k < i ==> is_digit(d@[k]),
            val == digits_value(d@.take(i as int)),
            val <= 65535,
        decreases d.len() - i,
    {
        let c = d[i];
        if !('0' <= c && c <= '9') {
            assert(!is_digit(d@[i as int]));
            return None;
        }
        assert(d@.take(i + 1).drop_last() == d@.take(i as int));
        val = val * 10 + (c as u32 - '0' as u32);
        i = i + 1;
        if val > 65535 {
            proof {
                if forall|k: int| 0 <= k < d@.len() ==> is_digit(d@[k]) {
                    lemma_digits_grow(d@, i as int);
                }
            }
            return None;
        }
    }
    assert(d@.take(d.len() as int) == d@);
    Some(val as u16)
}

} // verus!

verus! {

/// `a` followed by `b`.
pub fn concat(a: &Vec<char>, b: &Vec<char>) -> (r: Vec<char>)
    ensures
        r@ == a@ + b@,
{
    let mut r = slice(a, 0, a.len());
    assert(r@ == a@);
    let mut j: usize = 0;
    while j < b.len()
        invariant
            j <= b.len(),
            r@ == a@ + b@.take(j as int),
        decreases b.len() - j,
    {
        r.push(b[j]);
        j = j + 1;
        assert(r@ == a@ + b@.take(j as int));
    }
    assert(b@.take(b.len() as int) == b@);
    r
}

} // verus!

verus! {

pub open spec fn digit(n: nat) -> char {
    (0x30 + n % 10) as char
}

/// The decimal digits of `n`.
pub open spec fn decimal(n: nat) -> Seq<char>
    decreases n,
{
    if n < 10 {
        seq![digit(n)]
    } else {
        decimal(n / 10).push(digit(n % 10))
    }
}

/// `n.to_string()` for an unsigned number.
pub fn decimal_of(n: u64) -> (r: Vec<char>)
    ensures
        r@ == decimal(n as nat),
    decreases n,
{
    let d: char = ((n % 10) as u8 + 0x30) as char;
    if n < 10 {
        let r = vec![d];
        assert(r@ == seq![d]);
        r
    } else {
        let mut r = decimal_of(n / 10);
        r.push(d);
        r
    }
}

/// `n.to_string()` for a signed number.
pub open spec fn signed_decimal(n: int) -> Seq<char> {
    if n < 0 { seq!['-'] + decimal((-n) as nat) } else { decimal(n as nat) }
}

pub fn signed_decimal_of(n: i64) -> (r: Vec<char>)
    ensures
        r@ == signed_decimal(n as int),
{
    if n < 0 {
        let m: u64 = (-(n as i128)) as u64;
        let minus = vec!['-'];
        assert(minus@ == seq!['-']);
        concat(&minus, &decimal_of(m))
    } else {
        decimal_of(n as u64)
    }
}

} // verus!

verus! {

/// `p` occurs in `s` at `k`.
pub open spec fn occurs_at(s: Seq<char>, p: Seq<char>, k: int) -> bool {
    s.subrange(k, k + p.len()) == p
}

/// `i` is the first position where `p` occurs in `s`.
pub open spec fn first_sub_at(s: Seq<char>, p: Seq<char>, i: int) -> bool {
    &&& 0 <= i && i + p.len() <= s.len()
    &&& occurs_at(s, p, i)
    &&& forall|k: int| 0 <= k < i ==> !#[trigger] occurs_at(s, p, k)
}

/// `str::find` for a pattern, by character position.
pub open spec fn find_sub(s: Seq<char>, p: Seq<char>) -> Option<int> {
    if exists|i: int| first_sub_at(s, p, i) {
        Some(choose|i: int| first_sub_at(s, p, i))
    } else {
        None
    }
}

pub proof fn lemma_find_sub_is(s: Seq<char>, p: Seq<char>, i: int)
    requires
        first_sub_at(s, p, i),
    ensures
        find_sub(s, p) == Some(i),
{
    let j = choose|j: int| first_sub_at(s, p, j);
    assert(first_sub_at(s, p, j));
    if j < i {
        assert(!occurs_at(s, p, j));
    } else if i < j {
        assert(!occurs_at(s, p, i));
    }
}

pub fn find_sub_of(v: &Vec<char>, p: &Vec<char>) -> (r: Option<usize>)
    ensures
        match r {
            Some(i) => i + p@.len() <= v@.len() && find_sub(v@, p@) == Some(i as int),
            None => find_sub(v@, p@) is None,
        },
{
    if p.len() > v.len() {
        assert(!exists|i: int| first_sub_at(v@, p@, i));
        return None;
    }
    let last = v.len() - p.len();
    let mut i: usize = 0;
    while i < last
        invariant
            last == v.len() - p.len(),
            i <= last,
            forall|k: int| 0 <= k < i ==> !#[trigger] occurs_at(v@, p@, k),
        decreases last - i,
    {
        let piece = slice(v, i, i + p.len());
        if same(&piece, p) {
            proof {
                lemma_find_sub_is(v@, p@, i as int);
            }
            return Some(i);
        }
        i = i + 1;
    }
    let piece = slice(v, last, v.len());
    if same(&piece, p) {
        proof {
            lemma_find_sub_is(v@, p@, last as int);
        }
        return Some(last);
    }
    assert(!exists|k: int| first_sub_at(v@, p@, k));
    None
}

} // verus!

verus! {

/// Appends the characters of `b` to `out`.
pub fn append(out: &mut Vec<char>, b: &Vec<char>)
    ensures
        final(out)@ == old(out)@ + b@,
{
    let ghost a = out@;
    let mut j: usize = 0;
    while j < b.len()
        invariant
            j <= b.len(),
            out@ == a + b@.take(j as int),
        decreases b.len() - j,
    {
        out.push(b[j]);
        j = j + 1;
        assert(out@ == a + b@.take(j as int));
    }
    assert(b@.take(b.len() as int) == b@);
}

/// Appends the characters of `s` to `out`.
pub fn append_str(out: &mut Vec<char>, s: &str)
    ensures
        final(out)@ == old(out)@ + s@,
{
    let v = chars_of(s);
    append(out, &v);
}

/// Whether `p` occurs anywhere in `s`.
pub open spec fn contains_sub(s: Seq<char>, p: Seq<char>) -> bool {
    find_sub(s, p) is Some
}

} // verus!

verus! {

/// `u64::from_str`.
pub open spec fn parse_u64(s: Seq<char>) -> Option<u64> {
    let d = unsigned_part(s);
    if d.len() > 0 && (forall|i: int| 0 <= i < d.len() ==> is_digit(d[i])) && digits_value(d)
        <= u64::MAX {
        Some(digits_value(d) as u64)
    } else {
        None
    }
}

pub fn parse_u64_of(v: &Vec<char>) -> (r: Option<u64>)
    ensures
        r == parse_u64(v@),
{
    let start: usize = if v.len() > 0 && v[0] == '+' { 1 } else { 0 };
    let d = slice(v, start, v.len());
    assert(d@ == unsigned_part(v@));
    if d.len() == 0 {
        return None;
    }
    let mut val: u128 = 0;
    let mut i: usize = 0;
    while i < d.len()
        invariant
            i <= d.len(),
            d@ == unsigned_part(v@),
            d@.len() > 0,
            forall|k: int| 0 <= k < i ==> is_digit(d@[k]),
            val == digits_value(d@.take(i as int)),
            val <= u64::MAX,
        decreases d.len() - i,
    {
        let c = d[i];
        if !('0' <= c && c <= '9') {
            assert(!is_digit(d@[i as int]));
            return None;
        }
        assert(d@.take(i + 1).drop_last() == d@.take(i as int));
        val = val * 10 + (c as u32 - '0' as u32) as u128;
        i = i + 1;
        if val > u64::MAX as u128 {
            proof {
                if forall|k: int| 0 <= k < d@.len() ==> is_digit(d@[k]) {
                    lemma_digits_grow(d@, i as int);
                }
            }
            return None;
        }
    }
    assert(d@.take(d.len() as int) == d@);
    Some(val as u64)
}

} // verus!

verus! {

/// `str::split_whitespace`: the maximal runs of non-whitespace characters.
pub open spec fn tokens(s: Seq<char>) -> Seq<Seq<char>>
    decreases s.len(),
{
    if s.len() == 0 {
        Seq::empty()
    } else {
        let t = tokens(s.drop_last());
        let c = s.last();
        if is_ws(c) {
            t
        } else if s.len() >= 2 && !is_ws(s[s.len() - 2]) {
            t.update(t.len() - 1, t.last().push(c))
        } else {
            t.push(seq![c])
        }
    }
}

pub proof fn lemma_tokens_after_text(s: Seq<char>)
    requires
        s.len() > 0,
        !is_ws(s.last()),
    ensures
        tokens(s).len() > 0,
    decreases s.len(),
{
    if s.len() >= 2 && !is_ws(s[s.len() - 2]) {
        assert(s.drop_last().last() == s[s.len() - 2]);
        lemma_tokens_after_text(s.drop_last());
    }
}

pub fn tokens_of(v: &Vec<char>) -> (r: Vec<Vec<char>>)
    ensures
        views(r@) == tokens(v@),
{
    let mut toks: Vec<Vec<char>> = Vec::new();
    let mut i: usize = 0;
    assert(v@.take(0) == Seq::<char>::empty());
    while i < v.len()
        invariant
            i <= v.len(),
            views(toks@) == tokens(v@.take(i as int)),
        decreases v.len() - i,
    {
        let ghost pre = v@.take(i as int);
        let ghost next = v@.take(i + 1);
        assert(next.drop_last() == pre);
        assert(next.last() == v@[i as int]);
        let c = v[i];
        if !is_ws_char(c) {
            if i >= 1 && !is_ws_char(v[i - 1]) {
                assert(next[next.len() - 2] == v@[i - 1]);
                proof {
                    assert(pre.last() == v@[i - 1]);
                    lemma_tokens_after_text(pre);
                }
                let ghost before = toks@;
                let mut last = toks.pop().unwrap();
                last.push(c);
                toks.push(last);
                assert(views(toks@) =~= views(before).update(views(before).len() - 1, views(before).last().push(c)));
            } else {
                let ghost before = toks@;
                let t = vec![c];
                assert(t@ == seq![c]);
                toks.push(t);
                assert(views(toks@) =~= views(before).push(seq![c]));
            }
        }
        i = i + 1;
    }
    assert(v@.take(v.len() as int) == v@);
    toks
}

} // verus!

verus! {

/// `i` is the last position where `p` occurs in `s`.
pub open spec fn last_sub_at(s: Seq<char>, p: Seq<char>, i: int) -> bool {
    &&& 0 <= i && i + p.len() <= s.len()
    &&& occurs_at(s, p, i)
    &&& forall|k: int| i < k && k + p.len() <= s.len() ==> !#[trigger] occurs_at(s, p, k)
}

/// `str::rfind` for a pattern, by character position.
pub open spec fn rfind_sub(s: Seq<char>, p: Seq<char>) -> Option<int> {
    if exists|i: int| last_sub_at(s, p, i) {
        Some(choose|i: int| last_sub_at(s, p, i))
    } else {
        None
    }
}

pub proof fn lemma_rfind_sub_is(s: Seq<char>, p: Seq<char>, i: int)
    requires
        last_sub_at(s, p, i),
    ensures
        rfind_sub(s, p) == Some(i),
{
    let j = choose|j: int| last_sub_at(s, p, j);
    assert(last_sub_at(s, p, j));
    if j < i {
        assert(!occurs_at(s, p, i));
    } else if i < j {
        assert(!occurs_at(s, p, j));
    }
}

pub fn rfind_sub_of(v: &Vec<char>, p: &Vec<char>) -> (r: Option<usize>)
    ensures
        match r {
            Some(i) => i + p@.len() <= v@.len() && rfind_sub(v@, p@) == Some(i as int),
            None => rfind_sub(v@, p@) is None,
        },
{
    if p.len() > v.len() {
        assert(!exists|i: int| last_sub_at(v@, p@, i));
        return None;
    }
    let mut i: usize = v.len() - p.len();
    loop
        invariant
            i + p.len() <= v.len(),
            forall|k: int| i < k && k + p@.len() <= v@.len() ==> !#[trigger] occurs_at(v@, p@, k),
        decreases i,
    {
        let piece = slice(v, i, i + p.len());
        if same(&piece, p) {
            proof {
                lemma_rfind_sub_is(v@, p@, i as int);
            }
            return Some(i);
        }
        if i == 0 {
            assert(!exists|k: int| last_sub_at(v@, p@, k));
            return None;
        }
        i = i - 1;
    }
}

/// ASCII lower case of one character.
pub open spec fn lower(c: char) -> char {
    if 'A' <= c <= 'Z' { ((c as u32) + 32) as char } else { c }
}

pub fn lower_char(c: char) -> (r: char)
    ensures
        r == lower(c),
{
    if 'A' <= c && c <= 'Z' {
        ((c as u8) + 32) as char
    } else {
        c
    }
}

pub fn lowered(v: &Vec<char>) -> (r: Vec<char>)
    ensures
        r@ == v@.map_values(|c: char| lower(c)),
{
    let mut r: Vec<char> = Vec::new();
    let mut i: usize = 0;
    while i < v.len()
        invariant
            i <= v.len(),
            r@ == v@.take(i as int).map_values(|c: char| lower(c)),
        decreases v.len() - i,
    {
        r.push(lower_char(v[i]));
        i = i + 1;
        assert(r@ =~= v@.take(i as int).map_values(|c: char| lower(c)));
    }
    assert(v@.take(v.len() as int) == v@);
    r
}

/// A line without one trailing carriage return.
pub open spec fn strip_cr(l: Seq<char>) -> Seq<char> {
    if l.len() > 0 && l.last() == '\r' { l.drop_last() } else { l }
}

/// `str::lines`: pieces between newlines, a final empty piece dropped, and
/// one trailing carriage return taken off each.
pub open spec fn lines_of(s: Seq<char>) -> Seq<Seq<char>> {
    let p = split(s, '\n');
    let q = if p.last().len() == 0 { p.drop_last() } else { p };
    q.map_values(|l: Seq<char>| strip_cr(l))
}

pub fn lines(v: &Vec<char>) -> (r: Vec<Vec<char>>)
    ensures
        views(r@) == lines_of(v@),
{
    let pieces = split_on(v, '\n');
    proof {
        lemma_split_nonempty(v@, '\n');
    }
    let n = pieces.len();
    let keep = if pieces[n - 1].len() == 0 { n - 1 } else { n };
    let ghost q = if split(v@, '\n').last().len() == 0 { split(v@, '\n').drop_last() } else { split(v@, '\n') };
    assert(q == views(pieces@).take(keep as int));
    let mut r: Vec<Vec<char>> = Vec::new();
    let mut i: usize = 0;
    while i < keep
        invariant
            i <= keep <= pieces.len(),
            q == views(pieces@).take(keep as int),
            views(r@) == q.take(i as int).map_values(|l: Seq<char>| strip_cr(l)),
        decreases keep - i,
    {
        let p = &pieces[i];
        let line = if p.len() > 0 && p[p.len() - 1] == '\r' { slice(p, 0, p.len() - 1) } else { slice(p, 0, p.len()) };
        assert(q[i as int] == p@);
        assert(line@ == strip_cr(p@));
        let ghost before = r@;
        r.push(line);
        assert(views(r@) =~= views(before).push(line@));
        i = i + 1;
        assert(q.take(i as int).map_values(|l: Seq<char>| strip_cr(l))
            =~= q.take(i - 1).map_values(|l: Seq<char>| strip_cr(l)).push(line@));
    }
    assert(q.take(keep as int) == q);
    r
}

/// Lines joined with `sep` between them.
pub open spec fn join_with(items: Seq<Seq<char>>, sep: Seq<char>) -> Seq<char>
    decreases items.len(),
{
    if items.len() == 0 {
        Seq::empty()
    } else if items.len() == 1 {
        items[0]
    } else {
        join_with(items.drop_last(), sep) + sep + items.last()
    }
}

pub fn join_lines(items: &Vec<Vec<char>>, from: usize, sep: &Vec<char>) -> (r: Vec<char>)
    requires
        from <= items.len(),
    ensures
        r@ == join_with(views(items@).skip(from as int), sep@),
{
    let ghost all = views(items@).skip(from as int);
    let mut r: Vec<char> = Vec::new();
    let mut i: usize = from;
    while i < items.len()
        invariant
            from <= i <= items.len(),
            all == views(items@).skip(from as int),
            r@ == join_with(all.take(i - from), sep@),
        decreases items.len() - i,
    {
        assert(all.take(i + 1 - from).drop_last() == all.take(i - from));
        assert(all.take(i + 1 - from).last() == items@[i as int]@);
        if i > from {
            append(&mut r, sep);
        } else {
            assert(all.take(1) =~= seq![items@[i as int]@]);
        }
        append(&mut r, &items[i]);
        i = i + 1;
    }
    assert(all.take(items.len() - from) == all);
    r
}

} // verus!
