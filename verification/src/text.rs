//! Text as sequences of characters: searching, comparing and printing numbers.
use vstd::prelude::*;

verus! {

/// The characters of an optional text.
pub open spec fn text_of(o: Option<String>) -> Option<Seq<char>> {
    match o {
        Some(s) => Some(s@),
        None => None,
    }
}

/// The characters of each text of a list.
pub open spec fn texts_of(v: Seq<String>) -> Seq<Seq<char>> {
    v.map_values(|s: String| s@)
}

/// `pat` stands in `s` at position `i`.
pub open spec fn occurs_at(s: Seq<char>, pat: Seq<char>, i: int) -> bool {
    &&& 0 <= i
    &&& i + pat.len() <= s.len()
    &&& s.subrange(i, i + pat.len()) == pat
}

/// `pat` stands somewhere in `s`.
pub open spec fn has_text(s: Seq<char>, pat: Seq<char>) -> bool {
    exists|i: int| occurs_at(s, pat, i)
}

/// `i` is the first position at which `pat` stands in `s`.
pub open spec fn first_occurrence(s: Seq<char>, pat: Seq<char>, i: int) -> bool {
    &&& occurs_at(s, pat, i)
    &&& forall|j: int| j < i ==> !occurs_at(s, pat, j)
}

/// The first position of `pat` in `s`, where it has one.
pub open spec fn position_of(s: Seq<char>, pat: Seq<char>) -> Option<int> {
    if exists|i: int| first_occurrence(s, pat, i) {
        Some(choose|i: int| first_occurrence(s, pat, i))
    } else {
        None
    }
}

/// A first occurrence is the position found.
pub proof fn lemma_position_found(s: Seq<char>, pat: Seq<char>, i: int)
    requires
        first_occurrence(s, pat, i),
    ensures
        position_of(s, pat) == Some(i),
{
    let k = choose|k: int| first_occurrence(s, pat, k);
    assert(first_occurrence(s, pat, k));
    assert(!(k < i) && !(i < k));
}

/// A text that occurs nowhere has no position.
pub proof fn lemma_position_absent(s: Seq<char>, pat: Seq<char>)
    requires
        !has_text(s, pat),
    ensures
        position_of(s, pat) is None,
{
    assert forall|i: int| !first_occurrence(s, pat, i) by {
        assert(!occurs_at(s, pat, i));
    }
}

/// The ASCII letters in lower case, every other character as it is.
pub open spec fn ascii_lower(c: char) -> char {
    if 'A' <= c <= 'Z' {
        (c as u32 + 32) as char
    } else {
        c
    }
}

/// A text with its ASCII letters in lower case.
pub open spec fn lowered(s: Seq<char>) -> Seq<char> {
    s.map_values(|c: char| ascii_lower(c))
}

/// The character that prints a digit below ten.
pub open spec fn digit_char(d: nat) -> char {
    (48 + d) as char
}

/// A number in decimal notation, without leading zeros.
pub open spec fn decimal(n: nat) -> Seq<char>
    decreases n,
{
    if n < 10 {
        seq![digit_char(n)]
    } else {
        decimal(n / 10).push(digit_char(n % 10))
    }
}

/// The characters of `s`, one by one.
pub fn chars_of(s: &str) -> (r: Vec<char>)
    ensures
        r@ == s@,
{
    let mut r: Vec<char> = Vec::new();
    for c in it: s.chars()
        invariant
            r@ == it.seq().take(it.index()),
            it.seq() == s@,
    {
        r.push(c);
    }
    r
}

/// Whether two texts hold the same characters.
pub fn same_text(a: &str, b: &str) -> (r: bool)
    ensures
        r == (a@ == b@),
{
    let x: String = a.to_owned();
    let y: String = b.to_owned();
    x == y
}

/// Whether `pat` stands in `s` at position `i`.
fn stands_at(s: &Vec<char>, pat: &Vec<char>, i: usize) -> (r: bool)
    requires
        i + pat@.len() <= s@.len(),
    ensures
        r == occurs_at(s@, pat@, i as int),
{
    let len: usize = s.len();
    let mut k: usize = 0;
    while k < pat.len()
        invariant
            len == s@.len(),
            i + pat@.len() <= s@.len(),
            k <= pat@.len(),
            forall|j: int| 0 <= j < k ==> s@[i + j] == pat@[j],
        decreases pat@.len() - k,
    {
        if s[i + k] != pat[k] {
            assert(s@.subrange(i as int, i + pat@.len())[k as int] != pat@[k as int]);
            return false;
        }
        k = k + 1;
    }
    assert(s@.subrange(i as int, i + pat@.len()) =~= pat@);
    true
}

/// The first position of `pat` in `s`.
pub fn find_text(s: &Vec<char>, pat: &Vec<char>) -> (r: Option<usize>)
    ensures
        match r {
            Some(i) => position_of(s@, pat@) == Some(i as int) && occurs_at(s@, pat@, i as int),
            None => position_of(s@, pat@) is None && !has_text(s@, pat@),
        },
{
    let mut i: usize = 0;
    if pat.len() <= s.len() {
        let last: usize = s.len() - pat.len();
        let mut done: bool = false;
        while !done
            invariant
                last == s@.len() - pat@.len(),
                i <= last,
                forall|j: int| 0 <= j < i ==> !occurs_at(s@, pat@, j),
                done ==> !occurs_at(s@, pat@, i as int) && i == last,
            decreases last - i, (if done { 0int } else { 1int }),
        {
            if stands_at(s, pat, i) {
                proof {
                    lemma_position_found(s@, pat@, i as int);
                }
                return Some(i);
            }
            if i == last {
                done = true;
            } else {
                i = i + 1;
            }
        }
    }
    proof {
        assert forall|j: int| !occurs_at(s@, pat@, j) by {}
        lemma_position_absent(s@, pat@);
    }
    None
}

/// One character with an ASCII letter in lower case.
fn lower_char(c: char) -> (r: char)
    ensures
        r == ascii_lower(c),
{
    if 'A' <= c && c <= 'Z' {
        (c as u8 + 32u8) as char
    } else {
        c
    }
}

/// The characters of `s` with ASCII letters in lower case.
pub fn lowered_chars(s: &str) -> (r: Vec<char>)
    ensures
        r@ == lowered(s@),
{
    let cs: Vec<char> = chars_of(s);
    let mut r: Vec<char> = Vec::new();
    let mut i: usize = 0;
    while i < cs.len()
        invariant
            i <= cs@.len(),
            cs@ == s@,
            r@ == lowered(s@.take(i as int)),
        decreases cs@.len() - i,
    {
        r.push(lower_char(cs[i]));
        i = i + 1;
        assert(r@ =~= lowered(s@.take(i as int)));
    }
    assert(s@.take(i as int) =~= s@);
    r
}

/// The text that prints a digit below ten.
fn digit_text(d: u64) -> (r: &'static str)
    requires
        d < 10,
    ensures
        r@ == seq![digit_char(d as nat)],
{
    proof {
        reveal_strlit("0");
        reveal_strlit("1");
        reveal_strlit("2");
        reveal_strlit("3");
        reveal_strlit("4");
        reveal_strlit("5");
        reveal_strlit("6");
        reveal_strlit("7");
        reveal_strlit("8");
        reveal_strlit("9");
    }
    if d == 0 {
        "0"
    } else if d == 1 {
        "1"
    } else if d == 2 {
        "2"
    } else if d == 3 {
        "3"
    } else if d == 4 {
        "4"
    } else if d == 5 {
        "5"
    } else if d == 6 {
        "6"
    } else if d == 7 {
        "7"
    } else if d == 8 {
        "8"
    } else {
        "9"
    }
}

/// Writes a number in decimal notation behind `out`.
pub fn push_decimal(out: &mut String, n: u64)
    ensures
        final(out)@ == old(out)@ + decimal(n as nat),
    decreases n,
{
    if n >= 10 {
        push_decimal(out, n / 10);
    }
    out.append(digit_text(n % 10));
}

/// A number in decimal notation.
pub fn decimal_text(n: u64) -> (r: String)
    ensures
        r@ == decimal(n as nat),
{
    let mut out: String = String::new();
    push_decimal(&mut out, n);
    out
}

/// An optional text is there just if its characters are, and they are its own.
pub proof fn optional_text_keeps_its_characters(s: String)
    ensures
        text_of(Some(s)) == Some(s@),
        text_of(None) is None,
{
}

/// The texts of a list are all there, in their order.
pub proof fn texts_keep_their_order(v: Seq<String>)
    ensures
        texts_of(v).len() == v.len(),
        forall|i: int| 0 <= i < v.len() ==> #[trigger] texts_of(v)[i] == v[i]@,
{
}

/// The number that a text of digits reads as.
pub open spec fn number_read(s: Seq<char>) -> int
    decreases s.len(),
{
    if s.len() == 0 {
        0
    } else {
        10 * number_read(s.drop_last()) + (s.last() as int - '0' as int)
    }
}

/// A number in decimal notation reads back as itself. It is made of digits only, and has no zero
/// in front but for the number zero.
pub proof fn decimal_reads_back(n: nat)
    ensures
        number_read(decimal(n)) == n,
        decimal(n).len() > 0,
        forall|i: int| 0 <= i < decimal(n).len() ==> '0' <= #[trigger] decimal(n)[i] <= '9',
        decimal(n)[0] == '0' ==> n == 0 && decimal(n).len() == 1,
    decreases n,
{
    let d = decimal(n);
    if n < 10 {
        assert(d.drop_last() =~= seq![]);
        assert(number_read(d.drop_last()) == 0);
    } else {
        decimal_reads_back(n / 10);
        assert(d.drop_last() =~= decimal(n / 10));
        assert(d[0] == decimal(n / 10)[0]);
    }
}

/// A text is found wherever it was put, at that place or earlier.
pub proof fn put_text_is_found(before: Seq<char>, pat: Seq<char>, after: Seq<char>)
    ensures
        has_text(before + pat + after, pat),
        occurs_at(before + pat + after, pat, before.len() as int),
{
    let all = before + pat + after;
    let n = before.len() as int;
    assert(all.subrange(n, n + pat.len()) =~= pat);
    assert(occurs_at(all, pat, n));
}

/// Where a text is found, its characters stand one by one, and at no earlier place do they.
pub proof fn found_text_stands_there(s: Seq<char>, pat: Seq<char>, i: int)
    requires
        position_of(s, pat) == Some(i),
    ensures
        0 <= i,
        i + pat.len() <= s.len(),
        forall|k: int| 0 <= k < pat.len() ==> s[i + k] == #[trigger] pat[k],
        forall|j: int|
            #![trigger s.subrange(j, j + pat.len())]
            0 <= j < i ==> s.subrange(j, j + pat.len()) != pat,
{
    assert(first_occurrence(s, pat, i));
    assert forall|k: int| 0 <= k < pat.len() implies s[i + k] == #[trigger] pat[k] by {
        assert(s.subrange(i, i + pat.len())[k] == s[i + k]);
    }
    assert forall|j: int| #![trigger s.subrange(j, j + pat.len())] 0 <= j < i implies s.subrange(
        j,
        j + pat.len(),
    ) != pat by {
        assert(!occurs_at(s, pat, j));
    }
}

} // verus!
