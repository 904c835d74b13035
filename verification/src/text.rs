use vstd::prelude::*;
use vstd::string::StrSliceExecFns;

verus! {

/// Character-level equality of two string slices.
pub fn str_eq(a: &str, b: &str) -> (r: bool)
    ensures
        r == (a@ == b@),
{
    let left = String::from_str(a);
    let right = String::from_str(b);
    left == right
}

/// Builds an owned copy of a string slice.
pub fn owned(s: &str) -> (r: String)
    ensures
        r@ == s@,
{
    String::from_str(s)
}

/// Concatenation of an owned prefix and a slice.
pub fn joined(prefix: &str, rest: &str) -> (r: String)
    ensures
        r@ == prefix@ + rest@,
{
    String::from_str(prefix).concat(rest)
}

} // verus!

verus! {

/// The character view of an optional owned string.
pub open spec fn opt_text(o: Option<String>) -> Option<Seq<char>> {
    match o {
        Some(s) => Some(s@),
        None => None,
    }
}

/// The character views of a list of owned strings.
pub open spec fn texts(v: Seq<String>) -> Seq<Seq<char>> {
    v.map_values(|s: String| s@)
}

} // verus!

verus! {

/// The ASCII digit for `d`.
pub open spec fn digit_char(d: nat) -> char {
    if d == 0 { '0' }
    else if d == 1 { '1' }
    else if d == 2 { '2' }
    else if d == 3 { '3' }
    else if d == 4 { '4' }
    else if d == 5 { '5' }
    else if d == 6 { '6' }
    else if d == 7 { '7' }
    else if d == 8 { '8' }
    else { '9' }
}

/// Decimal notation of a natural number, without leading zeros.
pub open spec fn decimal_text(n: nat) -> Seq<char>
    decreases n,
{
    if n < 10 {
        seq![digit_char(n)]
    } else {
        decimal_text(n / 10).push(digit_char(n % 10))
    }
}

fn digit_str(d: u64) -> (r: &'static str)
    requires
        d < 10,
    ensures
        r@ == seq![digit_char(d as nat)],
{
    if d == 0 {
        proof { reveal_strlit("0"); }
        "0"
    } else if d == 1 {
        proof { reveal_strlit("1"); }
        "1"
    } else if d == 2 {
        proof { reveal_strlit("2"); }
        "2"
    } else if d == 3 {
        proof { reveal_strlit("3"); }
        "3"
    } else if d == 4 {
        proof { reveal_strlit("4"); }
        "4"
    } else if d == 5 {
        proof { reveal_strlit("5"); }
        "5"
    } else if d == 6 {
        proof { reveal_strlit("6"); }
        "6"
    } else if d == 7 {
        proof { reveal_strlit("7"); }
        "7"
    } else if d == 8 {
        proof { reveal_strlit("8"); }
        "8"
    } else {
        proof { reveal_strlit("9"); }
        "9"
    }
}

/// Appends the decimal notation of `n` to `out`.
pub fn push_decimal(out: &mut String, n: u64)
    ensures
        final(out)@ == old(out)@ + decimal_text(n as nat),
    decreases n,
{
    if n >= 10 {
        push_decimal(out, n / 10);
    }
    out.append(digit_str(n % 10));
    proof {
        if n >= 10 {
            assert(decimal_text(n as nat) == decimal_text((n / 10) as nat).push(digit_char((n % 10) as nat)));
        }
    }
    assert(out@ =~= old(out)@ + decimal_text(n as nat));
}

/// `prefix` followed by the decimal notation of `n`.
pub fn with_decimal(prefix: &str, n: u64) -> (r: String)
    ensures
        r@ == prefix@ + decimal_text(n as nat),
{
    let mut out = String::from_str(prefix);
    push_decimal(&mut out, n);
    out
}

} // verus!

verus! {

/// Decimal notation of a 32-bit unsigned number.
pub open spec fn decimal_text_u32(n: u32) -> Seq<char> {
    decimal_text(n as nat)
}

/// `prefix` followed by the decimal notation of `n`.
pub fn with_decimal_u32(prefix: &str, n: u32) -> (r: String)
    ensures
        r@ == prefix@ + decimal_text_u32(n),
{
    with_decimal(prefix, n as u64)
}

} // verus!

verus! {

/// The parts written one after another with `sep` between neighbours.
pub open spec fn joined_text(parts: Seq<Seq<char>>, sep: Seq<char>) -> Seq<char>
    decreases parts.len(),
{
    if parts.len() == 0 {
        Seq::empty()
    } else if parts.len() == 1 {
        parts[0]
    } else {
        joined_text(parts.drop_last(), sep) + sep + parts.last()
    }
}

/// Joins owned strings with a separator.
pub fn join_texts(parts: &Vec<String>, sep: &str) -> (r: String)
    ensures
        r@ == joined_text(texts(parts@), sep@),
{
    let mut out = String::new();
    let mut i: usize = 0;
    while i < parts.len()
        invariant
            i <= parts@.len(),
            out@ == joined_text(texts(parts@.take(i as int)), sep@),
        decreases parts@.len() - i,
    {
        assert(texts(parts@.take(i + 1)).drop_last() =~= texts(parts@.take(i as int)));
        if i > 0 {
            out.append(sep);
        }
        out.append(parts[i].as_str());
        proof {
            let t = texts(parts@.take(i + 1));
            assert(t.last() == parts@[i as int]@);
            if i == 0 {
                assert(t.len() == 1);
                assert(out@ =~= t[0]);
            } else {
                assert(out@ =~= joined_text(t.drop_last(), sep@) + sep@ + t.last());
            }
        }
        i += 1;
    }
    assert(parts@.take(parts@.len() as int) =~= parts@);
    out
}

/// At most the first `max` characters of `s`.
pub open spec fn char_prefix(s: Seq<char>, max: nat) -> Seq<char> {
    if s.len() <= max {
        s
    } else {
        s.take(max as int)
    }
}

/// An owned copy of at most the first `max` characters of `s`.
pub fn prefix_chars(s: &str, max: usize) -> (r: String)
    ensures
        r@ == char_prefix(s@, max as nat),
{
    let n = s.unicode_len();
    let end = if n <= max { n } else { max };
    let part = s.substring_char(0, end);
    assert(s@.subrange(0, s@.len() as int) =~= s@);
    String::from_str(part)
}

} // verus!

verus! {

/// The ASCII lower-case form of a character; other characters stay.
pub open spec fn ascii_lower_char(c: char) -> char {
    if 'A' <= c <= 'Z' {
        ((c as u32) + 32) as char
    } else {
        c
    }
}

/// The ASCII lower-case form of a text.
pub open spec fn ascii_lower(s: Seq<char>) -> Seq<char> {
    s.map_values(|c: char| ascii_lower_char(c))
}

/// Whether `part` occurs in `s` as a run of consecutive characters.
pub open spec fn has_infix(s: Seq<char>, part: Seq<char>) -> bool {
    exists|i: int| 0 <= i <= s.len() - part.len() && #[trigger] s.subrange(i, i + part.len()) == part
}

fn lower_char_is(c: char, lower: char) -> (r: bool)
    ensures
        r == (ascii_lower_char(c) == lower),
{
    if 'A' <= c && c <= 'Z' {
        (c as u32) + 32 == (lower as u32)
    } else {
        c == lower
    }
}

/// Whether the ASCII lower-case form of `text` contains `part`, which has no
/// upper-case ASCII letter.
pub fn contains_ignoring_ascii_case(text: &str, part: &str) -> (r: bool)
    requires
        ascii_lower(part@) == part@,
    ensures
        r == has_infix(ascii_lower(text@), part@),
{
    let n = text.unicode_len();
    let m = part.unicode_len();
    let ghost low = ascii_lower(text@);
    if m > n {
        assert forall|i: int| 0 <= i <= low.len() - part@.len() implies #[trigger] low.subrange(
            i,
            i + part@.len(),
        ) != part@ by {}
        return false;
    }
    let mut start: usize = 0;
    while start <= n - m
        invariant
            n == text@.len(),
            m == part@.len(),
            m <= n,
            low == ascii_lower(text@),
            start <= n - m + 1,
            forall|i: int| 0 <= i < start ==> #[trigger] low.subrange(i, i + m) != part@,
        decreases n - m + 1 - start,
    {
        let mut j: usize = 0;
        let mut same = true;
        while j < m
            invariant
                n == text@.len(),
                m == part@.len(),
                start + m <= n,
                low == ascii_lower(text@),
                j <= m,
                same == forall|k: int| 0 <= k < j ==> low[start + k] == part@[k],
            decreases m - j,
        {
            let c = text.get_char(start + j);
            let p = part.get_char(j);
            if !lower_char_is(c, p) {
                same = false;
            }
            j += 1;
        }
        if same {
            assert(low.subrange(start as int, start + m) =~= part@);
            return true;
        }
        assert(low.subrange(start as int, start + m) != part@) by {
            let k = choose|k: int| 0 <= k < m && low[start + k] != part@[k];
            assert(low.subrange(start as int, start + m)[k] == low[start + k]);
        }
        start += 1;
    }
    false
}

/// Whether two texts are equal once ASCII letters are lower-cased.
pub fn eq_ignoring_ascii_case(a: &str, b: &str) -> (r: bool)
    ensures
        r == (ascii_lower(a@) == ascii_lower(b@)),
{
    let n = a.unicode_len();
    if n != b.unicode_len() {
        assert(ascii_lower(a@).len() != ascii_lower(b@).len());
        return false;
    }
    let mut i: usize = 0;
    while i < n
        invariant
            n == a@.len(),
            n == b@.len(),
            i <= n,
            forall|k: int| 0 <= k < i ==> ascii_lower_char(a@[k]) == ascii_lower_char(b@[k]),
        decreases n - i,
    {
        let x = a.get_char(i);
        let y = b.get_char(i);
        let lx = if 'A' <= x && x <= 'Z' { (x as u32) + 32 } else { x as u32 };
        let ly = if 'A' <= y && y <= 'Z' { (y as u32) + 32 } else { y as u32 };
        if lx != ly {
            assert(ascii_lower(a@)[i as int] != ascii_lower(b@)[i as int]);
            return false;
        }
        i += 1;
    }
    assert(ascii_lower(a@) =~= ascii_lower(b@));
    true
}

} // verus!

verus! {

/// Lexicographic order of texts by character, the order of Rust strings.
pub open spec fn text_less(a: Seq<char>, b: Seq<char>) -> bool
    decreases a.len(),
{
    if a.len() == 0 {
        b.len() > 0
    } else if b.len() == 0 {
        false
    } else if a[0] != b[0] {
        a[0] < b[0]
    } else {
        text_less(a.drop_first(), b.drop_first())
    }
}

/// The order is strict and total.
pub proof fn text_less_total(a: Seq<char>, b: Seq<char>)
    ensures
        !text_less(a, a),
        a != b ==> text_less(a, b) || text_less(b, a),
        !(text_less(a, b) && text_less(b, a)),
    decreases a.len(),
{
    if a.len() > 0 && b.len() > 0 {
        text_less_total(a.drop_first(), b.drop_first());
        if a[0] == b[0] && a != b {
            assert(a.drop_first() != b.drop_first()) by {
                if a.drop_first() == b.drop_first() {
                    assert(a =~= seq![a[0]] + a.drop_first());
                    assert(b =~= seq![b[0]] + b.drop_first());
                }
            }
        }
    }
    if a.len() > 0 {
        text_less_total(a.drop_first(), a.drop_first());
    }
    if a.len() == 0 && b.len() == 0 {
        assert(a =~= b);
    }
}

/// The order is transitive.
pub proof fn text_less_transitive(a: Seq<char>, b: Seq<char>, c: Seq<char>)
    requires
        text_less(a, b),
        text_less(b, c),
    ensures
        text_less(a, c),
    decreases a.len(),
{
    if a.len() > 0 && b.len() > 0 && c.len() > 0 {
        if a[0] == b[0] && b[0] == c[0] {
            text_less_transitive(a.drop_first(), b.drop_first(), c.drop_first());
        }
    }
}

proof fn text_less_after_common_prefix(a: Seq<char>, b: Seq<char>, i: int)
    requires
        0 <= i <= a.len(),
        i <= b.len(),
        a.take(i) == b.take(i),
    ensures
        text_less(a, b) == text_less(a.skip(i), b.skip(i)),
    decreases i,
{
    if i > 0 {
        assert(a[0] == a.take(i)[0]);
        assert(b[0] == b.take(i)[0]);
        assert(a.drop_first().take(i - 1) =~= a.take(i).drop_first());
        assert(b.drop_first().take(i - 1) =~= b.take(i).drop_first());
        text_less_after_common_prefix(a.drop_first(), b.drop_first(), i - 1);
        assert(a.drop_first().skip(i - 1) =~= a.skip(i));
        assert(b.drop_first().skip(i - 1) =~= b.skip(i));
    } else {
        assert(a.skip(0) =~= a);
        assert(b.skip(0) =~= b);
    }
}

/// Whether `a` sorts before `b`.
pub fn text_before(a: &str, b: &str) -> (r: bool)
    ensures
        r == text_less(a@, b@),
{
    let n = a.unicode_len();
    let m = b.unicode_len();
    let mut i: usize = 0;
    while i < n && i < m
        invariant
            n == a@.len(),
            m == b@.len(),
            i <= n,
            i <= m,
            a@.take(i as int) == b@.take(i as int),
        decreases n - i,
    {
        let x = a.get_char(i);
        let y = b.get_char(i);
        if x != y {
            proof {
                text_less_after_common_prefix(a@, b@, i as int);
                assert(a@.skip(i as int)[0] == x);
                assert(b@.skip(i as int)[0] == y);
            }
            return x < y;
        }
        assert(a@.take(i + 1) =~= a@.take(i as int).push(x));
        assert(b@.take(i + 1) =~= b@.take(i as int).push(y));
        i += 1;
    }
    proof {
        text_less_after_common_prefix(a@, b@, i as int);
    }
    i == n && i < m
}

/// Strictly increasing in text order.
pub open spec fn strictly_sorted(v: Seq<Seq<char>>) -> bool {
    forall|i: int, j: int| 0 <= i < j < v.len() ==> text_less(v[i], v[j])
}

/// The texts in order, each once.
pub fn sorted_unique(items: Vec<String>) -> (r: Vec<String>)
    ensures
        strictly_sorted(texts(r@)),
        forall|t: Seq<char>| texts(r@).contains(t) <==> texts(items@).contains(t),
{
    let mut out: Vec<String> = Vec::new();
    let mut k: usize = 0;
    while k < items.len()
        invariant
            k <= items@.len(),
            strictly_sorted(texts(out@)),
            forall|t: Seq<char>|
                texts(out@).contains(t) <==> texts(items@.take(k as int)).contains(t),
        decreases items@.len() - k,
    {
        let x = &items[k];
        let ghost before = out@;
        // The first position whose text does not sort before `x`.
        let mut p: usize = 0;
        while p < out.len() && text_before(out[p].as_str(), x.as_str())
            invariant
                out@ == before,
                p <= out@.len(),
                forall|i: int| 0 <= i < p ==> text_less(#[trigger] out@[i]@, x@),
            decreases out@.len() - p,
        {
            p += 1;
        }
        let present = p < out.len() && str_eq(out[p].as_str(), x.as_str());
        let ghost tb = texts(before);
        assert(forall|i: int| 0 <= i < p ==> text_less(#[trigger] tb[i], x@));
        if !present {
            proof {
                if p < out@.len() {
                    text_less_total(tb[p as int], x@);
                    assert(text_less(x@, tb[p as int]));
                }
            }
            out.insert(p, x.clone());
            proof {
                let to = texts(out@);
                assert(out@ =~= before.insert(p as int, *x));
                assert(to.len() == tb.len() + 1);
                assert(forall|i: int| 0 <= i < p ==> #[trigger] to[i] == tb[i]);
                assert(to[p as int] == x@);
                assert(forall|i: int| p < i < to.len() ==> #[trigger] to[i] == tb[i - 1]);
                assert forall|i: int, j: int|
                    0 <= i < j < to.len() implies text_less(to[i], to[j]) by {
                    if j < p {
                        assert(to[i] == tb[i] && to[j] == tb[j]);
                    } else if j == p {
                        assert(to[i] == tb[i]);
                    } else if i == p {
                        assert(to[j] == tb[j - 1]);
                        if j - 1 > p {
                            text_less_transitive(x@, tb[p as int], tb[j - 1]);
                        }
                    } else if i < p {
                        assert(to[i] == tb[i] && to[j] == tb[j - 1]);
                        assert(text_less(tb[i], x@));
                        text_less_transitive(tb[i], x@, tb[p as int]);
                        if j - 1 > p {
                            text_less_transitive(tb[i], tb[p as int], tb[j - 1]);
                        }
                    } else {
                        assert(to[i] == tb[i - 1] && to[j] == tb[j - 1]);
                    }
                }
                assert forall|t: Seq<char>| to.contains(t) <==> tb.contains(t) || t == x@ by {
                    if to.contains(t) {
                        let i = choose|i: int| 0 <= i < to.len() && to[i] == t;
                        if i < p {
                            assert(tb[i] == t);
                        } else if i > p {
                            assert(tb[i - 1] == t);
                        }
                    }
                    if tb.contains(t) {
                        let i = choose|i: int| 0 <= i < tb.len() && tb[i] == t;
                        if i < p {
                            assert(to[i] == t);
                        } else {
                            assert(to[i + 1] == t);
                        }
                    }
                    if t == x@ {
                        assert(to[p as int] == t);
                    }
                }
            }
        } else {
            assert(texts(out@)[p as int] == x@);
            assert forall|t: Seq<char>| texts(out@).contains(t) <==> tb.contains(t) || t == x@ by {
                if t == x@ {
                    assert(texts(out@)[p as int] == t);
                }
            }
        }
        assert(forall|t: Seq<char>| texts(out@).contains(t) <==> tb.contains(t) || t == x@);
        assert(forall|t: Seq<char>| tb.contains(t) <==> texts(items@.take(k as int)).contains(t));
        proof {
            assert(items@.take(k + 1) =~= items@.take(k as int).push(items@[k as int]));
            assert(texts(items@.take(k + 1)) =~= texts(items@.take(k as int)).push(x@));
            assert forall|t: Seq<char>|
                texts(items@.take(k + 1)).contains(t) <==> texts(items@.take(k as int)).contains(t)
                    || t == x@ by {
                let a = texts(items@.take(k as int));
                if texts(items@.take(k + 1)).contains(t) {
                    let i = choose|i: int| 0 <= i < a.len() + 1 && a.push(x@)[i] == t;
                    if i < a.len() {
                        assert(a[i] == t);
                    }
                }
                if a.contains(t) {
                    let i = choose|i: int| 0 <= i < a.len() && a[i] == t;
                    assert(a.push(x@)[i] == t);
                }
                if t == x@ {
                    assert(a.push(x@)[a.len() as int] == t);
                }
            }
        }
        assert forall|t: Seq<char>|
            texts(out@).contains(t) <==> texts(items@.take(k + 1)).contains(t) by {
            assert(texts(out@).contains(t) <==> tb.contains(t) || t == x@);
            assert(tb.contains(t) <==> texts(items@.take(k as int)).contains(t));
        }
        k += 1;
    }
    assert(items@.take(items@.len() as int) =~= items@);
    out
}

} // verus!
