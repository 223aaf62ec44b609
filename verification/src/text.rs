//! Text building blocks: decimal rendering of integers, joining lists of
//! strings, and the ordering of strings used to keep lists sorted.

use vstd::prelude::*;
use vstd::string::StrSliceExecFns;
use vstd::string::StringExecFns;

verus! {

/// The ASCII digit for `d` (`0 <= d < 10`).
pub open spec fn digit_char(d: nat) -> char {
    if d == 0 {
        '0'
    } else if d == 1 {
        '1'
    } else if d == 2 {
        '2'
    } else if d == 3 {
        '3'
    } else if d == 4 {
        '4'
    } else if d == 5 {
        '5'
    } else if d == 6 {
        '6'
    } else if d == 7 {
        '7'
    } else if d == 8 {
        '8'
    } else {
        '9'
    }
}

/// The decimal representation of `n`, without leading zeros.
pub open spec fn decimal(n: nat) -> Seq<char>
    decreases n,
{
    if n < 10 {
        seq![digit_char(n)]
    } else {
        decimal(n / 10).push(digit_char(n % 10))
    }
}

/// The decimal representation of a signed integer: a minus sign
/// before the digits of its magnitude when it is negative.
pub open spec fn signed_decimal(i: int) -> Seq<char> {
    if i < 0 {
        seq!['-'] + decimal((-i) as nat)
    } else {
        decimal(i as nat)
    }
}

/// `"true"` or `"false"`.
pub open spec fn bool_text(b: bool) -> Seq<char> {
    if b {
        seq!['t', 'r', 'u', 'e']
    } else {
        seq!['f', 'a', 'l', 's', 'e']
    }
}

/// The parts joined with `sep` between consecutive parts.
pub open spec fn join(parts: Seq<Seq<char>>, sep: Seq<char>) -> Seq<char>
    decreases parts.len(),
{
    if parts.len() == 0 {
        Seq::empty()
    } else if parts.len() == 1 {
        parts[0]
    } else {
        join(parts.drop_last(), sep) + sep + parts.last()
    }
}

/// `s` between double quotes.
pub open spec fn quoted(s: Seq<char>) -> Seq<char> {
    seq!['"'] + s + seq!['"']
}

/// The character sequences that a list of strings holds.
pub open spec fn texts(v: Seq<String>) -> Seq<Seq<char>> {
    v.map_values(|s: String| s@)
}

/// Each string put between double quotes.
pub open spec fn quoted_all(v: Seq<Seq<char>>) -> Seq<Seq<char>> {
    v.map_values(|s: Seq<char>| quoted(s))
}

/// Lexicographic order on character sequences, characters compared by
/// their code points. On strings this is the order of their UTF-8 bytes,
/// which is the order in which `String` sorts.
pub open spec fn text_lt(a: Seq<char>, b: Seq<char>) -> bool
    decreases a.len(),
{
    if a.len() == 0 {
        b.len() > 0
    } else if b.len() == 0 {
        false
    } else if a[0] != b[0] {
        (a[0] as int) < (b[0] as int)
    } else {
        text_lt(a.drop_first(), b.drop_first())
    }
}

/// Each element strictly below the next one.
pub open spec fn strictly_sorted(v: Seq<Seq<char>>) -> bool {
    forall|i: int, j: int| 0 <= i < j < v.len() ==> #[trigger] text_lt(v[i], v[j])
}

/// No string is below itself.
pub proof fn lemma_text_lt_irreflexive(a: Seq<char>)
    ensures
        !text_lt(a, a),
    decreases a.len(),
{
    if a.len() > 0 {
        lemma_text_lt_irreflexive(a.drop_first());
    }
}

/// The order is transitive.
pub proof fn lemma_text_lt_transitive(a: Seq<char>, b: Seq<char>, c: Seq<char>)
    requires
        text_lt(a, b),
        text_lt(b, c),
    ensures
        text_lt(a, c),
    decreases a.len(),
{
    if a.len() > 0 && b.len() > 0 && c.len() > 0 {
        if a[0] == b[0] && b[0] == c[0] {
            lemma_text_lt_transitive(a.drop_first(), b.drop_first(), c.drop_first());
        }
    }
}

/// Any two different strings are ordered one way or the other.
pub proof fn lemma_text_lt_total(a: Seq<char>, b: Seq<char>)
    ensures
        a == b || text_lt(a, b) || text_lt(b, a),
    decreases a.len(),
{
    if a.len() > 0 && b.len() > 0 {
        if a[0] == b[0] {
            lemma_text_lt_total(a.drop_first(), b.drop_first());
            if a.drop_first() == b.drop_first() {
                assert(a =~= seq![a[0]] + a.drop_first());
                assert(b =~= seq![b[0]] + b.drop_first());
            }
        }
    } else if a.len() == 0 && b.len() == 0 {
        assert(a =~= b);
    }
}

/// Two strictly sorted lists with the same elements are the same list:
/// the order characterises a sorted list without duplicates.
pub proof fn lemma_strictly_sorted_unique(a: Seq<Seq<char>>, b: Seq<Seq<char>>)
    requires
        strictly_sorted(a),
        strictly_sorted(b),
        a.to_set() == b.to_set(),
    ensures
        a == b,
    decreases a.len(),
{
    if a.len() == 0 {
        if b.len() > 0 {
            assert(b.to_set().contains(b[0]));
        }
        assert(a =~= b);
    } else if b.len() == 0 {
        assert(a.to_set().contains(a[0]));
    } else {
        let x = a.last();
        let y = b.last();
        assert(a.to_set().contains(x));
        assert(b.to_set().contains(y));
        assert(b.to_set().contains(x));
        assert(a.to_set().contains(y));
        let i = choose|i: int| 0 <= i < b.len() && b[i] == x;
        let j = choose|j: int| 0 <= j < a.len() && a[j] == y;
        if x != y {
            lemma_text_lt_total(x, y);
            if text_lt(x, y) {
                // y sits in a before its last element x
                assert(j < a.len() - 1) by {
                    if j == a.len() - 1 {
                    }
                }
                assert(text_lt(a[j], a[a.len() - 1]));
                lemma_text_lt_irreflexive(x);
                lemma_text_lt_transitive(x, y, x);
            } else {
                assert(i < b.len() - 1) by {
                    if i == b.len() - 1 {
                    }
                }
                assert(text_lt(b[i], b[b.len() - 1]));
                lemma_text_lt_irreflexive(y);
                lemma_text_lt_transitive(y, x, y);
            }
        }
        let a1 = a.drop_last();
        let b1 = b.drop_last();
        assert forall|z: Seq<char>| a1.to_set().contains(z) implies b1.to_set().contains(z) by {
            let k = choose|k: int| 0 <= k < a1.len() && a1[k] == z;
            assert(a.to_set().contains(a[k]));
            assert(b.to_set().contains(z));
            let m = choose|m: int| 0 <= m < b.len() && b[m] == z;
            if m == b.len() - 1 {
                assert(text_lt(a[k], a[a.len() - 1]));
                lemma_text_lt_irreflexive(z);
            }
            assert(b1[m] == z);
        }
        assert forall|z: Seq<char>| b1.to_set().contains(z) implies a1.to_set().contains(z) by {
            let k = choose|k: int| 0 <= k < b1.len() && b1[k] == z;
            assert(b.to_set().contains(b[k]));
            assert(a.to_set().contains(z));
            let m = choose|m: int| 0 <= m < a.len() && a[m] == z;
            if m == a.len() - 1 {
                assert(text_lt(b[k], b[b.len() - 1]));
                lemma_text_lt_irreflexive(z);
            }
            assert(a1[m] == z);
        }
        assert(a1.to_set() =~= b1.to_set());
        lemma_strictly_sorted_unique(a1, b1);
        assert(a =~= a1.push(x));
        assert(b =~= b1.push(y));
    }
}

/// `String::push`: appends one character.
#[verifier::external_body]
pub(crate) fn push_char(s: &mut String, c: char)
    ensures
        final(s)@ == old(s)@.push(c),
{
    s.push(c);
}

/// What `str::to_uppercase` returns for `s`: the text with each character
/// replaced by its Unicode upper-case mapping.
pub uninterp spec fn uppercase(s: Seq<char>) -> Seq<char>;

/// `str::to_uppercase`.
#[verifier::external_body]
pub(crate) fn to_uppercase(s: &str) -> (r: String)
    ensures
        r@ == uppercase(s@),
{
    s.to_uppercase()
}

/// What `str::trim` returns for `s`: the text without its leading and
/// trailing Unicode white space.
pub uninterp spec fn trimmed(s: Seq<char>) -> Seq<char>;

/// `str::trim`, as an owned string.
#[verifier::external_body]
pub(crate) fn trim(s: &str) -> (r: String)
    ensures
        r@ == trimmed(s@),
{
    s.trim().to_string()
}

/// Appends `t` to `s`.
pub fn push_str(s: &mut String, t: &str)
    ensures
        final(s)@ == old(s)@ + t@,
{
    s.append(t);
}

/// The digit character for `d`.
pub fn digit(d: u64) -> (c: char)
    requires
        d < 10,
    ensures
        c == digit_char(d as nat),
{
    if d == 0 {
        '0'
    } else if d == 1 {
        '1'
    } else if d == 2 {
        '2'
    } else if d == 3 {
        '3'
    } else if d == 4 {
        '4'
    } else if d == 5 {
        '5'
    } else if d == 6 {
        '6'
    } else if d == 7 {
        '7'
    } else if d == 8 {
        '8'
    } else {
        '9'
    }
}

proof fn lemma_reverse_push(s: Seq<char>, c: char)
    ensures
        s.push(c).reverse() == seq![c] + s.reverse(),
{
    assert(s.push(c).reverse() =~= seq![c] + s.reverse());
}

proof fn lemma_decimal_small(n: nat)
    requires
        n < 10,
    ensures
        decimal(n) == seq![digit_char(n)],
{
}

proof fn lemma_decimal_step(n: nat)
    requires
        n >= 10,
    ensures
        decimal(n) == decimal(n / 10) + seq![digit_char(n % 10)],
{
    assert(decimal(n / 10).push(digit_char(n % 10)) =~= decimal(n / 10) + seq![digit_char(n % 10)]);
}

/// Appends the decimal representation of `n` to `out`.
pub fn push_decimal(out: &mut String, n: u64)
    ensures
        final(out)@ == old(out)@ + decimal(n as nat),
{
    let mut m = n;
    let mut rev: Vec<char> = Vec::new();
    loop
        invariant_except_break
            decimal(n as nat) == decimal(m as nat) + rev@.reverse(),
        ensures
            decimal(n as nat) == rev@.reverse(),
        decreases m,
    {
        let d = digit(m % 10);
        let ghost old_rev = rev@;
        rev.push(d);
        proof {
            lemma_reverse_push(old_rev, d);
        }
        if m < 10 {
            proof {
                lemma_decimal_small(m as nat);
                assert(decimal(n as nat) =~= rev@.reverse());
            }
            break;
        }
        proof {
            lemma_decimal_step(m as nat);
            assert(decimal(n as nat) =~= decimal((m / 10) as nat) + rev@.reverse());
        }
        m = m / 10;
    }
    let ghost start = out@;
    let len = rev.len();
    let mut j = len;
    while j > 0
        invariant
            j <= len == rev@.len(),
            out@ == start + rev@.reverse().subrange(0, (len - j) as int),
        decreases j,
    {
        j = j - 1;
        push_char(out, rev[j]);
        assert(rev@.reverse().subrange(0, (len - j) as int) =~= rev@.reverse().subrange(
            0,
            (len - j - 1) as int,
        ).push(rev@[j as int]));
    }
    assert(rev@.reverse().subrange(0, len as int) =~= rev@.reverse());
}

/// The decimal representation of `n` as a new string.
pub fn decimal_string(n: u64) -> (s: String)
    ensures
        s@ == decimal(n as nat),
{
    let mut s = String::new();
    push_decimal(&mut s, n);
    assert(s@ =~= decimal(n as nat));
    s
}

/// Appends the decimal representation of the signed `n` to `out`.
pub fn push_signed_decimal(out: &mut String, n: i64)
    ensures
        final(out)@ == old(out)@ + signed_decimal(n as int),
{
    if n < 0 {
        push_char(out, '-');
        let magnitude: u64 = ((-(n + 1)) as u64) + 1;
        push_decimal(out, magnitude);
        assert(final(out)@ =~= old(out)@ + signed_decimal(n as int));
    } else {
        push_decimal(out, n as u64);
    }
}

/// Appends `"true"` or `"false"`.
pub fn push_bool(out: &mut String, b: bool)
    ensures
        final(out)@ == old(out)@ + bool_text(b),
{
    if b {
        push_char(out, 't');
        push_char(out, 'r');
        push_char(out, 'u');
        push_char(out, 'e');
    } else {
        push_char(out, 'f');
        push_char(out, 'a');
        push_char(out, 'l');
        push_char(out, 's');
        push_char(out, 'e');
    }
    assert(final(out)@ =~= old(out)@ + bool_text(b));
}

proof fn lemma_join_push(parts: Seq<Seq<char>>, sep: Seq<char>, p: Seq<char>)
    ensures
        join(parts.push(p), sep) == if parts.len() == 0 {
            p
        } else {
            join(parts, sep) + sep + p
        },
{
    assert(parts.push(p).drop_last() =~= parts);
}

/// Appends the items joined by `sep`; with `quote` set each item is put
/// between double quotes.
pub fn push_joined(out: &mut String, items: &[String], sep: &str, quote: bool)
    ensures
        final(out)@ == old(out)@ + join(
            if quote {
                quoted_all(texts(items@))
            } else {
                texts(items@)
            },
            sep@,
        ),
{
    let ghost start = out@;
    let ghost all = if quote {
        quoted_all(texts(items@))
    } else {
        texts(items@)
    };
    let mut i: usize = 0;
    while i < items.len()
        invariant
            i <= items@.len(),
            all.len() == items@.len(),
            all == (if quote {
                quoted_all(texts(items@))
            } else {
                texts(items@)
            }),
            out@ == start + join(all.take(i as int), sep@),
        decreases items.len() - i,
    {
        let ghost before = out@;
        if i > 0 {
            push_str(out, sep);
        }
        if quote {
            push_char(out, '"');
        }
        push_str(out, items[i].as_str());
        if quote {
            push_char(out, '"');
        }
        proof {
            assert(all.take(i + 1) =~= all.take(i as int).push(all[i as int]));
            lemma_join_push(all.take(i as int), sep@, all[i as int]);
            if quote {
                assert(all[i as int] == quoted(items@[i as int]@));
            } else {
                assert(all[i as int] == items@[i as int]@);
            }
            assert(out@ =~= start + join(all.take(i + 1), sep@));
        }
        i = i + 1;
    }
    assert(all.take(items@.len() as int) =~= all);
}

/// Whether `a` comes strictly before `b` in the order of strings.
pub fn str_less(a: &str, b: &str) -> (r: bool)
    ensures
        r == text_lt(a@, b@),
{
    let la = a.unicode_len();
    let lb = b.unicode_len();
    let mut i: usize = 0;
    assert(a@.skip(0) =~= a@);
    assert(b@.skip(0) =~= b@);
    while i < la && i < lb
        invariant
            la == a@.len(),
            lb == b@.len(),
            i <= la,
            i <= lb,
            text_lt(a@, b@) == text_lt(a@.skip(i as int), b@.skip(i as int)),
        decreases la - i,
    {
        let ca = a.get_char(i);
        let cb = b.get_char(i);
        proof {
            let sa = a@.skip(i as int);
            let sb = b@.skip(i as int);
            assert(sa[0] == ca);
            assert(sb[0] == cb);
            assert(sa.drop_first() =~= a@.skip(i + 1));
            assert(sb.drop_first() =~= b@.skip(i + 1));
        }
        if ca != cb {
            return (ca as u32) < (cb as u32);
        }
        i = i + 1;
    }
    proof {
        assert(a@.skip(i as int).len() == la - i);
        assert(b@.skip(i as int).len() == lb - i);
    }
    i < lb
}

/// Whether the two strings hold the same characters.
pub fn str_equal(a: &str, b: &str) -> (r: bool)
    ensures
        r == (a@ == b@),
{
    let la = a.unicode_len();
    let lb = b.unicode_len();
    if la != lb {
        return false;
    }
    let mut i: usize = 0;
    while i < la
        invariant
            la == a@.len() == b@.len(),
            i <= la,
            a@.take(i as int) == b@.take(i as int),
        decreases la - i,
    {
        if a.get_char(i) != b.get_char(i) {
            return false;
        }
        assert(a@.take(i + 1) =~= a@.take(i as int).push(a@[i as int]));
        assert(b@.take(i + 1) =~= b@.take(i as int).push(b@[i as int]));
        i = i + 1;
    }
    assert(a@.take(la as int) =~= a@);
    assert(b@.take(la as int) =~= b@);
    true
}

/// Whether `a` begins with `prefix`.
pub fn str_starts_with(a: &str, prefix: &str) -> (r: bool)
    ensures
        r == (prefix@.len() <= a@.len() && a@.take(prefix@.len() as int) == prefix@),
{
    let la = a.unicode_len();
    let lp = prefix.unicode_len();
    if lp > la {
        return false;
    }
    let mut i: usize = 0;
    while i < lp
        invariant
            la == a@.len(),
            lp == prefix@.len(),
            lp <= la,
            i <= lp,
            a@.take(i as int) == prefix@.take(i as int),
        decreases lp - i,
    {
        if a.get_char(i) != prefix.get_char(i) {
            assert(a@.take(lp as int)[i as int] != prefix@[i as int]);
            return false;
        }
        assert(a@.take(i + 1) =~= a@.take(i as int).push(a@[i as int]));
        assert(prefix@.take(i + 1) =~= prefix@.take(i as int).push(prefix@[i as int]));
        i = i + 1;
    }
    assert(prefix@.take(lp as int) =~= prefix@);
    true
}

/// The position of the first `c` in `s`, if `c` occurs.
pub open spec fn first_index_of(s: Seq<char>, c: char) -> Option<int> {
    if exists|i: int| first_occurrence(s, c, i) {
        Some(choose|i: int| first_occurrence(s, c, i))
    } else {
        None
    }
}

/// `i` is the position of the first `c` in `s`.
pub open spec fn first_occurrence(s: Seq<char>, c: char, i: int) -> bool {
    &&& 0 <= i < s.len()
    &&& s[i] == c
    &&& forall|j: int| 0 <= j < i ==> #[trigger] s[j] != c
}

/// Only one position is the first occurrence of a character.
pub proof fn lemma_first_occurrence(s: Seq<char>, c: char, i: int)
    requires
        first_occurrence(s, c, i),
    ensures
        first_index_of(s, c) == Some(i),
{
    let k = choose|k: int| first_occurrence(s, c, k);
    if k < i {
        assert(s[k] != c);
    } else if i < k {
        assert(s[i] != c);
    }
}

/// A text in which `c` does not occur.
pub proof fn lemma_no_occurrence(s: Seq<char>, c: char)
    requires
        forall|j: int| 0 <= j < s.len() ==> #[trigger] s[j] != c,
    ensures
        first_index_of(s, c) is None,
{
}

/// `str::find` for one character: the position of its first occurrence,
/// counted in characters.
pub fn find_char(s: &str, c: char) -> (r: Option<usize>)
    ensures
        match r {
            Some(i) => first_index_of(s@, c) == Some(i as int),
            None => first_index_of(s@, c) is None,
        },
{
    let n = s.unicode_len();
    let mut i: usize = 0;
    while i < n
        invariant
            n == s@.len(),
            i <= n,
            forall|j: int| 0 <= j < i ==> #[trigger] s@[j] != c,
        decreases n - i,
    {
        if s.get_char(i) == c {
            proof {
                lemma_first_occurrence(s@, c, i as int);
            }
            return Some(i);
        }
        i = i + 1;
    }
    None
}

/// The pieces of `s` between the characters `c`, as `str::split` gives
/// them: one piece more than there are `c` in `s`, empty pieces included.
pub open spec fn split_on(s: Seq<char>, c: char) -> Seq<Seq<char>>
    decreases s.len(),
{
    if s.len() == 0 {
        seq![Seq::<char>::empty()]
    } else {
        let r = split_on(s.drop_last(), c);
        if s.last() == c {
            r.push(Seq::<char>::empty())
        } else {
            r.update(r.len() - 1, r.last().push(s.last()))
        }
    }
}

proof fn lemma_split_on_not_empty(s: Seq<char>, c: char)
    ensures
        split_on(s, c).len() >= 1,
    decreases s.len(),
{
    if s.len() > 0 {
        lemma_split_on_not_empty(s.drop_last(), c);
    }
}

/// `s.split(c)`, each piece as an owned string.
pub fn split_at_char(s: &str, c: char) -> (r: Vec<String>)
    ensures
        texts(r@) == split_on(s@, c),
{
    let n = s.unicode_len();
    let mut out: Vec<String> = Vec::new();
    let mut current = String::new();
    let mut i: usize = 0;
    assert(s@.take(0) =~= Seq::<char>::empty());
    assert(texts(out@).push(current@) =~= split_on(s@.take(0), c));
    while i < n
        invariant
            n == s@.len(),
            i <= n,
            texts(out@).push(current@) == split_on(s@.take(i as int), c),
        decreases n - i,
    {
        let ch = s.get_char(i);
        let ghost t = s@.take(i + 1);
        assert(t.drop_last() =~= s@.take(i as int));
        assert(t.last() == ch);
        let ghost before = texts(out@);
        let ghost cur = current@;
        proof {
            lemma_split_on_not_empty(s@.take(i as int), c);
        }
        if ch == c {
            let piece = current;
            out.push(piece);
            current = String::new();
            assert(texts(out@) =~= before.push(cur));
            assert(texts(out@).push(current@) =~= before.push(cur).push(Seq::<char>::empty()));
        } else {
            push_char(&mut current, ch);
            assert(texts(out@).push(current@) =~= before.push(cur).update(
                before.len() as int,
                cur.push(ch),
            ));
        }
        i = i + 1;
    }
    assert(s@.take(n as int) =~= s@);
    let ghost before = texts(out@);
    out.push(current);
    assert(texts(out@) =~= before.push(current@));
    out
}

/// The strings of `v` in increasing order, each one once: the list that
/// `sort` followed by `dedup` leaves.
pub fn sorted_unique(v: Vec<String>) -> (r: Vec<String>)
    ensures
        strictly_sorted(texts(r@)),
        texts(r@).to_set() == texts(v@).to_set(),
{
    let mut r: Vec<String> = Vec::new();
    let mut i: usize = 0;
    while i < v.len()
        invariant
            i <= v@.len(),
            strictly_sorted(texts(r@)),
            texts(r@).to_set() == texts(v@.take(i as int)).to_set(),
        decreases v.len() - i,
    {
        let ghost rs = texts(r@);
        let ghost x = v@[i as int]@;
        // find the first position whose string is not below v[i]
        let mut k: usize = 0;
        while k < r.len() && str_less(r[k].as_str(), v[i].as_str())
            invariant
                k <= r@.len(),
                rs == texts(r@),
                x == v@[i as int]@,
                i < v@.len(),
                forall|m: int| 0 <= m < k ==> text_lt(#[trigger] rs[m], x),
            decreases r.len() - k,
        {
            k = k + 1;
        }
        proof {
            assert(texts(v@.take(i + 1)) =~= texts(v@.take(i as int)).push(x));
            texts(v@.take(i as int)).lemma_push_to_set_commute(x);
        }
        if k < r.len() && str_equal(r[k].as_str(), v[i].as_str()) {
            proof {
                assert(rs.to_set().contains(rs[k as int]));
                assert(texts(r@).to_set() =~= texts(v@.take(i + 1)).to_set());
            }
        } else {
            proof {
                if k < rs.len() {
                    lemma_text_lt_total(rs[k as int], x);
                    assert(text_lt(x, rs[k as int]));
                }
            }
            let item = v[i].clone();
            r.insert(k, item);
            proof {
                let ns = texts(r@);
                assert(ns =~= rs.insert(k as int, x));
                assert forall|p: int, q: int| 0 <= p < q < ns.len() implies #[trigger] text_lt(
                    ns[p],
                    ns[q],
                ) by {
                    if q < k {
                    } else if q == k {
                        assert(ns[p] == rs[p]);
                    } else if p < k {
                        assert(ns[q] == rs[q - 1]);
                        assert(text_lt(rs[p], x));
                        if k < rs.len() {
                            assert(text_lt(x, rs[k as int]));
                            if q - 1 > k {
                                assert(text_lt(rs[k as int], rs[q - 1]));
                                lemma_text_lt_transitive(x, rs[k as int], rs[q - 1]);
                            }
                            lemma_text_lt_transitive(rs[p], x, rs[q - 1]);
                        }
                    } else if p == k {
                        assert(ns[q] == rs[q - 1]);
                        assert(text_lt(x, rs[k as int]));
                        if q - 1 > k {
                            assert(text_lt(rs[k as int], rs[q - 1]));
                            lemma_text_lt_transitive(x, rs[k as int], rs[q - 1]);
                        }
                    } else {
                        assert(ns[p] == rs[p - 1]);
                        assert(ns[q] == rs[q - 1]);
                    }
                }
                assert forall|z: Seq<char>| #[trigger] ns.to_set().contains(z) <==> rs.to_set().insert(
                    x,
                ).contains(z) by {
                    if ns.to_set().contains(z) {
                        let m = choose|m: int| 0 <= m < ns.len() && ns[m] == z;
                        if m < k {
                            assert(rs[m] == z);
                        } else if m > k {
                            assert(rs[m - 1] == z);
                        }
                    }
                    if rs.to_set().contains(z) {
                        let m = choose|m: int| 0 <= m < rs.len() && rs[m] == z;
                        if m < k {
                            assert(ns[m] == z);
                        } else {
                            assert(ns[m + 1] == z);
                        }
                    }
                    if z == x {
                        assert(ns[k as int] == x);
                    }
                }
                assert(ns.to_set() =~= texts(v@.take(i + 1)).to_set());
            }
        }
        i = i + 1;
    }
    assert(v@.take(v@.len() as int) =~= v@);
    r
}

} // verus!
