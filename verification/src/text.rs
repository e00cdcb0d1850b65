//! Text helpers: the order in which device ids are kept, and the decimal
//! rendering of an enumeration index.
//!
//! Ids are ordered as Rust orders strings: lexicographically by their UTF-8
//! bytes. The order is stated over byte sequences and lifted to strings
//! through `encode_utf8`, which is injective, so two strings that are
//! neither before nor after each other are the same string.

use vstd::prelude::*;
use vstd::utf8::*;

verus! {

/// Where one string stands relative to another.
#[derive(Clone, Copy, Debug, PartialEq, Eq, Structural)]
pub enum Rank {
    Before,
    Same,
    After,
}

/// Whether `a` comes strictly before `b` when both are read from index `i`
/// on: at the first index where they differ `a` holds the smaller byte, or
/// `a` ends first.
pub open spec fn before_from(a: Seq<u8>, b: Seq<u8>, i: int) -> bool
    decreases a.len() - i,
{
    if i < 0 || i >= b.len() {
        false
    } else if i >= a.len() {
        true
    } else if a[i] != b[i] {
        a[i] < b[i]
    } else {
        before_from(a, b, i + 1)
    }
}

/// Strict lexicographic order on byte sequences.
pub open spec fn before(a: Seq<u8>, b: Seq<u8>) -> bool {
    before_from(a, b, 0)
}

/// Strict order on strings: the order of their UTF-8 encodings.
pub open spec fn precedes(a: Seq<char>, b: Seq<char>) -> bool {
    before(encode_utf8(a), encode_utf8(b))
}

/// The rank of `a` relative to `b`.
pub open spec fn rank_of(a: Seq<u8>, b: Seq<u8>) -> Rank {
    if before(a, b) {
        Rank::Before
    } else if before(b, a) {
        Rank::After
    } else {
        Rank::Same
    }
}

/// Nothing comes before itself.
pub proof fn lemma_before_irreflexive(a: Seq<u8>, i: int)
    ensures
        !before_from(a, a, i),
    decreases a.len() - i,
{
    if 0 <= i < a.len() {
        lemma_before_irreflexive(a, i + 1);
    }
}

/// The order is transitive.
pub proof fn lemma_before_transitive(a: Seq<u8>, b: Seq<u8>, c: Seq<u8>, i: int)
    requires
        before_from(a, b, i),
        before_from(b, c, i),
    ensures
        before_from(a, c, i),
    decreases a.len() - i,
{
    if i < a.len() && a[i] == b[i] && b[i] == c[i] {
        lemma_before_transitive(a, b, c, i + 1);
    }
}

/// Two sequences that agree below `i` and are not ordered from `i` on are
/// equal.
pub proof fn lemma_before_total(a: Seq<u8>, b: Seq<u8>, i: int)
    requires
        0 <= i <= a.len(),
        i <= b.len(),
        forall|j: int| 0 <= j < i ==> a[j] == b[j],
        !before_from(a, b, i),
        !before_from(b, a, i),
    ensures
        a == b,
    decreases a.len() - i,
{
    if i < a.len() && i < b.len() {
        lemma_before_total(a, b, i + 1);
    } else {
        assert(a =~= b);
    }
}

/// A common prefix does not matter to the order.
pub proof fn lemma_before_skips_common_prefix(a: Seq<u8>, b: Seq<u8>, i: int)
    requires
        0 <= i <= a.len(),
        i <= b.len(),
        forall|j: int| 0 <= j < i ==> a[j] == b[j],
    ensures
        before(a, b) == before_from(a, b, i),
    decreases i,
{
    if i > 0 {
        lemma_before_skips_common_prefix(a, b, i - 1);
    }
}

/// Strings are ordered strictly: of `precedes(a, b)`, `a == b` and
/// `precedes(b, a)` exactly one holds.
pub proof fn lemma_precedes_trichotomy(a: Seq<char>, b: Seq<char>)
    ensures
        precedes(a, b) ==> a != b && !precedes(b, a),
        !precedes(a, b) && !precedes(b, a) ==> a == b,
{
    let x = encode_utf8(a);
    let y = encode_utf8(b);
    lemma_before_irreflexive(x, 0);
    if before(x, y) && before(y, x) {
        lemma_before_transitive(x, y, x, 0);
    }
    if !before(x, y) && !before(y, x) {
        lemma_before_total(x, y, 0);
        encode_utf8_decode_utf8(a);
        encode_utf8_decode_utf8(b);
    }
}

/// `precedes` is transitive.
pub proof fn lemma_precedes_transitive(a: Seq<char>, b: Seq<char>, c: Seq<char>)
    requires
        precedes(a, b),
        precedes(b, c),
    ensures
        precedes(a, c),
{
    lemma_before_transitive(encode_utf8(a), encode_utf8(b), encode_utf8(c), 0);
}

/// Ranks two byte strings.
pub fn rank_bytes(a: &[u8], b: &[u8]) -> (r: Rank)
    ensures
        r == rank_of(a@, b@),
        (r is Same) == (a@ == b@),
{
    let mut i: usize = 0;
    while i < a.len() && i < b.len()
        invariant
            i <= a@.len(),
            i <= b@.len(),
            forall|j: int| 0 <= j < i ==> a@[j] == b@[j],
        decreases a@.len() - i,
    {
        if a[i] < b[i] {
            proof {
                lemma_before_skips_common_prefix(a@, b@, i as int);
                lemma_before_skips_common_prefix(b@, a@, i as int);
                lemma_before_irreflexive(a@, 0);
            }
            return Rank::Before;
        }
        if a[i] > b[i] {
            proof {
                lemma_before_skips_common_prefix(a@, b@, i as int);
                lemma_before_skips_common_prefix(b@, a@, i as int);
                lemma_before_irreflexive(a@, 0);
            }
            return Rank::After;
        }
        i += 1;
    }
    proof {
        lemma_before_skips_common_prefix(a@, b@, i as int);
        lemma_before_skips_common_prefix(b@, a@, i as int);
        lemma_before_irreflexive(a@, 0);
        if a@.len() == b@.len() {
            lemma_before_total(a@, b@, i as int);
        }
    }
    if a.len() < b.len() {
        Rank::Before
    } else if a.len() > b.len() {
        Rank::After
    } else {
        Rank::Same
    }
}

/// Ranks two strings in the order of `precedes`.
pub fn rank(a: &str, b: &str) -> (r: Rank)
    ensures
        (r is Before) == precedes(a@, b@),
        (r is After) == precedes(b@, a@),
        (r is Same) == (a@ == b@),
{
    proof {
        lemma_precedes_trichotomy(a@, b@);
        lemma_precedes_trichotomy(b@, a@);
    }
    rank_bytes(a.as_bytes(), b.as_bytes())
}

/// The character that stands for the digit `d`.
pub open spec fn digit(d: nat) -> char {
    if d == 0 {
        '0'
    } else if d == 1 {
        '1'
    } else if d == 2 {
        '2'
    } else if d == 3 {
        '3'
    } else if d == 4 {
        '4'
    } else if d == 5 {
        '5'
    } else if d == 6 {
        '6'
    } else if d == 7 {
        '7'
    } else if d == 8 {
        '8'
    } else {
        '9'
    }
}

/// The decimal numeral of `n`, without sign or leading zeros.
pub open spec fn decimal(n: nat) -> Seq<char>
    decreases n,
{
    if n < 10 {
        seq![digit(n)]
    } else {
        decimal(n / 10).push(digit(n % 10))
    }
}

/// Different digits have different characters.
pub proof fn lemma_digit_injective(x: nat, y: nat)
    requires
        x < 10,
        y < 10,
        digit(x) == digit(y),
    ensures
        x == y,
{
    assert(digit(x) as u32 == 48 + x);
    assert(digit(y) as u32 == 48 + y);
}

/// Different numbers have different numerals.
pub proof fn lemma_decimal_injective(a: nat, b: nat)
    requires
        decimal(a) == decimal(b),
    ensures
        a == b,
    decreases a,
{
    if a < 10 && b < 10 {
        assert(decimal(a)[0] == digit(a));
        assert(decimal(b)[0] == digit(b));
        lemma_digit_injective(a, b);
    } else if a >= 10 && b >= 10 {
        let p = decimal(a / 10);
        let q = decimal(b / 10);
        let x = digit(a % 10);
        let y = digit(b % 10);
        assert(decimal(a) == p.push(x));
        assert(decimal(b) == q.push(y));
        assert(p.push(x).last() == x);
        assert(q.push(y).last() == y);
        assert(p.push(x).drop_last() =~= p);
        assert(q.push(y).drop_last() =~= q);
        assert(x == y);
        assert(p == q);
        lemma_digit_injective(a % 10, b % 10);
        lemma_decimal_injective(a / 10, b / 10);
        assert(a == 10 * (a / 10) + a % 10);
        assert(b == 10 * (b / 10) + b % 10);
    } else {
        lemma_decimal_nonempty(a / 10);
        lemma_decimal_nonempty(b / 10);
        if a < 10 {
            assert(decimal(a).len() == 1);
            assert(decimal(b).len() == decimal(b / 10).len() + 1);
        } else {
            assert(decimal(b).len() == 1);
            assert(decimal(a).len() == decimal(a / 10).len() + 1);
        }
    }
}

/// A numeral has at least one digit.
pub proof fn lemma_decimal_nonempty(n: nat)
    ensures
        decimal(n).len() >= 1,
    decreases n,
{
    if n >= 10 {
        lemma_decimal_nonempty(n / 10);
    }
}

/// The one-character string of the digit `d`.
fn digit_text(d: usize) -> (r: &'static str)
    requires
        d < 10,
    ensures
        r@ == seq![digit(d as nat)],
{
    proof {
        reveal_strlit("0");
        reveal_strlit("1");
        reveal_strlit("2");
        reveal_strlit("3");
        reveal_strlit("4");
        reveal_strlit("5");
        reveal_strlit("6");
        reveal_strlit("7");
        reveal_strlit("8");
        reveal_strlit("9");
    }
    let r = if d == 0 {
        "0"
    } else if d == 1 {
        "1"
    } else if d == 2 {
        "2"
    } else if d == 3 {
        "3"
    } else if d == 4 {
        "4"
    } else if d == 5 {
        "5"
    } else if d == 6 {
        "6"
    } else if d == 7 {
        "7"
    } else if d == 8 {
        "8"
    } else {
        "9"
    };
    assert(r@ =~= seq![digit(d as nat)]);
    r
}

/// Renders `n` in decimal.
pub fn decimal_string(n: usize) -> (s: String)
    ensures
        s@ == decimal(n as nat),
    decreases n,
{
    if n < 10 {
        String::from_str(digit_text(n))
    } else {
        let mut s = decimal_string(n / 10);
        s.append(digit_text(n % 10));
        assert(s@ =~= decimal((n / 10) as nat).push(digit((n % 10) as nat)));
        s
    }
}

} // verus!
