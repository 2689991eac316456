use vstd::prelude::*;
use vstd::std_specs::iter::IteratorSpec;
use vstd::string::*;

verus! {

/// Where one value stands relative to another under a total order.
#[derive(Clone, Copy, Debug, PartialEq, Eq, Structural)]
pub enum Rank {
    Before,
    Same,
    After,
}

/// Dictionary order on character sequences, characters ordered by code point.
/// A proper prefix stands before every sequence it is a prefix of.
pub open spec fn text_rank(a: Seq<char>, b: Seq<char>) -> Rank
    decreases a.len(),
{
    if a.len() == 0 {
        if b.len() == 0 {
            Rank::Same
        } else {
            Rank::Before
        }
    } else if b.len() == 0 {
        Rank::After
    } else if a[0] == b[0] {
        text_rank(a.drop_first(), b.drop_first())
    } else if a[0] < b[0] {
        Rank::Before
    } else {
        Rank::After
    }
}

/// Two sequences rank `Same` exactly when they are equal.
pub proof fn text_rank_same(a: Seq<char>, b: Seq<char>)
    ensures
        text_rank(a, b) == Rank::Same <==> a == b,
    decreases a.len(),
{
    if a.len() > 0 && b.len() > 0 {
        text_rank_same(a.drop_first(), b.drop_first());
        if a[0] == b[0] && a.drop_first() == b.drop_first() {
            assert(a =~= seq![a[0]] + a.drop_first());
            assert(b =~= seq![b[0]] + b.drop_first());
        }
    } else if a.len() == 0 && b.len() == 0 {
        assert(a =~= b);
    }
}

/// Swapping the arguments mirrors the rank.
pub proof fn text_rank_mirror(a: Seq<char>, b: Seq<char>)
    ensures
        text_rank(a, b) == Rank::Before <==> text_rank(b, a) == Rank::After,
        text_rank(a, b) == Rank::After <==> text_rank(b, a) == Rank::Before,
        text_rank(a, b) == Rank::Same <==> text_rank(b, a) == Rank::Same,
    decreases a.len(),
{
    if a.len() > 0 && b.len() > 0 {
        text_rank_mirror(a.drop_first(), b.drop_first());
    }
}

/// `Before` is transitive.
pub proof fn text_rank_transitive(a: Seq<char>, b: Seq<char>, c: Seq<char>)
    requires
        text_rank(a, b) == Rank::Before,
        text_rank(b, c) == Rank::Before,
    ensures
        text_rank(a, c) == Rank::Before,
    decreases a.len(),
{
    if a.len() > 0 && b.len() > 0 && c.len() > 0 {
        if a[0] == b[0] && b[0] == c[0] {
            text_rank_transitive(a.drop_first(), b.drop_first(), c.drop_first());
        }
    }
}

/// Compares two strings in dictionary order by code point.
pub fn rank_text(a: &str, b: &str) -> (r: Rank)
    ensures
        r == text_rank(a@, b@),
{
    let mut ia = a.chars();
    let mut ib = b.chars();
    let ghost mut k: int = 0;
    proof {
        assert(a@.skip(0) =~= a@);
        assert(b@.skip(0) =~= b@);
    }
    loop
        invariant
            0 <= k <= a@.len(),
            k <= b@.len(),
            ia.remaining() == a@.skip(k),
            ib.remaining() == b@.skip(k),
            text_rank(a@, b@) == text_rank(a@.skip(k), b@.skip(k)),
        decreases a@.len() - k,
    {
        let ca = ia.next();
        let cb = ib.next();
        match (ca, cb) {
            (None, None) => {
                return Rank::Same;
            },
            (None, Some(_)) => {
                return Rank::Before;
            },
            (Some(_), None) => {
                return Rank::After;
            },
            (Some(x), Some(y)) => {
                if x != y {
                    if x < y {
                        return Rank::Before;
                    } else {
                        return Rank::After;
                    }
                }
                proof {
                    assert(a@.skip(k).drop_first() =~= a@.skip(k + 1));
                    assert(b@.skip(k).drop_first() =~= b@.skip(k + 1));
                    k = k + 1;
                }
            },
        }
    }
}

/// `text` on one line: every line feed replaced by a blank.
pub open spec fn on_one_line(text: Seq<char>) -> Seq<char> {
    text.map_values(
        |c: char|
            if c == '\n' {
                ' '
            } else {
                c
            },
    )
}

/// `text` with every line feed replaced by a blank.
pub fn one_line(text: &str) -> (r: String)
    ensures
        r@ == on_one_line(text@),
{
    let mut out = String::new();
    let mut it = text.chars();
    let len = text.unicode_len();
    let mut start: usize = 0;
    let mut at: usize = 0;
    proof {
        reveal_strlit(" ");
        assert(text@.skip(0) =~= text@);
        assert(out@ =~= on_one_line(text@.subrange(0, 0)));
    }
    loop
        invariant_except_break
            out@ == on_one_line(text@.subrange(0, start as int)),
        invariant
            len == text@.len(),
            0 <= start <= at <= len,
            it.remaining() == text@.skip(at as int),
            forall|j: int| start <= j < at ==> text@[j] != '\n',
        ensures
            out@ == on_one_line(text@),
        decreases text@.len() - at,
    {
        let next = it.next();
        match next {
            None => {
                out.append(text.substring_char(start, at));
                proof {
                    reveal_strlit(" ");
                    assert(out@ =~= on_one_line(text@));
                }
                break;
            },
            Some(c) => {
                proof {
                    assert(text@.skip(at as int).drop_first() =~= text@.skip(at + 1));
                    assert(c == text@[at as int]);
                }
                if c == '\n' {
                    out.append(text.substring_char(start, at));
                    out.append(" ");
                    proof {
                        reveal_strlit(" ");
                        assert(out@ =~= on_one_line(text@.subrange(0, at + 1)));
                    }
                    at += 1;
                    start = at;
                } else {
                    at += 1;
                }
            },
        }
    }
    out
}

/// The decimal digit `d` as text.
pub open spec fn digit_text(d: nat) -> Seq<char> {
    if d == 0 {
        "0"@
    } else if d == 1 {
        "1"@
    } else if d == 2 {
        "2"@
    } else if d == 3 {
        "3"@
    } else if d == 4 {
        "4"@
    } else if d == 5 {
        "5"@
    } else if d == 6 {
        "6"@
    } else if d == 7 {
        "7"@
    } else if d == 8 {
        "8"@
    } else {
        "9"@
    }
}

/// `n` in decimal digits, without leading zeros.
pub open spec fn decimal_text(n: nat) -> Seq<char>
    decreases n,
{
    if n < 10 {
        digit_text(n)
    } else {
        decimal_text(n / 10) + digit_text(n % 10)
    }
}

fn digit(d: u64) -> (r: &'static str)
    requires
        d < 10,
    ensures
        r@ == digit_text(d as nat),
{
    if d == 0 {
        "0"
    } else if d == 1 {
        "1"
    } else if d == 2 {
        "2"
    } else if d == 3 {
        "3"
    } else if d == 4 {
        "4"
    } else if d == 5 {
        "5"
    } else if d == 6 {
        "6"
    } else if d == 7 {
        "7"
    } else if d == 8 {
        "8"
    } else {
        "9"
    }
}

/// `n` in decimal digits, without leading zeros.
pub fn decimal(n: u64) -> (r: String)
    ensures
        r@ == decimal_text(n as nat),
    decreases n,
{
    if n < 10 {
        digit(n).to_owned()
    } else {
        let mut out = decimal(n / 10);
        out.append(digit(n % 10));
        out
    }
}

/// Whether `text` begins with `prefix`.
pub fn starts_with(text: &str, prefix: &str) -> (r: bool)
    ensures
        r == prefix@.is_prefix_of(text@),
{
    let mut it = text.chars();
    let mut ip = prefix.chars();
    let ghost mut k: int = 0;
    proof {
        assert(text@.skip(0) =~= text@);
        assert(prefix@.skip(0) =~= prefix@);
    }
    loop
        invariant
            0 <= k <= text@.len(),
            k <= prefix@.len(),
            it.remaining() == text@.skip(k),
            ip.remaining() == prefix@.skip(k),
            forall|j: int| 0 <= j < k ==> text@[j] == prefix@[j],
        decreases prefix@.len() - k,
    {
        let cp = ip.next();
        match cp {
            None => {
                assert(prefix@ =~= text@.subrange(0, prefix@.len() as int));
                return true;
            },
            Some(y) => {
                let ct = it.next();
                match ct {
                    None => {
                        return false;
                    },
                    Some(x) => {
                        if x != y {
                            proof {
                                if prefix@.is_prefix_of(text@) {
                                    assert(text@.subrange(0, prefix@.len() as int)[k] == text@[k]);
                                }
                            }
                            return false;
                        }
                    },
                }
                proof {
                    assert(text@.skip(k).drop_first() =~= text@.skip(k + 1));
                    assert(prefix@.skip(k).drop_first() =~= prefix@.skip(k + 1));
                    k = k + 1;
                }
            },
        }
    }
}

} // verus!
