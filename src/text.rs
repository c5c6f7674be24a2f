use vstd::prelude::*;

verus! {

/// `s` with each escaped space `%20` turned back into a space.
pub open spec fn unspaced(s: Seq<char>) -> Seq<char>
    decreases s.len(),
{
    if s.len() == 0 {
        Seq::empty()
    } else if s.len() >= 3 && s[0] == '%' && s[1] == '2' && s[2] == '0' {
        seq![' '] + unspaced(s.subrange(3, s.len() as int))
    } else {
        seq![s[0]] + unspaced(s.subrange(1, s.len() as int))
    }
}

pub open spec fn is_digit(c: char) -> bool {
    '0' <= c && c <= '9'
}

pub open spec fn all_digits(s: Seq<char>) -> bool {
    forall|i: int| 0 <= i < s.len() ==> is_digit(#[trigger] s[i])
}

/// The number that the decimal digits `s` write.
pub open spec fn digits_value(s: Seq<char>) -> nat
    decreases s.len(),
{
    if s.len() == 0 {
        0
    } else {
        digits_value(s.drop_last()) * 10 + (s.last() as nat - '0' as nat) as nat
    }
}

/// The digits of `s`, after one leading `+` sign if there is one.
pub open spec fn unsigned_digits(s: Seq<char>) -> Seq<char> {
    if s.len() > 0 && s[0] == '+' {
        s.subrange(1, s.len() as int)
    } else {
        s
    }
}

/// The index that `s` writes in decimal, with an optional leading `+`, if it
/// is one no greater than `bound`.
pub open spec fn index_value(s: Seq<char>, bound: usize) -> Option<usize> {
    let d = unsigned_digits(s);
    if d.len() > 0 && all_digits(d) && digits_value(d) <= bound {
        Some(digits_value(d) as usize)
    } else {
        None
    }
}

/// Whether the two texts are equal, character by character.
pub fn text_eq(a: &str, b: &str) -> (r: bool)
    ensures
        r == (a@ == b@),
{
    let n = a.unicode_len();
    if n != b.unicode_len() {
        return false;
    }
    let mut i: usize = 0;
    while i < n
        invariant
            n == a@.len(),
            n == b@.len(),
            0 <= i <= n,
            forall|k: int| 0 <= k < i ==> a@[k] == b@[k],
        decreases n - i,
    {
        if a.get_char(i) != b.get_char(i) {
            return false;
        }
        i = i + 1;
    }
    assert(a@ =~= b@);
    true
}

/// Whether the characters `v` spell `s`.
pub fn chars_eq(v: &Vec<char>, s: &str) -> (r: bool)
    ensures
        r == (v@ == s@),
{
    let n = s.unicode_len();
    if n != v.len() {
        return false;
    }
    let mut i: usize = 0;
    while i < n
        invariant
            n == s@.len(),
            n == v@.len(),
            0 <= i <= n,
            forall|k: int| 0 <= k < i ==> v@[k] == s@[k],
        decreases n - i,
    {
        if v[i] != s.get_char(i) {
            return false;
        }
        i = i + 1;
    }
    assert(v@ =~= s@);
    true
}

/// The characters of `s`, with each `%20` read as a space.
pub fn decode_spaces(s: &str) -> (r: Vec<char>)
    ensures
        r@ == unspaced(s@),
{
    let n = s.unicode_len();
    let mut out: Vec<char> = Vec::new();
    let mut i: usize = 0;
    assert(s@.subrange(0, n as int) =~= s@);
    assert(out@ + unspaced(s@) =~= unspaced(s@));
    while i < n
        invariant
            n == s@.len(),
            0 <= i <= n,
            unspaced(s@) == out@ + unspaced(s@.subrange(i as int, n as int)),
        decreases n - i,
    {
        let rest = Ghost(s@.subrange(i as int, n as int));
        let c = s.get_char(i);
        if c == '%' && n - i > 2 && s.get_char(i + 1) == '2' && s.get_char(i + 2) == '0' {
            assert(rest@.subrange(3, rest@.len() as int) =~= s@.subrange(i + 3, n as int));
            out.push(' ');
            i = i + 3;
        } else {
            assert(rest@.subrange(1, rest@.len() as int) =~= s@.subrange(i + 1, n as int));
            out.push(c);
            i = i + 1;
        }
        assert(unspaced(s@) == out@ + unspaced(s@.subrange(i as int, n as int)));
    }
    assert(s@.subrange(n as int, n as int) =~= Seq::<char>::empty());
    assert(out@ + Seq::<char>::empty() =~= out@);
    out
}

/// The index that `v` writes in decimal, with an optional leading `+`, if
/// it is one no greater than `bound`.
pub fn parse_index(v: &Vec<char>, bound: usize) -> (r: Option<usize>)
    requires
        bound <= (usize::MAX - 9) / 10,
    ensures
        r == index_value(v@, bound),
{
    let n = v.len();
    let start: usize = if n > 0 && v[0] == '+' {
        1
    } else {
        0
    };
    let ghost d = unsigned_digits(v@);
    assert(d =~= v@.subrange(start as int, n as int));
    if n == start {
        return None;
    }
    // `acc` is the value read so far, held at `bound + 1` once past the bound.
    let mut acc: usize = 0;
    let mut i: usize = start;
    assert(v@.subrange(start as int, start as int) =~= Seq::<char>::empty());
    while i < n
        invariant
            n == v@.len(),
            start <= i <= n,
            d == v@.subrange(start as int, n as int),
            d == unsigned_digits(v@),
            bound <= (usize::MAX - 9) / 10,
            all_digits(v@.subrange(start as int, i as int)),
            acc <= bound + 1,
            acc <= bound ==> acc == digits_value(v@.subrange(start as int, i as int)),
            acc == bound + 1 ==> digits_value(v@.subrange(start as int, i as int)) > bound,
        decreases n - i,
    {
        let c = v[i];
        let prefix = Ghost(v@.subrange(start as int, i as int + 1));
        assert(prefix@.drop_last() =~= v@.subrange(start as int, i as int));
        if !('0' <= c && c <= '9') {
            assert(!all_digits(d)) by {
                assert(d[i - start] == c);
            }
            return None;
        }
        let d = (c as u32 - '0' as u32) as usize;
        if acc <= bound {
            let next = acc * 10 + d;
            if next <= bound {
                acc = next;
            } else {
                acc = bound + 1;
            }
        }
        i = i + 1;
        assert(all_digits(v@.subrange(start as int, i as int))) by {
            assert forall|k: int| 0 <= k < i - start implies is_digit(
                #[trigger] v@.subrange(start as int, i as int)[k],
            ) by {
                if k < i - 1 - start {
                    assert(v@.subrange(start as int, i as int)[k] == v@.subrange(
                        start as int,
                        i - 1,
                    )[k]);
                }
            }
        }
    }
    if acc <= bound {
        Some(acc)
    } else {
        None
    }
}

} // verus!
