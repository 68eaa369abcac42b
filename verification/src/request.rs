use vstd::prelude::*;

verus! {

/// The character that stands for the decimal digit `d` (`0 <= d < 10`).
pub open spec fn digit_char(d: nat) -> char {
    ('0' as int + d) as char
}

/// The value of a decimal digit character.
pub open spec fn digit_value(c: char) -> int {
    c as int - '0' as int
}

/// The shortest decimal rendering of `n`, most significant digit first,
/// as `u64`'s `Display` writes it.
pub open spec fn decimal(n: nat) -> Seq<char>
    decreases n,
{
    if n < 10 {
        seq![digit_char(n)]
    } else {
        decimal(n / 10).push(digit_char(n % 10))
    }
}

/// The number that a string of decimal digits denotes.
pub open spec fn decimal_value(s: Seq<char>) -> int
    decreases s.len(),
{
    if s.len() == 0 {
        0
    } else {
        decimal_value(s.drop_last()) * 10 + digit_value(s.last())
    }
}

/// `c` is one of the characters `'0'` to `'9'`.
pub open spec fn is_digit(c: char) -> bool {
    '0' <= c && c <= '9'
}

/// `s` is written the way decimal numbers are shown: at least one
/// character, every character a digit `'0'..='9'`, and no leading zero
/// (a `'0'` comes first only in `"0"` itself).
pub open spec fn is_shortest_decimal(s: Seq<char>) -> bool {
    &&& s.len() >= 1
    &&& forall|i: int| 0 <= i < s.len() ==> is_digit(#[trigger] s[i])
    &&& s.len() > 1 ==> s[0] != '0'
}

/// Request ID for matching responses to requests (Binance uses integers).
#[derive(Clone, Copy, Debug, PartialEq, Eq, Hash, Structural)]
pub struct RequestId(u64);

impl View for RequestId {
    type V = u64;

    closed spec fn view(&self) -> u64 {
        self.0
    }
}

/// The one-character string of a decimal digit.
fn digit_str(d: u64) -> (s: &'static str)
    requires
        d < 10,
    ensures
        s@ == seq![digit_char(d as nat)],
{
    proof {
        reveal_strlit("0");
        reveal_strlit("1");
        reveal_strlit("2");
        reveal_strlit("3");
        reveal_strlit("4");
        reveal_strlit("5");
        reveal_strlit("6");
        reveal_strlit("7");
        reveal_strlit("8");
        reveal_strlit("9");
    }
    match d {
        0 => "0",
        1 => "1",
        2 => "2",
        3 => "3",
        4 => "4",
        5 => "5",
        6 => "6",
        7 => "7",
        8 => "8",
        _ => "9",
    }
}

/// Appends the decimal rendering of `n` to `out`.
fn push_decimal(n: u64, out: &mut String)
    ensures
        final(out)@ == old(out)@ + decimal(n as nat),
    decreases n,
{
    if n >= 10 {
        push_decimal(n / 10, out);
    }
    out.append(digit_str(n % 10));
    proof {
        if n >= 10 {
            assert(old(out)@ + decimal(n as nat) =~= old(out)@ + decimal((n / 10) as nat) + seq![
                digit_char((n % 10) as nat),
            ]);
        }
    }
}

impl RequestId {
    pub fn new(id: u64) -> (r: Self)
        ensures
            r@ == id,
    {
        RequestId(id)
    }

    pub fn as_u64(&self) -> (n: u64)
        ensures
            n == self@,
    {
        self.0
    }

    /// The identifier in decimal, as it is displayed and as it travels on
    /// the wire.
    pub fn to_string(&self) -> (s: String)
        ensures
            s@ == decimal(self@ as nat),
            is_shortest_decimal(s@),
            decimal_value(s@) == self@,
    {
        proof {
            lemma_decimal_is_shortest(self@ as nat);
        }
        let mut s = String::new();
        push_decimal(self.0, &mut s);
        assert(s@ =~= decimal(self@ as nat));
        s
    }
}

impl From<u64> for RequestId {
    fn from(n: u64) -> (r: Self)
        ensures
            r@ == n,
    {
        RequestId(n)
    }
}

impl vstd::std_specs::convert::FromSpecImpl<u64> for RequestId {
    open spec fn obeys_from_spec() -> bool {
        true
    }

    closed spec fn from_spec(v: u64) -> Self {
        RequestId(v)
    }
}

/// Two request ids are the same exactly when they carry the same number:
/// so `RequestId::new(r.as_u64()) == r` and `RequestId::from(n) ==
/// RequestId::new(n)`, and ids can be matched by their numbers.
pub proof fn lemma_request_id_eq(a: RequestId, b: RequestId)
    ensures
        a == b <==> a@ == b@,
{
}

/// Reading the decimal rendering of a number back gives the number.
pub proof fn lemma_decimal_round_trip(n: nat)
    ensures
        decimal_value(decimal(n)) == n,
        decimal(n).len() >= 1,
    decreases n,
{
    let d = n % 10;
    let s = decimal(n);
    assert(digit_value(digit_char(d)) == d);
    if n >= 10 {
        lemma_decimal_round_trip(n / 10);
        assert(s.drop_last() =~= decimal(n / 10));
    } else {
        assert(s.drop_last() =~= Seq::<char>::empty());
    }
    assert(decimal_value(s) == decimal_value(s.drop_last()) * 10 + digit_value(s.last()));
}

/// The value of a string of digits, and how it bounds the string's length:
/// one digit is below ten, more digits with no leading zero are at least
/// ten, and a nonzero first digit makes the value positive.
proof fn lemma_value_bounds(s: Seq<char>)
    requires
        forall|i: int| 0 <= i < s.len() ==> is_digit(#[trigger] s[i]),
    ensures
        decimal_value(s) >= 0,
        s.len() == 1 ==> decimal_value(s) < 10,
        s.len() >= 1 && s[0] != '0' ==> decimal_value(s) >= 1,
        is_shortest_decimal(s) && s.len() > 1 ==> decimal_value(s) >= 10,
    decreases s.len(),
{
    if s.len() > 0 {
        let p = s.drop_last();
        assert forall|i: int| 0 <= i < p.len() implies is_digit(#[trigger] p[i]) by {
            assert(p[i] == s[i]);
        }
        lemma_value_bounds(p);
        assert(is_digit(s[s.len() - 1]));
        if s.len() == 1 {
            assert(p =~= Seq::<char>::empty());
        } else {
            assert(p[0] == s[0]);
            if s[0] != '0' {
                assert(decimal_value(p) >= 1);
            }
        }
    }
}

/// The decimal rendering of every number is a shortest decimal: digits only,
/// no leading zero, and it reads back as the number.
pub proof fn lemma_decimal_is_shortest(n: nat)
    ensures
        is_shortest_decimal(decimal(n)),
        decimal_value(decimal(n)) == n,
    decreases n,
{
    lemma_decimal_round_trip(n);
    let s = decimal(n);
    if n >= 10 {
        lemma_decimal_is_shortest(n / 10);
        let p = decimal(n / 10);
        assert(s =~= p.push(digit_char(n % 10)));
        assert forall|i: int| 0 <= i < s.len() implies is_digit(#[trigger] s[i]) by {
            if i < p.len() {
                assert(s[i] == p[i]);
            }
        }
        assert(s[0] == p[0]);
        if p.len() == 1 {
            assert(p[0] != '0') by {
                if p[0] == '0' {
                    assert(decimal_value(p) == decimal_value(p.drop_last()) * 10 + digit_value(
                        p.last(),
                    ));
                    assert(p.drop_last() =~= Seq::<char>::empty());
                }
            }
        }
    }
}

/// A number has only one shortest decimal: two shortest decimals with the
/// same value are the same string.
pub proof fn lemma_shortest_decimal_unique(s: Seq<char>, t: Seq<char>)
    requires
        is_shortest_decimal(s),
        is_shortest_decimal(t),
        decimal_value(s) == decimal_value(t),
    ensures
        s == t,
    decreases s.len(),
{
    lemma_value_bounds(s);
    lemma_value_bounds(t);
    let v = decimal_value(s);
    if s.len() == 1 || t.len() == 1 {
        assert(s.len() == 1 && t.len() == 1);
        assert(s.drop_last() =~= Seq::<char>::empty());
        assert(t.drop_last() =~= Seq::<char>::empty());
        assert(is_digit(s[0]) && is_digit(t[0]));
        assert(s[0] == t[0]);
        assert(s =~= t);
    } else {
        let ps = s.drop_last();
        let pt = t.drop_last();
        assert(is_digit(s[s.len() - 1]) && is_digit(t[t.len() - 1]));
        let ds = digit_value(s.last());
        let dt = digit_value(t.last());
        assert(v == decimal_value(ps) * 10 + ds);
        assert(v == decimal_value(pt) * 10 + dt);
        assert(0 <= ds < 10 && 0 <= dt < 10);
        assert(ds == dt && decimal_value(ps) == decimal_value(pt)) by (nonlinear_arith)
            requires
                decimal_value(ps) * 10 + ds == decimal_value(pt) * 10 + dt,
                0 <= ds < 10,
                0 <= dt < 10,
        ;
        assert forall|i: int| 0 <= i < ps.len() implies is_digit(#[trigger] ps[i]) by {
            assert(ps[i] == s[i]);
        }
        assert forall|i: int| 0 <= i < pt.len() implies is_digit(#[trigger] pt[i]) by {
            assert(pt[i] == t[i]);
        }
        assert(ps[0] == s[0] && pt[0] == t[0]);
        lemma_shortest_decimal_unique(ps, pt);
        assert(s.last() == t.last());
        assert(s =~= ps.push(s.last()));
        assert(t =~= pt.push(t.last()));
    }
}

/// The decimal rendering of `n` is the one shortest decimal whose value is
/// `n`: any string of digits with no leading zero that reads as `n` is it.
pub proof fn lemma_decimal_characterized(n: nat, s: Seq<char>)
    requires
        is_shortest_decimal(s),
        decimal_value(s) == n,
    ensures
        s == decimal(n),
{
    lemma_decimal_is_shortest(n);
    lemma_shortest_decimal_unique(s, decimal(n));
}

} // verus!
