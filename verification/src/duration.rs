//! Durations in the configuration, written in ISO 8601 (`PT3H`, `P1W`):
//! weeks and days, then after a `T` hours, minutes and seconds, each unit
//! at most once and in that order.
use vstd::prelude::*;

use crate::text::{decimal, digit_char};

verus! {

pub open spec fn is_digit(c: char) -> bool {
    '0' <= c && c <= '9'
}

pub open spec fn digit_value(c: char) -> nat {
    (c as int - '0' as int) as nat
}

/// The rank and length in seconds of a unit designator: `W` and `D` in
/// the date part, `H`, `M` and `S` in the time part.
pub open spec fn unit_of(c: char, in_time: bool) -> Option<(nat, nat)> {
    if !in_time && c == 'W' {
        Some((0, 604800))
    } else if !in_time && c == 'D' {
        Some((1, 86400))
    } else if in_time && c == 'H' {
        Some((2, 3600))
    } else if in_time && c == 'M' {
        Some((3, 60))
    } else if in_time && c == 'S' {
        Some((4, 1))
    } else {
        None
    }
}

/// The state of the reading of a duration after its `P`.
pub struct DurationState {
    /// Whether the `T` was read.
    pub in_time: bool,
    /// The least rank the next unit may have.
    pub next_rank: nat,
    /// The number being read, if a digit was read since the last unit.
    pub number: Option<nat>,
    /// The seconds of the components read.
    pub total: nat,
    /// Whether a component was read.
    pub any: bool,
    /// Whether a component was read after the `T`.
    pub time_any: bool,
}

/// Reads one character; `None` when the text is no duration.
pub open spec fn read_char(st: DurationState, c: char) -> Option<DurationState> {
    if is_digit(c) {
        Some(
            DurationState {
                number: Some(
                    match st.number {
                        Some(n) => n,
                        None => 0,
                    } * 10 + digit_value(c),
                ),
                ..st
            },
        )
    } else if c == 'T' {
        if st.in_time || st.number is Some {
            None
        } else {
            Some(DurationState { in_time: true, next_rank: 2, time_any: false, ..st })
        }
    } else {
        match unit_of(c, st.in_time) {
            Some((rank, seconds)) => match st.number {
                Some(n) => if rank >= st.next_rank {
                    Some(
                        DurationState {
                            next_rank: rank + 1,
                            number: None,
                            total: st.total + n * seconds,
                            any: true,
                            time_any: st.time_any || st.in_time,
                            ..st
                        },
                    )
                } else {
                    None
                },
                None => None,
            },
            None => None,
        }
    }
}

/// Reads the rest of a duration, then checks that it ended well: no number
/// without a unit, at least one component, and one after a `T`.
pub open spec fn read_rest(st: DurationState, s: Seq<char>) -> Option<nat>
    decreases s.len(),
{
    if s.len() == 0 {
        if st.number is None && st.any && (!st.in_time || st.time_any) {
            Some(st.total)
        } else {
            None
        }
    } else {
        match read_char(st, s[0]) {
            Some(next) => read_rest(next, s.drop_first()),
            None => None,
        }
    }
}

/// The state before the first character after the `P`.
pub open spec fn initial_state() -> DurationState {
    DurationState { in_time: false, next_rank: 0, number: None, total: 0, any: false, time_any: false }
}

/// The number of seconds that `s` writes, if it is a duration.
pub open spec fn duration_seconds(s: Seq<char>) -> Option<nat> {
    if s.len() > 0 && s[0] == 'P' {
        read_rest(initial_state(), s.drop_first())
    } else {
        None
    }
}

/// A successful reading never ends below the seconds already counted,
/// plus the number being read.
proof fn lemma_read_rest_grows(st: DurationState, s: Seq<char>)
    ensures
        read_rest(st, s) matches Some(t) ==> t >= st.total + match st.number {
            Some(n) => n,
            None => 0,
        },
    decreases s.len(),
{
    if s.len() > 0 {
        if let Some(next) = read_char(st, s[0]) {
            lemma_read_rest_grows(next, s.drop_first());
            let c = s[0];
            if is_digit(c) {
                let n0: nat = match st.number {
                    Some(n) => n,
                    None => 0,
                };
                assert(n0 * 10 + digit_value(c) >= n0) by (nonlinear_arith);
            } else if c != 'T' {
                if let Some((rank, seconds)) = unit_of(c, st.in_time) {
                    let n = st.number->Some_0;
                    assert(seconds >= 1);
                    assert(n * seconds >= n) by (nonlinear_arith)
                        requires
                            seconds >= 1,
                    ;
                }
            }
        }
    }
}

/// The exec form of a state, each number fitting in a `u64`.
struct Reader {
    in_time: bool,
    next_rank: u8,
    has_number: bool,
    number: u64,
    total: u64,
    any: bool,
    time_any: bool,
}

impl Reader {
    spec fn state(self) -> DurationState {
        DurationState {
            in_time: self.in_time,
            next_rank: self.next_rank as nat,
            number: if self.has_number {
                Some(self.number as nat)
            } else {
                None
            },
            total: self.total as nat,
            any: self.any,
            time_any: self.time_any,
        }
    }
}

/// Reads a duration such as `PT3H` or `P1W`, in seconds. `None` when the
/// text is no duration, or one of more than `u64::MAX` seconds.
pub fn parse_duration_seconds(s: &str) -> (r: Option<u64>)
    ensures
        match r {
            Some(t) => duration_seconds(s@) == Some(t as nat),
            None => match duration_seconds(s@) {
                Some(t) => t > u64::MAX,
                None => true,
            },
        },
{
    let n = s.unicode_len();
    if n == 0 || s.get_char(0) != 'P' {
        return None;
    }
    let ghost rest0 = s@.drop_first();
    let mut rd = Reader {
        in_time: false,
        next_rank: 0,
        has_number: false,
        number: 0,
        total: 0,
        any: false,
        time_any: false,
    };
    let mut i: usize = 1;
    assert(rd.state() == initial_state());
    while i < n
        invariant
            1 <= i <= n,
            n == s@.len(),
            s@.len() > 0 && s@[0] == 'P',
            rd.next_rank <= 5,
            read_rest(initial_state(), s@.drop_first()) == read_rest(rd.state(), s@.skip(i as int)),
        decreases n - i,
    {
        let c = s.get_char(i);
        let ghost st = rd.state();
        proof {
            assert(s@.skip(i as int)[0] == c);
            assert(s@.skip(i as int).drop_first() =~= s@.skip(i + 1));
            lemma_read_rest_grows(st, s@.skip(i as int));
        }
        if '0' <= c && c <= '9' {
            let d = (c as u32 - '0' as u32) as u64;
            let base = if rd.has_number {
                rd.number
            } else {
                0
            };
            if base > (u64::MAX - d) / 10 {
                proof {
                    let next = read_char(st, c).unwrap();
                    assert(base * 10 + d > u64::MAX) by (nonlinear_arith)
                        requires
                            base > (u64::MAX - d) / 10,
                            d <= 9,
                    ;
                    lemma_read_rest_grows(next, s@.skip(i + 1));
                }
                return None;
            }
            assert(base * 10 + d <= u64::MAX) by (nonlinear_arith)
                requires
                    base <= (u64::MAX - d) / 10,
                    d <= 9,
            ;
            rd.number = base * 10 + d;
            rd.has_number = true;
        } else if c == 'T' {
            if rd.in_time || rd.has_number {
                return None;
            }
            rd.in_time = true;
            rd.next_rank = 2;
            rd.time_any = false;
        } else {
            let (rank, seconds): (u8, u64) = if !rd.in_time && c == 'W' {
                (0, 604800)
            } else if !rd.in_time && c == 'D' {
                (1, 86400)
            } else if rd.in_time && c == 'H' {
                (2, 3600)
            } else if rd.in_time && c == 'M' {
                (3, 60)
            } else if rd.in_time && c == 'S' {
                (4, 1)
            } else {
                return None;
            };
            if !rd.has_number || rank < rd.next_rank {
                return None;
            }
            let number = rd.number;
            if number > u64::MAX / seconds {
                proof {
                    let next = read_char(st, c).unwrap();
                    assert(number * seconds > u64::MAX) by (nonlinear_arith)
                        requires
                            number > u64::MAX / seconds,
                            seconds >= 1,
                    ;
                    lemma_read_rest_grows(next, s@.skip(i + 1));
                }
                return None;
            }
            assert(number * seconds <= u64::MAX) by (nonlinear_arith)
                requires
                    number <= u64::MAX / seconds,
                    seconds >= 1,
            ;
            let added = number * seconds;
            if rd.total > u64::MAX - added {
                proof {
                    let next = read_char(st, c).unwrap();
                    lemma_read_rest_grows(next, s@.skip(i + 1));
                }
                return None;
            }
            rd.total = rd.total + added;
            rd.next_rank = rank + 1;
            rd.has_number = false;
            rd.number = 0;
            rd.any = true;
            rd.time_any = rd.time_any || rd.in_time;
        }
        proof {
            assert(read_char(st, c) == Some(rd.state()));
        }
        i = i + 1;
    }
    proof {
        assert(s@.skip(n as int).len() == 0);
    }
    if !rd.has_number && rd.any && (!rd.in_time || rd.time_any) {
        Some(rd.total)
    } else {
        None
    }
}

proof fn lemma_digit(d: nat)
    requires
        d < 10,
    ensures
        is_digit(digit_char(d)),
        digit_value(digit_char(d)) == d,
{
}

/// Reading one character, then the rest.
proof fn lemma_read_one(st: DurationState, c: char, rest: Seq<char>)
    ensures
        read_rest(st, seq![c] + rest) == (match read_char(st, c) {
            Some(next) => read_rest(next, rest),
            None => None,
        }),
{
    let s = seq![c] + rest;
    assert(s[0] == c);
    assert(s.drop_first() =~= rest);
}

/// Reading the decimal notation of `n` reads the number `n`.
proof fn lemma_read_decimal(st: DurationState, n: nat, rest: Seq<char>)
    requires
        st.number is None,
    ensures
        read_rest(st, decimal(n) + rest) == read_rest(DurationState { number: Some(n), ..st }, rest),
    decreases n,
{
    if n < 10 {
        lemma_digit(n);
        assert(decimal(n) + rest =~= seq![digit_char(n)] + rest);
        lemma_read_one(st, digit_char(n), rest);
    } else {
        let c = digit_char(n % 10);
        lemma_digit(n % 10);
        assert(decimal(n) + rest =~= decimal(n / 10) + (seq![c] + rest));
        lemma_read_decimal(st, n / 10, seq![c] + rest);
        let st1 = DurationState { number: Some(n / 10), ..st };
        lemma_read_one(st1, c, rest);
        assert((n / 10) * 10 + n % 10 == n);
    }
}

/// A component of a duration: a number and its unit.
pub open spec fn component(n: nat, unit: char) -> Seq<char> {
    decimal(n).push(unit)
}

/// Reading a component whose number starts afresh.
proof fn lemma_read_component(st: DurationState, n: nat, unit: char, rest: Seq<char>)
    requires
        st.number is None,
    ensures
        read_rest(st, component(n, unit) + rest) == (match read_char(
            DurationState { number: Some(n), ..st },
            unit,
        ) {
            Some(next) => read_rest(next, rest),
            None => None,
        }),
{
    assert(component(n, unit) + rest =~= decimal(n) + (seq![unit] + rest));
    lemma_read_decimal(st, n, seq![unit] + rest);
    lemma_read_one(DurationState { number: Some(n), ..st }, unit, rest);
}

/// A duration written in full, `P<w>W<d>DT<h>H<m>M<s>S`, lasts `w` weeks,
/// `d` days, `h` hours, `m` minutes and `s` seconds.
pub proof fn law_duration_components(w: nat, d: nat, h: nat, m: nat, s: nat)
    ensures
        duration_seconds(
            seq!['P'] + component(w, 'W') + component(d, 'D') + seq!['T'] + component(h, 'H') + component(m, 'M')
                + component(s, 'S'),
        ) == Some(604800 * w + 86400 * d + 3600 * h + 60 * m + s),
{
    let c_s = component(s, 'S');
    let r4 = component(m, 'M') + c_s;
    let r3 = component(h, 'H') + r4;
    let r2 = seq!['T'] + r3;
    let r1 = component(d, 'D') + r2;
    let r0 = component(w, 'W') + r1;
    let text = seq!['P'] + component(w, 'W') + component(d, 'D') + seq!['T'] + component(h, 'H') + component(
        m,
        'M',
    ) + c_s;
    assert(text.drop_first() =~= r0);
    assert(text[0] == 'P');
    let st0 = initial_state();
    let st1 = DurationState { next_rank: 1, number: None, total: 604800 * w, any: true, ..st0 };
    assert(read_rest(st0, r0) == read_rest(st1, r1)) by {
        lemma_read_component(st0, w, 'W', r1);
        assert(unit_of('W', false) == Some((0nat, 604800nat)));
        assert(w * 604800nat == 604800 * w);
        assert(read_char(DurationState { number: Some(w), ..st0 }, 'W') == Some(st1));
    }
    let st2 = DurationState { next_rank: 2, total: 604800 * w + 86400 * d, ..st1 };
    assert(read_rest(st1, r1) == read_rest(st2, r2)) by {
        lemma_read_component(st1, d, 'D', r2);
        assert(unit_of('D', false) == Some((1nat, 86400nat)));
        assert(d * 86400nat == 86400 * d);
        assert(read_char(DurationState { number: Some(d), ..st1 }, 'D') == Some(st2));
    }
    let st3 = DurationState { in_time: true, ..st2 };
    assert(read_rest(st2, r2) == read_rest(st3, r3)) by {
        lemma_read_one(st2, 'T', r3);
        assert(read_char(st2, 'T') == Some(st3));
    }
    let st4 = DurationState { next_rank: 3, total: 604800 * w + 86400 * d + 3600 * h, time_any: true, ..st3 };
    assert(read_rest(st3, r3) == read_rest(st4, r4)) by {
        lemma_read_component(st3, h, 'H', r4);
        assert(unit_of('H', true) == Some((2nat, 3600nat)));
        assert(h * 3600nat == 3600 * h);
        assert(read_char(DurationState { number: Some(h), ..st3 }, 'H') == Some(st4));
    }
    let st5 = DurationState { next_rank: 4, total: 604800 * w + 86400 * d + 3600 * h + 60 * m, ..st4 };
    assert(read_rest(st4, r4) == read_rest(st5, c_s)) by {
        lemma_read_component(st4, m, 'M', c_s);
        assert(unit_of('M', true) == Some((3nat, 60nat)));
        assert(m * 60nat == 60 * m);
        assert(read_char(DurationState { number: Some(m), ..st4 }, 'M') == Some(st5));
    }
    let st6 = DurationState { next_rank: 5, total: 604800 * w + 86400 * d + 3600 * h + 60 * m + s, ..st5 };
    assert(read_rest(st5, c_s) == read_rest(st6, Seq::empty())) by {
        assert(c_s =~= c_s + Seq::<char>::empty());
        lemma_read_component(st5, s, 'S', Seq::empty());
        assert(unit_of('S', true) == Some((4nat, 1nat)));
        assert(s * 1nat == 1 * s);
        assert(read_char(DurationState { number: Some(s), ..st5 }, 'S') == Some(st6));
    }
    assert(read_rest(st6, Seq::empty()) == Some(st6.total));
}

} // verus!
