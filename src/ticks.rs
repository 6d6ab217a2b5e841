use vstd::prelude::*;

use crate::text::{day_label, day_of};

verus! {

/// A vertical mark at an hourly sample, with its `day/hour:00` label.
#[derive(Debug)]
pub struct Tick {
    /// Index of the hourly sample the mark stands at.
    pub x: usize,
    /// Clock hour of the mark: 8 or 20.
    pub hour: u8,
    pub label: String,
}

/// Samples that one round of the walk over a series steps over: 9 to reach
/// the 08:00 mark, then 12 more to reach the 20:00 mark.
pub const ROUND: usize = 21;

/// How many marks a series of `n` samples gets. The walk steps 9 samples to
/// a day's 08:00 mark and, if 12 more are there, to its 20:00 mark, then
/// goes on from where it stopped; it ends at the first step that runs past
/// the series. So round `c` has its 08:00 mark iff `21 c + 8 < n`, and its
/// 20:00 mark iff `21 c + 20 < n`.
pub open spec fn tick_count(n: nat) -> nat {
    2 * (n / 21) + if n % 21 > 8 {
        1nat
    } else {
        0nat
    }
}

/// The clock hour of the `j`-th mark.
pub open spec fn tick_hour(j: int) -> int {
    if j % 2 == 0 {
        8
    } else {
        20
    }
}

/// The position of the `j`-th mark: round `j / 2` stands for day `j / 2`
/// of a series of 24 samples per day, at the mark's hour.
pub open spec fn tick_x(j: int) -> int {
    24 * (j / 2) + tick_hour(j)
}

/// The day of month of day `c`: that of its first timestamp, or `??` where
/// the timestamps do not reach it.
pub open spec fn day_at(ts: Seq<String>, c: int) -> Seq<char> {
    if 24 * c < ts.len() {
        day_of(ts[24 * c]@)
    } else {
        seq!['?', '?']
    }
}

/// The label of the `j`-th mark: the day of month of its day, then `/8:00`
/// or `/20:00`.
pub open spec fn tick_label(ts: Seq<String>, j: int) -> Seq<char> {
    day_at(ts, j / 2) + if j % 2 == 0 {
        seq!['/', '8', ':', '0', '0']
    } else {
        seq!['/', '2', '0', ':', '0', '0']
    }
}

/// `t` is the `j`-th mark for the hourly timestamps `ts`.
pub open spec fn is_tick(t: Tick, ts: Seq<String>, j: int) -> bool {
    &&& t.x == tick_x(j)
    &&& t.hour == tick_hour(j)
    &&& t.label@ == tick_label(ts, j)
}

fn make_tick(timestamps: &[String], day: usize, evening: bool) -> (t: Tick)
    requires
        24 * day + 20 <= usize::MAX,
    ensures
        t.x == 24 * day + (if evening { 20int } else { 8int }),
        t.hour == (if evening { 20int } else { 8int }),
        t.label@ == day_at(timestamps@, day as int) + if evening {
            seq!['/', '2', '0', ':', '0', '0']
        } else {
            seq!['/', '8', ':', '0', '0']
        },
{
    let first = 24 * day;
    let mut label = if first < timestamps.len() {
        day_label(timestamps[first].as_str())
    } else {
        proof { reveal_strlit("??"); }
        String::from_str("??")
    };
    if evening {
        proof { reveal_strlit("/20:00"); }
        label.append("/20:00");
        Tick { x: first + 20, hour: 20, label }
    } else {
        proof { reveal_strlit("/8:00"); }
        label.append("/8:00");
        Tick { x: first + 8, hour: 8, label }
    }
}

/// The day marks of a chart of `n` hourly samples whose times are
/// `timestamps`: a series from midnight with 24 samples per day is assumed.
/// The walk steps 9 samples to a day's 08:00 mark and, where 12 more are
/// there, to its 20:00 mark, and repeats from where it stopped until a step
/// runs past the `n` samples. Labels come from the first timestamp of each
/// day, or read `??` where the timestamps do not reach it.
pub fn day_ticks(n: usize, timestamps: &[String]) -> (r: Vec<Tick>)
    requires
        n <= usize::MAX / 2,
    ensures
        r@.len() == tick_count(n as nat),
        forall|j: int| 0 <= j < r@.len() ==> is_tick(#[trigger] r@[j], timestamps@, j),
{
    let rounds = n / ROUND;
    let rest = n % ROUND;
    proof {
        vstd::arithmetic::div_mod::lemma_fundamental_div_mod(n as int, 21);
    }
    let mut ticks: Vec<Tick> = Vec::new();
    let mut c: usize = 0;
    while c <= rounds
        invariant
            n <= usize::MAX / 2,
            rounds == n / 21,
            rest == n % 21,
            n == 21 * rounds + rest,
            c <= rounds + 1,
            ticks@.len() == if c <= rounds { 2 * c } else { tick_count(n as nat) as int },
            forall|j: int| 0 <= j < ticks@.len() ==> is_tick(#[trigger] ticks@[j], timestamps@, j),
        decreases rounds + 1 - c,
    {
        let left = n - ROUND * c;
        assert(24 * c + 20 <= usize::MAX) by (nonlinear_arith)
            requires
                21 * c <= n,
                n <= usize::MAX / 2,
        ;
        if left > 8 {
            let t = make_tick(timestamps, c, false);
            let ghost j = 2 * c as int;
            assert(j / 2 == c && j % 2 == 0);
            ticks.push(t);
            if left > 20 {
                let t = make_tick(timestamps, c, true);
                assert((j + 1) / 2 == c && (j + 1) % 2 == 1);
                ticks.push(t);
            }
        }
        proof {
            if c < rounds {
                assert(left >= 21);
            } else {
                assert(left == rest);
            }
        }
        c = c + 1;
    }
    ticks
}

} // verus!
