//! Wave animation: mapping wall-clock time to the standing wave's phase.
//!
//! The phase is the fractional part of `time * temporal_frequency`, as a
//! share of one full turn (2π), wrapped into `[0, 2π)`.  Time is carried
//! in nanoseconds and the temporal frequency in microhertz (it may be
//! negative to run the wave backwards), so the product counts femtocycles
//! exactly and the phase is the Euclidean remainder in
//! `[0, TURN_FEMTO)` femtocycles.  The renderer scales this to radians
//! (`phase * 2π / TURN_FEMTO`); it likewise turns the configured spatial
//! frequency into an angular frequency with one multiplication by 2π.

use vstd::prelude::*;
use vstd::arithmetic::div_mod::{
    lemma_fundamental_div_mod, lemma_fundamental_div_mod_converse, lemma_mod_multiples_vanish,
};

verus! {

/// Femtocycles in one full turn of phase: nanoseconds times microhertz.
pub const TURN_FEMTO: i64 = 1_000_000_000_000_000;

/// The wave's phase at the given instant: the fractional part of
/// `time * frequency`, in femtocycles of one turn, always in
/// `[0, TURN_FEMTO)` whatever the signs of the inputs.
pub fn phase_femtocycles(time_ns: i64, temporal_freq_uhz: i64) -> (r: i64)
    ensures
        0 <= r < TURN_FEMTO,
        r == (time_ns * temporal_freq_uhz) % (TURN_FEMTO as int),
{
    proof {
        let tt = time_ns as int;
        let ff = temporal_freq_uhz as int;
        assert(-0x40000000000000000000000000000000int <= tt * ff
            <= 0x40000000000000000000000000000000int) by (nonlinear_arith)
            requires
                -0x8000000000000000int <= tt <= 0x8000000000000000int,
                -0x8000000000000000int <= ff <= 0x8000000000000000int,
        ;
    }
    let prod: i128 = (time_ns as i128) * (temporal_freq_uhz as i128);
    let turn: u128 = TURN_FEMTO as u128;
    if prod >= 0 {
        let r = ((prod as u128) % turn) as i64;
        proof {
            lemma_fundamental_div_mod(prod as int, TURN_FEMTO as int);
        }
        r
    } else {
        let mag: u128 = (-prod) as u128;
        let rem: u128 = mag % turn;
        proof {
            let m = TURN_FEMTO as int;
            let q = (mag as int) / m;
            lemma_fundamental_div_mod(mag as int, m);
            assert((-(q + 1)) * m == -(q * m) - m && (-q) * m == -(q * m)) by (nonlinear_arith);
            if rem == 0 {
                lemma_fundamental_div_mod_converse(prod as int, m, -q, 0);
            } else {
                lemma_fundamental_div_mod_converse(prod as int, m, -(q + 1), m - rem);
            }
        }
        if rem == 0 {
            0i64
        } else {
            (turn - rem) as i64
        }
    }
}

/// Periodicity of the phase: advancing time by any span `d` that holds a
/// whole number of wave periods (`d * f` is a whole number of turns)
/// leaves the phase unchanged.  In particular `d` may be one period,
/// the span worth `1 / temporal_frequency` seconds.
pub proof fn lemma_phase_periodic(t: int, d: int, f: int)
    requires
        (d * f) % (TURN_FEMTO as int) == 0,
    ensures
        ((t + d) * f) % (TURN_FEMTO as int) == (t * f) % (TURN_FEMTO as int),
{
    let m = TURN_FEMTO as int;
    assert((t + d) * f == t * f + d * f) by (nonlinear_arith);
    lemma_fundamental_div_mod(d * f, m);
    lemma_mod_multiples_vanish((d * f) / m, t * f, m);
}

} // verus!
