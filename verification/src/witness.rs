//! Witness engine adapter.
//!
//! Normalizes the compiled witness-computation routines — one per
//! circuit, selected by [`WitnessKind`] — behind a single callable
//! shape: JSON inputs in, the ordered assignment of all circuit wires
//! out, or [`WitnessError`].  Signal values are decimal strings of any
//! length, reduced into the circuit's field; the adapter caches
//! nothing — each call recomputes the assignment, and the computation
//! is deterministic.

use vstd::prelude::*;

use crate::error::WitnessError;
use crate::field::{
    digits_mod_fp, digits_wf, fp_of_nat, fp_one, nat_of_digits, p254, p254_fp, product_mod_fp, Fp,
};
use crate::inputs::{digits_view, parse_inputs, signals_view, spec_parse, Signal, SignalModel};

verus! {

/// The compiled witness routines this library is built with.  Adding a
/// circuit means adding a variant here and registering it; the
/// dispatcher never changes.
#[derive(Clone, Copy, Debug, PartialEq, Eq, Structural)]
pub enum WitnessKind {
    /// Two private signals `a` and `b`; one public output, their
    /// product in the field.
    Multiplier2,
}

/// How many public signals the circuit discloses to the verifier.
pub open spec fn public_count(kind: WitnessKind) -> nat {
    match kind {
        WitnessKind::Multiplier2 => 1,
    }
}

pub fn public_count_exec(kind: WitnessKind) -> (n: usize)
    ensures
        n == public_count(kind),
{
    match kind {
        WitnessKind::Multiplier2 => 1,
    }
}

/// The values of the first signal named `name`, if any.
pub open spec fn find_signal(sigs: Seq<SignalModel>, name: Seq<char>) -> Option<Seq<Seq<u8>>>
    decreases sigs.len(),
{
    if sigs.len() == 0 {
        None
    } else if sigs[0].name == name {
        Some(sigs[0].values)
    } else {
        find_signal(sigs.drop_first(), name)
    }
}

/// The full wire assignment of the circuit for the given parsed
/// signals: the constant wire `1`, then the public outputs, then the
/// private inputs, each a field element.  `None` when a required
/// signal is missing or has the wrong shape.
pub open spec fn spec_assignment(kind: WitnessKind, sigs: Seq<SignalModel>) -> Option<Seq<Fp>> {
    match kind {
        WitnessKind::Multiplier2 => match (find_signal(sigs, "a"@), find_signal(sigs, "b"@)) {
            (Some(av), Some(bv)) => if av.len() == 1 && bv.len() == 1 && digits_wf(av[0])
                && digits_wf(bv[0]) {
                Some(
                    seq![
                        fp_of_nat(1),
                        fp_of_nat((nat_of_digits(av[0]) * nat_of_digits(bv[0])) % p254()),
                        fp_of_nat(nat_of_digits(av[0]) % p254()),
                        fp_of_nat(nat_of_digits(bv[0]) % p254()),
                    ],
                )
            } else {
                None
            },
            _ => None,
        },
    }
}

/// What the adapter computes from the raw input string: parse, then
/// evaluate the circuit's witness routine.
pub open spec fn spec_compute(kind: WitnessKind, input: Seq<char>) -> Option<Seq<Fp>> {
    match spec_parse(input) {
        None => None,
        Some(sigs) => spec_assignment(kind, sigs),
    }
}

fn name_matches(name: &Vec<char>, s: &str) -> (b: bool)
    ensures
        b == (name@ == s@),
{
    let n = s.unicode_len();
    if name.len() != n {
        return false;
    }
    let mut i: usize = 0;
    while i < n
        invariant
            i <= n,
            n == s@.len(),
            name@.len() == n,
            forall|k: int| 0 <= k < i ==> name@[k] == s@[k],
        decreases n - i,
    {
        if name[i] != s.get_char(i) {
            return false;
        }
        i += 1;
    }
    proof {
        assert(name@ =~= s@);
    }
    true
}

fn find_signal_exec<'a>(sigs: &'a Vec<Signal>, name: &str) -> (r: Option<&'a Vec<Vec<u8>>>)
    ensures
        match r {
            Some(v) => find_signal(signals_view(sigs@), name@) == Some(digits_view(v@)),
            None => find_signal(signals_view(sigs@), name@) is None,
        },
{
    let n = sigs.len();
    let mut i: usize = 0;
    proof {
        assert(signals_view(sigs@).skip(0) =~= signals_view(sigs@));
    }
    while i < n
        invariant
            i <= n,
            n == sigs@.len(),
            find_signal(signals_view(sigs@), name@) == find_signal(
                signals_view(sigs@).skip(i as int),
                name@,
            ),
        decreases n - i,
    {
        proof {
            assert(signals_view(sigs@).skip(i as int)[0] == signals_view(sigs@)[i as int]);
            assert(signals_view(sigs@).skip(i as int).drop_first() =~= signals_view(sigs@).skip(
                i as int + 1,
            ));
        }
        if name_matches(&sigs[i].name, name) {
            return Some(&sigs[i].values);
        }
        i += 1;
    }
    proof {
        assert(signals_view(sigs@).skip(n as int) =~= Seq::<SignalModel>::empty());
    }
    None
}

fn digits_ok(v: &Vec<u8>) -> (b: bool)
    ensures
        b == digits_wf(v@),
{
    let n = v.len();
    let mut i: usize = 0;
    while i < n
        invariant
            i <= n,
            n == v@.len(),
            forall|k: int| 0 <= k < i ==> v@[k] < 10,
        decreases n - i,
    {
        if v[i] >= 10 {
            return false;
        }
        i += 1;
    }
    true
}

/// Evaluates the circuit's witness routine over already-parsed
/// signals.
///
/// Returns the assignment exactly when the signals provide everything
/// the circuit expects, in the shape it expects (one decimal value per
/// required signal); everything else yields `InvalidInput`.
pub fn compute_assignment(kind: WitnessKind, sigs: &Vec<Signal>) -> (r: Result<
    Vec<Fp>,
    WitnessError,
>)
    ensures
        match r {
            Ok(w) => spec_assignment(kind, signals_view(sigs@)) == Some(w@),
            Err(e) => spec_assignment(kind, signals_view(sigs@)) is None && e
                == WitnessError::InvalidInput,
        },
{
    match kind {
        WitnessKind::Multiplier2 => {
            let av = match find_signal_exec(sigs, "a") {
                Some(v) => v,
                None => {
                    return Err(WitnessError::InvalidInput);
                },
            };
            let bv = match find_signal_exec(sigs, "b") {
                Some(v) => v,
                None => {
                    return Err(WitnessError::InvalidInput);
                },
            };
            if av.len() != 1 || bv.len() != 1 {
                return Err(WitnessError::InvalidInput);
            }
            proof {
                assert(digits_view(av@)[0] == av@[0]@);
                assert(digits_view(bv@)[0] == bv@[0]@);
            }
            if !digits_ok(&av[0]) || !digits_ok(&bv[0]) {
                return Err(WitnessError::InvalidInput);
            }
            let p = p254_fp();
            let a_fp = digits_mod_fp(&av[0], &p);
            let b_fp = digits_mod_fp(&bv[0], &p);
            let c_fp = product_mod_fp(&av[0], &bv[0], &p);
            let mut w: Vec<Fp> = Vec::new();
            w.push(fp_one());
            w.push(c_fp);
            w.push(a_fp);
            w.push(b_fp);
            proof {
                assert(w@ =~= spec_assignment(kind, signals_view(sigs@))->Some_0);
            }
            Ok(w)
        },
    }
}

/// Computes the circuit's wire assignment from one raw input string.
///
/// Returns the assignment exactly when the inputs parse and provide
/// every signal the circuit expects, in the shape it expects; every
/// other input yields `InvalidInput`.
pub fn compute_witness(kind: WitnessKind, inputs: &str) -> (r: Result<Vec<Fp>, WitnessError>)
    ensures
        match r {
            Ok(w) => spec_compute(kind, inputs@) == Some(w@),
            Err(e) => spec_compute(kind, inputs@) is None && e == WitnessError::InvalidInput,
        },
{
    let sigs = match parse_inputs(inputs) {
        Ok(s) => s,
        Err(e) => {
            return Err(e);
        },
    };
    compute_assignment(kind, &sigs)
}

} // verus!
