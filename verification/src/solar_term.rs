//! The solar terms: the instants at which the sun's longitude reaches a
//! multiple of 15 degrees.
use vstd::prelude::*;
use crate::angle::{degnorm, lemma_wrap180_difference, mod180, wrap180};
use crate::ephemeris::{longitude_callable, longitude_is};
use crate::newton::{newton_iteration, newton_spec, residual_is};
use crate::types::{Body, CalendarError};
use crate::units::{DEGREE, in_domain};

verus! {

/// From one solar term, the search for the next begins this much later:
/// fifteen days.
pub const SOLAR_TERM_STEP: i64 = 1_296_000_000_000;

/// The sun's longitude at the winter solstice, in degrees.
pub const WINTER_SOLSTICE: i64 = 270;

/// The sun's longitude at term `i` counted from a winter solstice, in
/// angle units: 15 degrees further for each term, round the circle.
pub open spec fn solar_term_longitude(i: int) -> int {
    ((WINTER_SOLSTICE + 15 * i) % 360) * DEGREE
}

/// How far the sun's longitude is from `angle`, folded into
/// `(-180, 180]` degrees, as a function of the instant; where the
/// ephemeris fails, its failure.
pub open spec fn sun_residual(
    longitude: spec_fn(i64, Body) -> Result<i64, String>,
    angle: i64,
) -> spec_fn(i64) -> Result<i64, String> {
    |jd: i64|
        match longitude(jd, Body::Sun) {
            Ok(sun) => Ok(wrap180(sun - angle) as i64),
            Err(e) => Err(e),
        }
}

/// The instant near `x` at which the sun's longitude is `angle`, as the
/// root finder finds it.
pub open spec fn sun_long_to_jd_spec(
    longitude: spec_fn(i64, Body) -> Result<i64, String>,
    x: i64,
    angle: i64,
) -> Result<i64, CalendarError> {
    newton_spec(sun_residual(longitude, angle), x)
}

/// The first `n` of the solar terms from a winter solstice on: the first
/// is sought from `seed` at 270 degrees, each later one from fifteen days
/// after the one before it, 15 degrees further on. The first failure ends
/// the sequence.
pub open spec fn solar_terms_spec(
    longitude: spec_fn(i64, Body) -> Result<i64, String>,
    seed: i64,
    n: nat,
) -> Result<Seq<i64>, CalendarError>
    decreases n,
{
    if n == 0 {
        Ok(Seq::empty())
    } else {
        match solar_terms_spec(longitude, seed, (n - 1) as nat) {
            Err(e) => Err(e),
            Ok(found) => {
                let start = if n == 1 {
                    seed
                } else {
                    (found[n - 2] + SOLAR_TERM_STEP) as i64
                };
                match sun_long_to_jd_spec(
                    longitude,
                    start,
                    solar_term_longitude(n - 1) as i64,
                ) {
                    Err(e) => Err(e),
                    Ok(t) => Ok(found.push(t)),
                }
            },
        }
    }
}

/// The sun's longitude at term `i` counted from a winter solstice.
pub fn solar_term_angle(i: usize) -> (r: i64)
    ensures
        r == solar_term_longitude(i as int),
        0 <= r < 360 * DEGREE,
{
    proof {
        // Twenty-four terms make the circle: 15 * i and 15 * (i mod 24)
        // differ by whole turns.
        let q = (i as int) / 24;
        let k = (i as int) % 24;
        vstd::arithmetic::div_mod::lemma_fundamental_div_mod(i as int, 24);
        assert(WINTER_SOLSTICE + 15 * i == 360 * q + (WINTER_SOLSTICE + 15 * k));
        vstd::arithmetic::div_mod::lemma_mod_multiples_vanish(q, WINTER_SOLSTICE + 15 * k, 360);
    }
    let degrees: i64 = (WINTER_SOLSTICE + 15 * ((i % 24) as i64)) % 360;
    degrees * DEGREE
}

/// Finds the instant near `x` at which the sun's longitude is `angle`.
pub fn sun_long_to_jd<L>(x: i64, angle: i64, longitude: &L) -> (r: Result<i64, CalendarError>) where
    L: Fn(i64, Body) -> Result<i64, String>,

    requires
        longitude_callable(longitude),
    ensures
        forall|phi: spec_fn(i64, Body) -> Result<i64, String>| #[trigger]
            longitude_is(longitude, phi) ==> r == sun_long_to_jd_spec(phi, x, angle),
        r matches Ok(t) ==> in_domain(t as int) && in_domain(x as int),
        r matches Err(e) ==> e.from_the_sky(),
{
    let f = |jd: i64| -> (o: Result<i64, String>)
        ensures
            exists|got: Result<i64, String>|
                #![trigger longitude.ensures((jd, Body::Sun), got)]
                longitude.ensures((jd, Body::Sun), got) && o == (match got {
                    Ok(sun) => Ok::<i64, String>(wrap180(sun - angle) as i64),
                    Err(e) => Err::<i64, String>(e),
                }),
        {
            match longitude(jd, Body::Sun) {
                Ok(sun) => {
                    proof {
                        lemma_wrap180_difference(sun as int, angle as int);
                        lemma_wrap180_difference(sun as int, crate::angle::norm360(angle as int));
                    }
                    Ok(mod180(degnorm(sun) - degnorm(angle)))
                },
                Err(e) => Err(e),
            }
        };
    let ghost g = f;
    let r = newton_iteration(x, f);
    proof {
        assert forall|phi: spec_fn(i64, Body) -> Result<i64, String>| #[trigger]
            longitude_is(longitude, phi) implies r == sun_long_to_jd_spec(phi, x, angle) by {
            assert(residual_is(&g, sun_residual(phi, angle)));
        }
    }
    r
}

/// Finds the twenty-five solar terms from one winter solstice to the
/// next.
///
/// `seed` is an instant near the first solstice. The first term is sought
/// from it, at a longitude of 270 degrees; each later term is sought from
/// fifteen days after the one before it, 15 degrees further on, so that
/// the last is the next winter solstice. The first search that fails ends
/// the work with its failure.
pub fn get25_solar_term_jds<L>(seed: i64, longitude: &L) -> (r: Result<
    [i64; 25],
    CalendarError,
>) where
    L: Fn(i64, Body) -> Result<i64, String>,

    requires
        longitude_callable(longitude),
    ensures
        forall|phi: spec_fn(i64, Body) -> Result<i64, String>| #[trigger]
            longitude_is(longitude, phi) ==> (match solar_terms_spec(phi, seed, 25) {
                Ok(found) => r matches Ok(jds) && jds@ == found,
                Err(e) => r == Err::<[i64; 25], CalendarError>(e),
            }),
        r matches Ok(jds) ==> (forall|i: int| 0 <= i < 25 ==> in_domain(#[trigger] jds[i] as int)),
        r matches Err(e) ==> e.from_the_sky(),
{
    let mut jds: [i64; 25] = [0i64;25];
    let mut i: usize = 0;
    assert(jds@.take(0) =~= Seq::<i64>::empty());
    while i < 25
        invariant
            i <= 25,
            longitude_callable(longitude),
            forall|k: int| 0 <= k < i ==> in_domain(#[trigger] jds[k] as int),
            forall|phi: spec_fn(i64, Body) -> Result<i64, String>| #[trigger]
                longitude_is(longitude, phi) ==> solar_terms_spec(phi, seed, i as nat) == Ok::<
                    Seq<i64>,
                    CalendarError,
                >(jds@.take(i as int)),
        decreases 25 - i,
    {
        let start: i64 = if i == 0 {
            seed
        } else {
            jds[i - 1] + SOLAR_TERM_STEP
        };
        let angle: i64 = solar_term_angle(i);
        let ghost before = jds@;
        match sun_long_to_jd(start, angle, longitude) {
            Ok(t) => {
                jds[i] = t;
                proof {
                    assert(jds@.take(i + 1) =~= before.take(i as int).push(t));
                    assert forall|phi: spec_fn(i64, Body) -> Result<i64, String>| #[trigger]
                        longitude_is(longitude, phi) implies solar_terms_spec(
                        phi,
                        seed,
                        (i + 1) as nat,
                    ) == Ok::<Seq<i64>, CalendarError>(jds@.take(i + 1)) by {
                        assert(solar_terms_spec(phi, seed, i as nat) == Ok::<
                            Seq<i64>,
                            CalendarError,
                        >(before.take(i as int)));
                        if i > 0 {
                            assert(before.take(i as int)[i - 1] == before[i - 1]);
                        }
                    }
                }
            },
            Err(e) => {
                proof {
                    assert forall|phi: spec_fn(i64, Body) -> Result<i64, String>| #[trigger]
                        longitude_is(longitude, phi) implies solar_terms_spec(phi, seed, 25) == Err::<
                        Seq<i64>,
                        CalendarError,
                    >(e) by {
                        assert(solar_terms_spec(phi, seed, i as nat) == Ok::<
                            Seq<i64>,
                            CalendarError,
                        >(before.take(i as int)));
                        if i > 0 {
                            assert(before.take(i as int)[i - 1] == before[i - 1]);
                        }
                        assert(solar_terms_spec(phi, seed, (i + 1) as nat) == Err::<
                            Seq<i64>,
                            CalendarError,
                        >(e));
                        lemma_solar_terms_failure(phi, seed, (i + 1) as nat, 25);
                    }
                }
                return Err(e);
            },
        }
        i += 1;
    }
    proof {
        assert(jds@.take(25) =~= jds@);
    }
    Ok(jds)
}

/// Once a solar term could not be found, the sequence fails in the same
/// way however far it is asked for.
pub proof fn lemma_solar_terms_failure(
    longitude: spec_fn(i64, Body) -> Result<i64, String>,
    seed: i64,
    n: nat,
    m: nat,
)
    requires
        n <= m,
        solar_terms_spec(longitude, seed, n) is Err,
    ensures
        solar_terms_spec(longitude, seed, m) == solar_terms_spec(longitude, seed, n),
    decreases m,
{
    if n < m {
        lemma_solar_terms_failure(longitude, seed, n, (m - 1) as nat);
    }
}

} // verus!
