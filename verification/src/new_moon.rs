//! The new moons: the instants at which the moon's longitude equals the
//! sun's.
use vstd::prelude::*;
use crate::angle::{degnorm, lemma_wrap180_difference, mod180, norm360, wrap180};
use crate::ephemeris::{longitude_callable, longitude_is};
use crate::newton::{newton_iteration, newton_spec, residual_is};
use crate::types::{Body, CalendarError};
use crate::units::in_domain;

verus! {

/// From one new moon, the search for the next begins this much later:
/// 29.53 days, the mean length of a lunation.
pub const LUNATION: i64 = 2_551_392_000_000;

/// How far the moon's longitude is ahead of the sun's, folded into
/// `(-180, 180]` degrees, as a function of the instant; where the
/// ephemeris fails, its failure, that for the sun first.
pub open spec fn moon_residual(longitude: spec_fn(i64, Body) -> Result<i64, String>) -> spec_fn(
    i64,
) -> Result<i64, String> {
    |jd: i64|
        match longitude(jd, Body::Sun) {
            Err(e) => Err(e),
            Ok(sun) => match longitude(jd, Body::Moon) {
                Err(e) => Err(e),
                Ok(moon) => Ok(wrap180(moon - sun) as i64),
            },
        }
}

/// The new moon near `jd`, as the root finder finds it.
pub open spec fn get_new_moon_jd_spec(
    longitude: spec_fn(i64, Body) -> Result<i64, String>,
    jd: i64,
) -> Result<i64, CalendarError> {
    newton_spec(moon_residual(longitude), jd)
}

/// The new moon that begins the lunar month of `jd`: the one found from
/// `jd`, unless that one is after `jd`; then the one found from a lunation
/// before `jd`.
pub open spec fn first_new_moon_spec(
    longitude: spec_fn(i64, Body) -> Result<i64, String>,
    jd: i64,
) -> Result<i64, CalendarError> {
    match get_new_moon_jd_spec(longitude, jd) {
        Err(e) => Err(e),
        Ok(t) => if t > jd {
            get_new_moon_jd_spec(longitude, (jd - LUNATION) as i64)
        } else {
            Ok(t)
        },
    }
}

/// The first `n` new moons from the one that begins the lunar month of
/// `jd`: each later one is sought from a lunation after the one before it.
/// The first failure ends the sequence.
pub open spec fn new_moons_spec(
    longitude: spec_fn(i64, Body) -> Result<i64, String>,
    jd: i64,
    n: nat,
) -> Result<Seq<i64>, CalendarError>
    decreases n,
{
    if n == 0 {
        Ok(Seq::empty())
    } else {
        match new_moons_spec(longitude, jd, (n - 1) as nat) {
            Err(e) => Err(e),
            Ok(found) => {
                let next = if n == 1 {
                    first_new_moon_spec(longitude, jd)
                } else {
                    get_new_moon_jd_spec(longitude, (found[n - 2] + LUNATION) as i64)
                };
                match next {
                    Err(e) => Err(e),
                    Ok(t) => Ok(found.push(t)),
                }
            },
        }
    }
}

/// Finds the new moon near `jd`: the one of the lunar month of `jd` where
/// `jd` falls before the full moon, and the next one after it.
pub fn get_new_moon_jd<L>(jd: i64, longitude: &L) -> (r: Result<i64, CalendarError>) where
    L: Fn(i64, Body) -> Result<i64, String>,

    requires
        longitude_callable(longitude),
    ensures
        forall|phi: spec_fn(i64, Body) -> Result<i64, String>| #[trigger]
            longitude_is(longitude, phi) ==> r == get_new_moon_jd_spec(phi, jd),
        r matches Ok(t) ==> in_domain(t as int) && in_domain(jd as int),
        r matches Err(e) ==> e.from_the_sky(),
{
    let f = |at: i64| -> (o: Result<i64, String>)
        ensures
            exists|sun: Result<i64, String>|
                #![trigger longitude.ensures((at, Body::Sun), sun)]
                longitude.ensures((at, Body::Sun), sun) && (match sun {
                    Err(e) => o == Err::<i64, String>(e),
                    Ok(s) => exists|moon: Result<i64, String>|
                        #![trigger longitude.ensures((at, Body::Moon), moon)]
                        longitude.ensures((at, Body::Moon), moon) && o == (match moon {
                            Err(e) => Err::<i64, String>(e),
                            Ok(m) => Ok::<i64, String>(wrap180(m - s) as i64),
                        }),
                }),
        {
            let sun: i64 = match longitude(at, Body::Sun) {
                Ok(s) => s,
                Err(e) => {
                    return Err(e);
                },
            };
            let moon: i64 = match longitude(at, Body::Moon) {
                Ok(m) => m,
                Err(e) => {
                    return Err(e);
                },
            };
            proof {
                lemma_wrap180_difference(moon as int, sun as int);
                lemma_wrap180_difference(moon as int, norm360(sun as int));
            }
            Ok(mod180(degnorm(moon) - degnorm(sun)))
        };
    let ghost g = f;
    let r = newton_iteration(jd, f);
    proof {
        assert forall|phi: spec_fn(i64, Body) -> Result<i64, String>| #[trigger]
            longitude_is(longitude, phi) implies r == get_new_moon_jd_spec(phi, jd) by {
            assert(residual_is(&g, moon_residual(phi)));
        }
    }
    r
}

/// Finds fifteen new moons in a row, from the one that begins the lunar
/// month of `jd`, the instant of a winter solstice.
///
/// The first is sought from `jd`; where that search finds a new moon after
/// `jd`, it is sought again from a lunation before `jd`. Each later new
/// moon is sought from a lunation after the one before it. The first
/// search that fails ends the work with its failure.
pub fn get15_new_moon_jds<L>(jd: i64, longitude: &L) -> (r: Result<[i64; 15], CalendarError>) where
    L: Fn(i64, Body) -> Result<i64, String>,

    requires
        longitude_callable(longitude),
    ensures
        forall|phi: spec_fn(i64, Body) -> Result<i64, String>| #[trigger]
            longitude_is(longitude, phi) ==> (match new_moons_spec(phi, jd, 15) {
                Ok(found) => r matches Ok(jds) && jds@ == found,
                Err(e) => r == Err::<[i64; 15], CalendarError>(e),
            }),
        r matches Ok(jds) ==> (forall|i: int| 0 <= i < 15 ==> in_domain(#[trigger] jds[i] as int)),
        r matches Err(e) ==> e.from_the_sky(),
{
    let mut moon_jds: [i64; 15] = [0i64;15];
    let first: i64 = match get_new_moon_jd(jd, longitude) {
        Ok(t) => {
            if t > jd {
                match get_new_moon_jd(jd - LUNATION, longitude) {
                    Ok(earlier) => earlier,
                    Err(e) => {
                        proof {
                            assert forall|phi: spec_fn(i64, Body) -> Result<i64, String>| #[trigger]
                                longitude_is(longitude, phi) implies new_moons_spec(phi, jd, 15)
                                == Err::<Seq<i64>, CalendarError>(e) by {
                                assert(new_moons_spec(phi, jd, 0) is Ok);
                                assert(new_moons_spec(phi, jd, 1) == Err::<
                                    Seq<i64>,
                                    CalendarError,
                                >(e));
                                lemma_new_moons_failure(phi, jd, 1, 15);
                            }
                        }
                        return Err(e);
                    },
                }
            } else {
                t
            }
        },
        Err(e) => {
            proof {
                assert forall|phi: spec_fn(i64, Body) -> Result<i64, String>| #[trigger]
                    longitude_is(longitude, phi) implies new_moons_spec(phi, jd, 15) == Err::<
                    Seq<i64>,
                    CalendarError,
                >(e) by {
                    assert(new_moons_spec(phi, jd, 0) is Ok);
                    assert(new_moons_spec(phi, jd, 1) == Err::<Seq<i64>, CalendarError>(e));
                    lemma_new_moons_failure(phi, jd, 1, 15);
                }
            }
            return Err(e);
        },
    };
    moon_jds[0] = first;
    proof {
        assert(moon_jds@.take(1) =~= Seq::<i64>::empty().push(first));
        assert forall|phi: spec_fn(i64, Body) -> Result<i64, String>| #[trigger]
            longitude_is(longitude, phi) implies new_moons_spec(phi, jd, 1) == Ok::<
            Seq<i64>,
            CalendarError,
        >(moon_jds@.take(1)) by {
            assert(new_moons_spec(phi, jd, 0) == Ok::<Seq<i64>, CalendarError>(Seq::empty()));
            assert(first_new_moon_spec(phi, jd) == Ok::<i64, CalendarError>(first));
        }
    }
    let mut i: usize = 1;
    while i < 15
        invariant
            1 <= i <= 15,
            longitude_callable(longitude),
            forall|k: int| 0 <= k < i ==> in_domain(#[trigger] moon_jds[k] as int),
            forall|phi: spec_fn(i64, Body) -> Result<i64, String>| #[trigger]
                longitude_is(longitude, phi) ==> new_moons_spec(phi, jd, i as nat) == Ok::<
                    Seq<i64>,
                    CalendarError,
                >(moon_jds@.take(i as int)),
        decreases 15 - i,
    {
        let ghost before = moon_jds@;
        match get_new_moon_jd(moon_jds[i - 1] + LUNATION, longitude) {
            Ok(t) => {
                moon_jds[i] = t;
                proof {
                    assert(moon_jds@.take(i + 1) =~= before.take(i as int).push(t));
                    assert forall|phi: spec_fn(i64, Body) -> Result<i64, String>| #[trigger]
                        longitude_is(longitude, phi) implies new_moons_spec(
                        phi,
                        jd,
                        (i + 1) as nat,
                    ) == Ok::<Seq<i64>, CalendarError>(moon_jds@.take(i + 1)) by {
                        assert(new_moons_spec(phi, jd, i as nat) == Ok::<Seq<i64>, CalendarError>(
                            before.take(i as int),
                        ));
                        assert(before.take(i as int)[i - 1] == before[i - 1]);
                    }
                }
            },
            Err(e) => {
                proof {
                    assert forall|phi: spec_fn(i64, Body) -> Result<i64, String>| #[trigger]
                        longitude_is(longitude, phi) implies new_moons_spec(phi, jd, 15) == Err::<
                        Seq<i64>,
                        CalendarError,
                    >(e) by {
                        assert(new_moons_spec(phi, jd, i as nat) == Ok::<Seq<i64>, CalendarError>(
                            before.take(i as int),
                        ));
                        assert(before.take(i as int)[i - 1] == before[i - 1]);
                        assert(new_moons_spec(phi, jd, (i + 1) as nat) == Err::<
                            Seq<i64>,
                            CalendarError,
                        >(e));
                        lemma_new_moons_failure(phi, jd, (i + 1) as nat, 15);
                    }
                }
                return Err(e);
            },
        }
        i += 1;
    }
    proof {
        assert(moon_jds@.take(15) =~= moon_jds@);
    }
    Ok(moon_jds)
}

/// Once a new moon could not be found, the sequence fails in the same way
/// however far it is asked for.
pub proof fn lemma_new_moons_failure(
    longitude: spec_fn(i64, Body) -> Result<i64, String>,
    jd: i64,
    n: nat,
    m: nat,
)
    requires
        n <= m,
        new_moons_spec(longitude, jd, n) is Err,
    ensures
        new_moons_spec(longitude, jd, m) == new_moons_spec(longitude, jd, n),
    decreases m,
{
    if n < m {
        lemma_new_moons_failure(longitude, jd, n, (m - 1) as nat);
    }
}

} // verus!
