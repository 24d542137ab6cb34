use vstd::prelude::*;

verus! {

/// The key that surface `i` reported, when it was hit. A key orders hits by
/// their distance along the ray: a smaller key is a nearer hit.
pub open spec fn key_of(reports: Seq<Option<u64>>, i: int) -> u64 {
    reports[i]->Some_0
}

/// Surface `i` is the nearest hit among `reports`: it was hit, no other hit is
/// nearer, and no earlier surface reported a hit at the same distance.
pub open spec fn is_nearest(reports: Seq<Option<u64>>, i: int) -> bool {
    &&& 0 <= i < reports.len()
    &&& reports[i] is Some
    &&& forall|j: int|
        0 <= j < reports.len() && #[trigger] reports[j] is Some ==> {
            &&& key_of(reports, i) <= key_of(reports, j)
            &&& j < i ==> key_of(reports, i) < key_of(reports, j)
        }
}

/// No surface reported a hit.
pub open spec fn all_missed(reports: Seq<Option<u64>>) -> bool {
    forall|j: int| 0 <= j < reports.len() ==> #[trigger] reports[j] is None
}

/// The single pass over the surfaces in order: each hit strictly nearer than the
/// best so far replaces it, so the bound on distance only ever shrinks.
pub open spec fn scan(reports: Seq<Option<u64>>) -> Option<int>
    decreases reports.len(),
{
    if reports.len() == 0 {
        None
    } else {
        let last = reports.len() - 1;
        let before = scan(reports.drop_last());
        match reports[last] {
            None => before,
            Some(k) => match before {
                Some(b) if key_of(reports, b) <= k => before,
                _ => Some(last),
            },
        }
    }
}

proof fn lemma_scan_prefix(reports: Seq<Option<u64>>)
    requires
        reports.len() > 0,
    ensures
        forall|j: int|
            0 <= j < reports.len() - 1 ==> #[trigger] reports.drop_last()[j] == reports[j],
{
}

/// The single narrowing pass finds exactly the hit that a brute-force search for
/// the least distance finds, the first such surface where several tie, and
/// nothing when every surface missed.
pub proof fn lemma_scan_is_brute_force(reports: Seq<Option<u64>>)
    ensures
        scan(reports) is None <==> all_missed(reports),
        scan(reports) matches Some(i) ==> is_nearest(reports, i),
    decreases reports.len(),
{
    if reports.len() > 0 {
        let last = reports.len() - 1;
        let front = reports.drop_last();
        lemma_scan_is_brute_force(front);
        lemma_scan_prefix(reports);
        match reports[last] {
            None => {
                if all_missed(front) {
                    assert forall|j: int| 0 <= j < reports.len() implies #[trigger] reports[j] is None by {
                        if j < last {
                            assert(front[j] is None);
                        }
                    }
                }
                if let Some(b) = scan(front) {
                    assert(front[b] == reports[b]);
                    assert forall|j: int| 0 <= j < reports.len() && #[trigger] reports[j] is Some implies {
                        &&& key_of(reports, b) <= key_of(reports, j)
                        &&& j < b ==> key_of(reports, b) < key_of(reports, j)
                    } by {
                        assert(front[j] == reports[j]);
                    }
                }
            },
            Some(k) => {
                assert(reports[last] is Some);
                match scan(front) {
                    None => {
                        assert forall|j: int| 0 <= j < reports.len() && #[trigger] reports[j] is Some implies {
                            &&& key_of(reports, last) <= key_of(reports, j)
                            &&& j < last ==> key_of(reports, last) < key_of(reports, j)
                        } by {
                            if j < last {
                                assert(front[j] == reports[j]);
                                assert(front[j] is None);
                            }
                        }
                    },
                    Some(b) => {
                        assert(front[b] == reports[b]);
                        if key_of(reports, b) <= k {
                            assert forall|j: int| 0 <= j < reports.len() && #[trigger] reports[j] is Some implies {
                                &&& key_of(reports, b) <= key_of(reports, j)
                                &&& j < b ==> key_of(reports, b) < key_of(reports, j)
                            } by {
                                if j < last {
                                    assert(front[j] == reports[j]);
                                }
                            }
                        } else {
                            assert forall|j: int| 0 <= j < reports.len() && #[trigger] reports[j] is Some implies {
                                &&& key_of(reports, last) <= key_of(reports, j)
                                &&& j < last ==> key_of(reports, last) < key_of(reports, j)
                            } by {
                                if j < last {
                                    assert(front[j] == reports[j]);
                                    assert(front[j] is Some);
                                }
                            }
                        }
                    },
                }
            },
        }
    }
}

/// The nearest hit among what the surfaces of a scene reported, in order, each
/// reduced to the key of its distance or `None` for a miss: the index of the
/// surface whose hit is nearest, the first of them on a tie, or `None` when all
/// of them missed. One pass, in which only a strictly nearer hit replaces the
/// best so far.
pub fn nearest_hit(reports: &Vec<Option<u64>>) -> (r: Option<usize>)
    ensures
        r matches Some(i) ==> scan(reports@) == Some(i as int),
        r is None ==> scan(reports@) is None,
        r is None <==> all_missed(reports@),
        r matches Some(i) ==> is_nearest(reports@, i as int),
{
    let mut best: Option<usize> = None;
    let mut closest: u64 = 0;
    let mut n: usize = 0;
    while n < reports.len()
        invariant
            n <= reports.len(),
            best matches Some(b) ==> b < n && closest == key_of(reports@, b as int),
            best matches Some(b) ==> scan(reports@.subrange(0, n as int)) == Some(b as int),
            best is None ==> scan(reports@.subrange(0, n as int)) is None,
        decreases reports.len() - n,
    {
        assert(reports@.subrange(0, n as int + 1).drop_last() =~= reports@.subrange(0, n as int));
        match reports[n] {
            Some(k) => {
                let nearer = match best {
                    None => true,
                    Some(_) => k < closest,
                };
                if nearer {
                    best = Some(n);
                    closest = k;
                }
            },
            None => {},
        }
        n = n + 1;
    }
    assert(reports@.subrange(0, reports.len() as int) =~= reports@);
    proof {
        lemma_scan_is_brute_force(reports@);
    }
    best
}

} // verus!
