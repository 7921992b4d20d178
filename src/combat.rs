use vstd::prelude::*;

verus! {

/// A hit: the index of a laser and of the enemy it destroys.
pub type Hit = (usize, usize);

/// The overlap table as plain sequences: `m[l][e]` says whether laser `l`
/// overlaps enemy `e`.
pub open spec fn overlap_view(overlaps: &Vec<Vec<bool>>) -> Seq<Seq<bool>> {
    overlaps@.map_values(|row: Vec<bool>| row@)
}

/// Enemy `e` is destroyed by one of `hits`.
pub open spec fn taken(hits: Seq<Hit>, e: int) -> bool {
    exists|k: int| 0 <= k < hits.len() && hits[k].1 == e
}

/// The first enemy at or after `j` that `row` overlaps and that none of `hits`
/// has destroyed.
pub open spec fn first_free(row: Seq<bool>, hits: Seq<Hit>, j: int) -> Option<int>
    decreases row.len() - j,
{
    if j < 0 || j >= row.len() {
        None
    } else if row[j] && !taken(hits, j) {
        Some(j)
    } else {
        first_free(row, hits, j + 1)
    }
}

/// The hits of the first `n` lasers: in turn, each laser destroys the first
/// enemy it overlaps that an earlier laser has not destroyed, and is spent.
pub open spec fn laser_hits(m: Seq<Seq<bool>>, n: int) -> Seq<Hit>
    decreases n,
{
    if n <= 0 {
        Seq::empty()
    } else {
        let prev = laser_hits(m, n - 1);
        match first_free(m[n - 1], prev, 0) {
            Some(e) => prev.push(((n - 1) as usize, e as usize)),
            None => prev,
        }
    }
}

proof fn lemma_first_free_sound(row: Seq<bool>, hits: Seq<Hit>, j: int)
    ensures
        first_free(row, hits, j) matches Some(e) ==> j <= e < row.len() && row[e] && !taken(
            hits,
            e,
        ),
    decreases row.len() - j,
{
    if 0 <= j < row.len() && !(row[j] && !taken(hits, j)) {
        lemma_first_free_sound(row, hits, j + 1);
    }
}

/// Every hit pairs a laser with an enemy that it overlaps; lasers come in
/// increasing order, so none hits twice; and no enemy is destroyed twice.
pub proof fn lemma_laser_hits_match(m: Seq<Seq<bool>>, n: int)
    requires
        0 <= n <= m.len() <= usize::MAX,
        forall|l: int| 0 <= l < m.len() ==> #[trigger] m[l].len() <= usize::MAX,
    ensures
        forall|k: int|
            0 <= k < laser_hits(m, n).len() ==> {
                let h = #[trigger] laser_hits(m, n)[k];
                &&& h.0 < n
                &&& h.1 < m[h.0 as int].len()
                &&& m[h.0 as int][h.1 as int]
            },
        forall|k1: int, k2: int|
            0 <= k1 < k2 < laser_hits(m, n).len() ==> laser_hits(m, n)[k1].0 < laser_hits(
                m,
                n,
            )[k2].0 && laser_hits(m, n)[k1].1 != laser_hits(m, n)[k2].1,
    decreases n,
{
    if n > 0 {
        let prev = laser_hits(m, n - 1);
        lemma_laser_hits_match(m, n - 1);
        lemma_first_free_sound(m[n - 1], prev, 0);
        if let Some(e) = first_free(m[n - 1], prev, 0) {
            let cur = laser_hits(m, n);
            assert(cur == prev.push(((n - 1) as usize, e as usize)));
            assert forall|k1: int, k2: int| 0 <= k1 < k2 < cur.len() implies cur[k1].0 < cur[
                k2
            ].0 && cur[k1].1 != cur[k2].1 by {
                if k2 == cur.len() - 1 {
                    assert(prev[k1].1 != e);
                }
            }
        }
    }
}

/// Whether enemy `e` is destroyed by one of `hits`.
fn is_taken(hits: &Vec<Hit>, e: usize) -> (b: bool)
    ensures
        b == taken(hits@, e as int),
{
    let mut k: usize = 0;
    while k < hits.len()
        invariant
            k <= hits.len(),
            forall|i: int| 0 <= i < k ==> hits@[i].1 != e,
        decreases hits.len() - k,
    {
        if hits[k].1 == e {
            return true;
        }
        k = k + 1;
    }
    false
}

proof fn lemma_first_free_skip(row: Seq<bool>, hits: Seq<Hit>, j: int)
    requires
        0 <= j < row.len(),
        !(row[j] && !taken(hits, j)),
    ensures
        first_free(row, hits, j) == first_free(row, hits, j + 1),
{
}

/// The laser hits of one tick. `overlaps[l][e]` says whether laser `l`
/// overlaps enemy `e`. Lasers are taken in order; each destroys the first
/// enemy it overlaps that no earlier laser has destroyed, and is then spent.
/// So a laser destroys at most one enemy, and an enemy falls to at most one
/// laser.
pub fn resolve_laser_hits(overlaps: &Vec<Vec<bool>>) -> (hits: Vec<Hit>)
    ensures
        hits@ == laser_hits(overlap_view(overlaps), overlaps@.len() as int),
{
    let ghost m = overlap_view(overlaps);
    let mut hits: Vec<Hit> = Vec::new();
    let mut l: usize = 0;
    while l < overlaps.len()
        invariant
            l <= overlaps.len(),
            m == overlap_view(overlaps),
            hits@ == laser_hits(m, l as int),
        decreases overlaps.len() - l,
    {
        let row = &overlaps[l];
        assert(m[l as int] == row@);
        let mut e: usize = 0;
        let mut found: Option<usize> = None;
        while e < row.len()
            invariant_except_break
                found is None,
            invariant
                e <= row.len(),
                first_free(row@, hits@, 0) == first_free(row@, hits@, e as int),
            ensures
                found matches Some(k) ==> first_free(row@, hits@, 0) == Some(k as int) && k
                    < row.len(),
                found is None ==> first_free(row@, hits@, 0) is None,
            decreases row.len() - e,
        {
            if row[e] && !is_taken(&hits, e) {
                found = Some(e);
                break;
            }
            proof {
                lemma_first_free_skip(row@, hits@, e as int);
            }
            e = e + 1;
        }
        match found {
            Some(e) => {
                hits.push((l, e));
            },
            None => {},
        }
        l = l + 1;
    }
    hits
}

/// The first laser that overlaps the player, if any: that one hits, and the
/// others fly on.
pub fn first_hit(overlaps: &Vec<bool>) -> (r: Option<usize>)
    ensures
        r matches Some(i) ==> i < overlaps@.len() && overlaps@[i as int] && forall|k: int|
            0 <= k < i ==> !overlaps@[k],
        r is None ==> forall|k: int| 0 <= k < overlaps@.len() ==> !overlaps@[k],
{
    let mut i: usize = 0;
    while i < overlaps.len()
        invariant
            i <= overlaps.len(),
            forall|k: int| 0 <= k < i ==> !overlaps@[k],
        decreases overlaps.len() - i,
    {
        if overlaps[i] {
            return Some(i);
        }
        i = i + 1;
    }
    None
}

} // verus!
