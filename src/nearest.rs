use vstd::prelude::*;

verus! {

/// Whether `distances[i]` is a hit no farther than any other, and strictly
/// nearer than every hit listed before it.
pub open spec fn is_first_nearest(distances: Seq<Option<u64>>, i: int) -> bool {
    &&& 0 <= i < distances.len()
    &&& distances[i] is Some
    &&& forall|j: int|
        0 <= j < distances.len() && #[trigger] distances[j] is Some ==> {
            &&& distances[i]->0 <= distances[j]->0
            &&& j < i ==> distances[i]->0 < distances[j]->0
        }
}

/// Index of the nearest hit among the objects tested in list order, each
/// either a miss (`None`) or the distance at which the ray meets it, given as
/// an order-preserving key. Ties go to the object listed first; `None` when
/// every object is missed.
pub fn nearest_hit(distances: &[Option<u64>]) -> (r: Option<usize>)
    ensures
        r is None <==> forall|j: int| 0 <= j < distances@.len() ==> #[trigger] distances@[j] is None,
        r matches Some(i) ==> is_first_nearest(distances@, i as int),
{
    let mut best: Option<usize> = None;
    for k in 0..distances.len()
        invariant
            best is None <==> forall|j: int| 0 <= j < k ==> #[trigger] distances@[j] is None,
            best matches Some(i) ==> {
                &&& i < k
                &&& distances@[i as int] is Some
                &&& forall|j: int|
                    0 <= j < k && #[trigger] distances@[j] is Some ==> {
                        &&& distances@[i as int]->0 <= distances@[j]->0
                        &&& j < i ==> distances@[i as int]->0 < distances@[j]->0
                    }
            },
    {
        if let Some(d) = distances[k] {
            match best {
                Some(i) => {
                    if let Some(b) = distances[i] {
                        if d < b {
                            best = Some(k);
                        }
                    }
                },
                None => {
                    best = Some(k);
                },
            }
        }
    }
    best
}

} // verus!
