//! Changed-file list helpers: keeping the paths that decoded, and
//! removing duplicates from a working-tree status listing.

use vstd::prelude::*;

verus! {

/// The views of a list of strings.
pub open spec fn views_of(v: Seq<String>) -> Seq<Seq<char>> {
    v.map_values(|p: String| p@)
}

/// The views of the present entries of a list of optional strings,
/// in order.
pub open spec fn some_views(s: Seq<Option<String>>) -> Seq<Seq<char>>
    decreases s.len(),
{
    if s.len() == 0 {
        Seq::empty()
    } else {
        some_views(s.drop_last()) + (match s.last() {
            Some(p) => seq![p@],
            None => Seq::<Seq<char>>::empty(),
        })
    }
}

/// Keep the paths that are present, in order.
pub fn present_paths(v: &Vec<Option<String>>) -> (r: Vec<String>)
    ensures
        views_of(r@) == some_views(v@),
{
    let n = v.len();
    let mut out: Vec<String> = Vec::new();
    let mut i: usize = 0;
    while i < n
        invariant
            i <= n,
            n == v@.len(),
            views_of(out@) == some_views(v@.subrange(0, i as int)),
        decreases n - i,
    {
        if let Some(p) = &v[i] {
            out.push(p.clone());
        }
        i += 1;
        proof {
            let sub = v@.subrange(0, i as int);
            assert(sub.drop_last() =~= v@.subrange(0, i - 1));
            assert(sub.last() == v@[i - 1]);
            assert(views_of(out@) =~= some_views(sub));
        }
    }
    proof {
        assert(v@.subrange(0, n as int) =~= v@);
    }
    out
}

fn holds_view(v: &Vec<String>, x: &String) -> (r: bool)
    ensures
        r == views_of(v@).contains(x@),
{
    let n = v.len();
    let mut i: usize = 0;
    while i < n
        invariant
            i <= n,
            n == v@.len(),
            forall|k: int| 0 <= k < i ==> v@[k]@ != x@,
        decreases n - i,
    {
        if v[i] == *x {
            proof {
                assert(views_of(v@)[i as int] == x@);
            }
            return true;
        }
        i += 1;
    }
    proof {
        assert(!views_of(v@).contains(x@)) by {
            if views_of(v@).contains(x@) {
                let k = choose|k: int| 0 <= k < views_of(v@).len() && views_of(v@)[k] == x@;
                assert(v@[k]@ == x@);
            }
        }
    }
    false
}

/// Remove duplicates, keeping each path's first occurrence: the
/// result lists exactly the distinct paths of the input.
pub fn dedup_paths(v: &Vec<String>) -> (r: Vec<String>)
    ensures
        forall|i: int, j: int| 0 <= i < j < r@.len() ==> r@[i]@ != r@[j]@,
        forall|x: Seq<char>| views_of(r@).contains(x) <==> views_of(v@).contains(x),
{
    let n = v.len();
    let mut out: Vec<String> = Vec::new();
    let mut i: usize = 0;
    while i < n
        invariant
            i <= n,
            n == v@.len(),
            forall|a: int, b: int| 0 <= a < b < out@.len() ==> out@[a]@ != out@[b]@,
            forall|x: Seq<char>|
                views_of(out@).contains(x) <==> views_of(v@.subrange(0, i as int)).contains(x),
        decreases n - i,
    {
        let ghost old_out = out@;
        let absent = !holds_view(&out, &v[i]);
        if absent {
            out.push(v[i].clone());
            proof {
                assert forall|a: int| 0 <= a < old_out.len() implies old_out[a]@ != v@[i as int]@ by {
                    assert(views_of(old_out)[a] == old_out[a]@);
                }
                assert(out@[old_out.len() as int]@ == v@[i as int]@);
                assert forall|a: int, b: int|
                    0 <= a < b < out@.len() implies out@[a]@ != out@[b]@ by {
                    if b < old_out.len() {
                        assert(out@[a] == old_out[a] && out@[b] == old_out[b]);
                    } else {
                        assert(out@[a] == old_out[a] && out@[b]@ == v@[i as int]@);
                    }
                }
            }
        }
        proof {
            assert forall|x: Seq<char>|
                views_of(out@).contains(x) implies (views_of(old_out).contains(x) || x == v@[
                i as int
            ]@) by {
                let k = choose|k: int|
                    0 <= k < views_of(out@).len() && views_of(out@)[k] == x;
                if k < old_out.len() {
                    assert(views_of(old_out)[k] == views_of(out@)[k]);
                    assert(views_of(old_out).contains(x));
                } else {
                    assert(out@[k]@ == v@[i as int]@);
                }
            }
            assert forall|x: Seq<char>|
                views_of(old_out).contains(x) implies views_of(out@).contains(x) by {
                let k = choose|k: int|
                    0 <= k < views_of(old_out).len() && views_of(old_out)[k] == x;
                assert(views_of(out@)[k] == views_of(old_out)[k]);
            }
            if absent {
                assert(views_of(out@)[old_out.len() as int] == v@[i as int]@);
                assert(views_of(out@).contains(v@[i as int]@));
            } else {
                assert(views_of(out@).contains(v@[i as int]@));
            }
        }
        i += 1;
        proof {
            let sub = v@.subrange(0, i as int);
            let prev = v@.subrange(0, i - 1);
            assert(sub.drop_last() =~= prev);
            assert(sub.last() == v@[i - 1]);
            assert forall|x: Seq<char>|
                views_of(sub).contains(x) implies (views_of(prev).contains(x) || x == v@[i - 1]@) by {
                let k = choose|k: int| 0 <= k < views_of(sub).len() && views_of(sub)[k] == x;
                if k < prev.len() {
                    assert(views_of(prev)[k] == views_of(sub)[k]);
                } else {
                    assert(sub[k]@ == v@[i - 1]@);
                }
            }
            assert forall|x: Seq<char>|
                views_of(prev).contains(x) implies views_of(sub).contains(x) by {
                let k = choose|k: int| 0 <= k < views_of(prev).len() && views_of(prev)[k] == x;
                assert(views_of(sub)[k] == views_of(prev)[k]);
            }
            assert(views_of(sub)[i - 1] == v@[i - 1]@);
            assert(views_of(sub).contains(v@[i - 1]@));
            assert forall|x: Seq<char>|
                views_of(out@).contains(x) <==> views_of(sub).contains(x) by {
                if views_of(out@).contains(x) {
                    assert(views_of(old_out).contains(x) || x == v@[i - 1]@);
                    if views_of(old_out).contains(x) {
                        assert(views_of(prev).contains(x));
                    }
                    assert(views_of(sub).contains(x));
                }
                if views_of(sub).contains(x) {
                    assert(views_of(prev).contains(x) || x == v@[i - 1]@);
                    if views_of(prev).contains(x) {
                        assert(views_of(old_out).contains(x));
                        assert(views_of(out@).contains(x));
                    }
                    assert(views_of(out@).contains(x));
                }
            }
        }
    }
    proof {
        assert(v@.subrange(0, n as int) =~= v@);
    }
    out
}

} // verus!
