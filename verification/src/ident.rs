//! Widget identifiers.
//!
//! A widget's retained state is keyed by a hierarchical string id,
//! built by joining the ancestor ids with a separator unlikely to
//! appear in user-visible text.

use vstd::prelude::*;

verus! {

/// The separator put before each path component.
pub open spec fn id_sep() -> Seq<char> {
    seq!['#', '#']
}

/// The id formed by joining `ids`, each component preceded by the
/// separator.
pub open spec fn combined(ids: Seq<Seq<char>>) -> Seq<char>
    decreases ids.len(),
{
    if ids.len() == 0 {
        Seq::empty()
    } else {
        combined(ids.drop_last()) + id_sep() + ids.last()
    }
}

/// Join path components into one hierarchical widget id.
pub fn combine_ids(ids: &[&str]) -> (r: String)
    ensures
        r@ == combined(ids@.map_values(|s: &str| s@)),
{
    let mut cur = String::new();
    let mut i: usize = 0;
    proof {
        reveal_strlit("##");
        assert(ids@.map_values(|s: &str| s@).take(0) =~= Seq::empty());
    }
    while i < ids.len()
        invariant
            i <= ids.len(),
            cur@ == combined(ids@.map_values(|s: &str| s@).take(i as int)),
        decreases ids.len() - i,
    {
        cur.append("##");
        cur.append(ids[i]);
        proof {
            reveal_strlit("##");
            let vs = ids@.map_values(|s: &str| s@);
            assert(vs.take(i + 1).drop_last() =~= vs.take(i as int));
            assert(vs.take(i + 1).last() == vs[i as int]);
        }
        i = i + 1;
    }
    proof {
        assert(ids@.map_values(|s: &str| s@).take(ids@.len() as int) =~= ids@.map_values(
            |s: &str| s@,
        ));
    }
    cur
}

/// An owned copy of a widget id.
pub fn id_owned(id: &str) -> (r: String)
    ensures
        r@ == id@,
{
    <String as vstd::string::StringExecFns>::from_str(id)
}

} // verus!
