//! The compilers that the machine offers.
use crate::plan::locate;
use vstd::prelude::*;

verus! {

/// The names under which a compiler is looked for, in this order.
pub open spec fn candidates() -> Seq<Seq<char>> {
    seq!["clang"@, "clang++"@, "gcc"@, "g++"@]
}

/// Of names with what the search for each gave, those that were found, each
/// with its path, in the order given.
pub open spec fn kept(lookups: Seq<(Seq<char>, Option<Seq<char>>)>) -> Seq<(Seq<char>, Seq<char>)>
    decreases lookups.len(),
{
    if lookups.len() == 0 {
        Seq::empty()
    } else {
        let rest = kept(lookups.drop_last());
        match lookups.last().1 {
            Some(path) => rest.push((lookups.last().0, path)),
            None => rest,
        }
    }
}

/// What is kept was found: every name that is kept stands among the
/// lookups with the path that is kept for it. And where no name occurs twice
/// among the lookups, none occurs twice among those kept.
pub proof fn lemma_kept_was_found(lookups: Seq<(Seq<char>, Option<Seq<char>>)>)
    ensures
        forall|k: int|
            0 <= k < kept(lookups).len() ==> exists|i: int|
                0 <= i < lookups.len() && #[trigger] lookups[i] == (
                    (#[trigger] kept(lookups)[k]).0,
                    Some(kept(lookups)[k].1),
                ),
        (forall|i: int, j: int| 0 <= i < j < lookups.len() ==> lookups[i].0 != lookups[j].0)
            ==> forall|i: int, j: int|
            0 <= i < j < kept(lookups).len() ==> kept(lookups)[i].0 != kept(lookups)[j].0,
    decreases lookups.len(),
{
    if lookups.len() > 0 {
        let front = lookups.drop_last();
        lemma_kept_was_found(front);
        assert forall|k: int| 0 <= k < kept(lookups).len() implies exists|i: int|
            0 <= i < lookups.len() && #[trigger] lookups[i] == (
                (#[trigger] kept(lookups)[k]).0,
                Some(kept(lookups)[k].1),
            ) by {
            if k < kept(front).len() {
                let i = choose|i: int|
                    0 <= i < front.len() && #[trigger] front[i] == (
                        kept(front)[k].0,
                        Some(kept(front)[k].1),
                    );
                assert(lookups[i] == front[i]);
            } else {
                assert(lookups[lookups.len() - 1] == lookups.last());
            }
        }
        if forall|i: int, j: int| 0 <= i < j < lookups.len() ==> lookups[i].0 != lookups[j].0 {
            assert forall|i: int, j: int| 0 <= i < j < kept(lookups).len() implies kept(
                lookups,
            )[i].0 != kept(lookups)[j].0 by {
                if j == kept(front).len() {
                    let at = choose|at: int|
                        0 <= at < front.len() && #[trigger] front[at] == (
                            kept(front)[i].0,
                            Some(kept(front)[i].1),
                        );
                    assert(lookups[at].0 != lookups.last().0);
                }
            }
        }
    }
}

/// No candidate is named twice.
pub proof fn lemma_candidates_differ()
    ensures
        forall|i: int, j: int|
            0 <= i < j < candidates().len() ==> candidates()[i] != candidates()[j],
{
    reveal_strlit("clang");
    reveal_strlit("clang++");
    reveal_strlit("gcc");
    reveal_strlit("g++");
    assert("clang"@.len() == 5 && "clang++"@.len() == 7);
    assert("gcc"@[1] != "g++"@[1]);
}

/// The names of `lookups` that were found, each with its path, in the order given.
pub fn compilers_found(lookups: Vec<(String, Option<String>)>) -> (r: Vec<(String, String)>)
    ensures
        r.deep_view() == kept(lookups.deep_view()),
{
    let mut r: Vec<(String, String)> = Vec::new();
    let mut i: usize = 0;
    while i < lookups.len()
        invariant
            i <= lookups.len(),
            r.deep_view() == kept(lookups.deep_view().take(i as int)),
        decreases lookups.len() - i,
    {
        let ghost next = lookups.deep_view().take(i + 1);
        assert(next.drop_last() =~= lookups.deep_view().take(i as int));
        match &lookups[i].1 {
            Some(path) => {
                let pair = (lookups[i].0.clone(), path.clone());
                r.push(pair);
            },
            None => {},
        }
        i = i + 1;
    }
    assert(lookups.deep_view().take(lookups.len() as int) =~= lookups.deep_view());
    r
}

/// Each candidate with the outcome `paths` gives for it.
pub open spec fn searched(paths: Seq<Option<Seq<char>>>) -> Seq<(Seq<char>, Option<Seq<char>>)> {
    Seq::new(candidates().len(), |i: int| (candidates()[i], paths[i]))
}

/// The compilers on the search path: each candidate that is found, with its
/// path, in the order of the candidates. What is found depends on the
/// machine; whatever it is, the result keeps exactly the candidates found.
pub fn detect_compilers() -> (r: Vec<(String, String)>)
    ensures
        exists|paths: Seq<Option<Seq<char>>>| r.deep_view() == kept(#[trigger] searched(paths)),
        forall|i: int, j: int| 0 <= i < j < r.len() ==> r[i].0@ != r[j].0@,
{
    let options = ["clang", "clang++", "gcc", "g++"];
    let mut lookups: Vec<(String, Option<String>)> = Vec::new();
    let ghost mut paths: Seq<Option<Seq<char>>> = Seq::empty();
    let mut i: usize = 0;
    while i < options.len()
        invariant
            i <= options.len(),
            options.deep_view() == candidates(),
            paths.len() == i,
            lookups.deep_view() == Seq::new(
                i as nat,
                |k: int| (candidates()[k], paths[k]),
            ),
        decreases options.len() - i,
    {
        let found = match locate(options[i]) {
            Ok(path) => Some(path),
            Err(_) => None,
        };
        proof {
            paths = paths.push(found.deep_view());
        }
        let ghost before = lookups.deep_view();
        let name = options[i].to_string();
        lookups.push((name, found));
        assert(lookups.deep_view() =~= before.push((candidates()[i as int], paths[i as int])));
        i = i + 1;
    }
    let r = compilers_found(lookups);
    proof {
        lemma_candidates_differ();
        lemma_kept_was_found(searched(paths));
        assert forall|i: int, j: int| 0 <= i < j < r.len() implies r[i].0@ != r[j].0@ by {
            assert(r.deep_view()[i] == (r[i].0@, r[i].1@));
            assert(r.deep_view()[j] == (r[j].0@, r[j].1@));
        }
    }
    r
}

} // verus!
