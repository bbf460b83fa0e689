//! Command-name utilities: qualified names, distinctness, de-duplication.

use vstd::prelude::*;
use vstd::string::*;

verus! {

/// Pairwise distinctness of a sequence of names.
pub open spec fn distinct_names(v: Seq<Seq<char>>) -> bool {
    forall|i: int, j: int| 0 <= i < j < v.len() ==> v[i] != v[j]
}

/// Two positions of `v` hold the same name `x`.
pub open spec fn has_duplicate_of(v: Seq<Seq<char>>, x: Seq<char>) -> bool {
    exists|i: int, j: int| 0 <= i < j < v.len() && v[i] == v[j] && v[j] == x
}

/// A qualified command name: `namespace + ":" + subcommand`.
pub open spec fn spec_qualified(namespace: Seq<char>, subcommand: Seq<char>) -> Seq<char> {
    namespace + seq![':'] + subcommand
}

/// Builds the qualified name `namespace + ":" + subcommand`.
pub fn qualified(namespace: &String, subcommand: &String) -> (r: String)
    ensures
        r@ == spec_qualified(namespace@, subcommand@),
{
    let r = namespace.clone().concat(":").concat(subcommand.as_str());
    proof {
        reveal_strlit(":");
        assert(r@ =~= spec_qualified(namespace@, subcommand@));
    }
    r
}

/// Pushing onto a vector pushes the element's model onto the vector's model.
pub proof fn lemma_deep_view_push<T: DeepView>(pre: Vec<T>, post: Vec<T>, x: T)
    requires
        post@ == pre@.push(x),
    ensures
        post.deep_view() =~= pre.deep_view().push(x.deep_view()),
{
    assert forall|i: int| 0 <= i < post@.len() implies post.deep_view()[i] == pre.deep_view().push(
        x.deep_view(),
    )[i] by {
        if i < pre@.len() {
            assert(post@[i] == pre@[i]);
        } else {
            assert(post@[i] == x);
        }
    }
}

/// Whether some element of `v` equals `s`.
pub fn contains_string(v: &Vec<String>, s: &String) -> (r: bool)
    ensures
        r == v.deep_view().contains(s@),
{
    let mut i: usize = 0;
    while i < v.len()
        invariant
            i <= v.len(),
            forall|j: int| 0 <= j < i ==> v.deep_view()[j] != s@,
        decreases v.len() - i,
    {
        if v[i].eq(s) {
            proof {
                assert(v.deep_view()[i as int] == s@);
            }
            return true;
        }
        i = i + 1;
    }
    proof {
        assert forall|j: int| 0 <= j < v.deep_view().len() implies v.deep_view()[j] != s@ by {}
    }
    false
}

/// Copies a vector of names.
pub fn clone_strings(v: &Vec<String>) -> (r: Vec<String>)
    ensures
        r.deep_view() == v.deep_view(),
{
    let mut r: Vec<String> = Vec::new();
    let mut i: usize = 0;
    while i < v.len()
        invariant
            i <= v.len(),
            r.deep_view() =~= v.deep_view().take(i as int),
        decreases v.len() - i,
    {
        let ghost pre = r;
        let x = v[i].clone();
        let ghost xg = x;
        r.push(x);
        proof {
            lemma_deep_view_push(pre, r, xg);
            assert(r.deep_view() =~= v.deep_view().take(i as int + 1));
        }
        i = i + 1;
    }
    proof {
        assert(v.deep_view().take(v@.len() as int) =~= v.deep_view());
    }
    r
}

/// Keep-first de-duplication of a sequence of names.
pub open spec fn spec_dedup(v: Seq<Seq<char>>) -> Seq<Seq<char>>
    decreases v.len(),
{
    if v.len() == 0 {
        Seq::<Seq<char>>::empty()
    } else {
        let rest = spec_dedup(v.drop_last());
        if rest.contains(v.last()) {
            rest
        } else {
            rest.push(v.last())
        }
    }
}

/// De-duplication yields pairwise-distinct names.
pub proof fn lemma_dedup_distinct(v: Seq<Seq<char>>)
    ensures
        distinct_names(spec_dedup(v)),
    decreases v.len(),
{
    if v.len() != 0 {
        lemma_dedup_distinct(v.drop_last());
    }
}

/// De-duplication keeps exactly the names that were present.
pub proof fn lemma_dedup_same_names(v: Seq<Seq<char>>, x: Seq<char>)
    ensures
        spec_dedup(v).contains(x) <==> v.contains(x),
    decreases v.len(),
{
    if v.len() != 0 {
        let d = v.drop_last();
        let rest = spec_dedup(d);
        lemma_dedup_same_names(d, x);
        assert(v[v.len() - 1] == v.last());
        if v.contains(x) {
            let i = choose|i: int| 0 <= i < v.len() && v[i] == x;
            if i < v.len() - 1 {
                assert(d[i] == x);
                assert(d.contains(x));
                if rest.contains(x) {
                    let j = choose|j: int| 0 <= j < rest.len() && rest[j] == x;
                    if !rest.contains(v.last()) {
                        assert(rest.push(v.last())[j] == x);
                    }
                    assert(spec_dedup(v).contains(x));
                }
            } else {
                if rest.contains(v.last()) {
                    assert(spec_dedup(v).contains(x));
                } else {
                    assert(rest.push(v.last())[rest.len() as int] == x);
                    assert(spec_dedup(v).contains(x));
                }
            }
        }
        if spec_dedup(v).contains(x) {
            if rest.contains(v.last()) {
                assert(spec_dedup(v) == rest);
                let i = choose|i: int| 0 <= i < d.len() && d[i] == x;
                assert(v[i] == x);
                assert(v.contains(x));
            } else {
                let j = choose|j: int|
                    0 <= j < rest.push(v.last()).len() && rest.push(v.last())[j] == x;
                if j < rest.len() {
                    assert(rest[j] == x);
                    assert(rest.contains(x));
                    let i = choose|i: int| 0 <= i < d.len() && d[i] == x;
                    assert(v[i] == x);
                    assert(v.contains(x));
                } else {
                    assert(x == v.last());
                    assert(v.contains(x));
                }
            }
        }
    }
}

/// Removes repeated names, keeping the first occurrence of each, in order.
pub fn dedup_strings(v: &Vec<String>) -> (r: Vec<String>)
    ensures
        r.deep_view() == spec_dedup(v.deep_view()),
{
    let mut out: Vec<String> = Vec::new();
    let mut i: usize = 0;
    while i < v.len()
        invariant
            i <= v.len(),
            out.deep_view() == spec_dedup(v.deep_view().take(i as int)),
        decreases v.len() - i,
    {
        let ghost all = v.deep_view();
        proof {
            assert(all.take(i as int + 1).drop_last() =~= all.take(i as int));
            assert(all.take(i as int + 1).last() == all[i as int]);
            assert(v.deep_view()[i as int] == v@[i as int]@);
        }
        if !contains_string(&out, &v[i]) {
            let ghost pre = out;
            let x = v[i].clone();
            let ghost xg = x;
            out.push(x);
            proof {
                lemma_deep_view_push(pre, out, xg);
                assert(out.deep_view() =~= spec_dedup(all.take(i as int + 1)));
            }
        }
        i = i + 1;
    }
    proof {
        assert(v.deep_view().take(v@.len() as int) =~= v.deep_view());
    }
    out
}

} // verus!
