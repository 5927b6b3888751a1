//! What a run starts from: the credential check, the set of dependency names,
//! and the registry address of each.
use vstd::prelude::*;

verus! {

/// The message given when no forge token was provided.
pub const NO_TOKEN: &'static str = "no token provided";

/// Address of the registry's API for one package, followed by its name.
pub const REGISTRY_CRATES_API: &'static str = "https://crates.io/api/v1/crates/";

/// Accepts a non-empty token; an empty one is refused with `NO_TOKEN`.
pub fn non_blank(arg: String) -> (r: Result<(), String>)
    ensures
        r is Ok <==> arg@.len() > 0,
        r matches Err(m) ==> m@ == NO_TOKEN@,
{
    if arg.unicode_len() == 0 {
        return Err(NO_TOKEN.to_owned());
    }
    Ok(())
}

/// Where the registry is asked about package `name`.
pub fn registry_url(name: &str) -> (r: String)
    ensures
        r@ == REGISTRY_CRATES_API@ + name@,
{
    let mut r = REGISTRY_CRATES_API.to_owned();
    r.append(name);
    r
}

/// `name` is the name of some dependency of some package.
pub open spec fn declared(packages: Seq<Vec<String>>, name: Seq<char>) -> bool {
    exists|p: int, d: int| 0 <= p < packages.len() && 0 <= d < packages[p]@.len() && (#[trigger] packages[p]@[d])@ == name
}

/// No name occurs twice in `names`.
pub open spec fn distinct_names(names: Seq<String>) -> bool {
    forall|i: int, j: int| 0 <= i < j < names.len() ==> (#[trigger] names[i])@ != (#[trigger] names[j])@
}

/// `names` holds `name`.
pub open spec fn holds_name(names: Seq<String>, name: Seq<char>) -> bool {
    exists|i: int| 0 <= i < names.len() && (#[trigger] names[i])@ == name
}

fn contains_name(names: &Vec<String>, name: &String) -> (r: bool)
    ensures
        r == holds_name(names@, name@),
{
    let mut i: usize = 0;
    while i < names.len()
        invariant
            i <= names@.len(),
            forall|j: int| 0 <= j < i ==> (#[trigger] names@[j])@ != name@,
        decreases names@.len() - i,
    {
        if names[i] == *name {
            return true;
        }
        i += 1;
    }
    false
}

proof fn lemma_holds_name_push(names: Seq<String>, x: String, name: Seq<char>)
    ensures
        holds_name(names.push(x), name) <==> (holds_name(names, name) || x@ == name),
{
    let r = names.push(x);
    if holds_name(names, name) {
        let i = choose|i: int| 0 <= i < names.len() && (#[trigger] names[i])@ == name;
        assert(r[i] == names[i]);
    }
    if x@ == name {
        assert(r[names.len() as int] == x);
    }
    if holds_name(r, name) {
        let i = choose|i: int| 0 <= i < r.len() && (#[trigger] r[i])@ == name;
        if i < names.len() {
            assert(names[i] == r[i]);
        }
    }
}

proof fn lemma_declared_step(packages: Seq<Vec<String>>, p: int, name: Seq<char>)
    requires
        0 <= p < packages.len(),
    ensures
        declared(packages.take(p + 1), name) <==> (declared(packages.take(p), name) || holds_name(packages[p]@, name)),
{
    let q = packages.take(p + 1);
    let q0 = packages.take(p);
    if declared(q, name) {
        let (a, b) = choose|a: int, b: int| 0 <= a < q.len() && 0 <= b < q[a]@.len() && (#[trigger] q[a]@[b])@ == name;
        if a < p {
            assert(q0[a] == q[a]);
            assert(q0[a]@[b]@ == name);
        } else {
            assert(packages[p]@[b]@ == name);
        }
    }
    if declared(q0, name) {
        let (a, b) = choose|a: int, b: int| 0 <= a < q0.len() && 0 <= b < q0[a]@.len() && (#[trigger] q0[a]@[b])@ == name;
        assert(q[a] == q0[a]);
        assert(q[a]@[b]@ == name);
    }
    if holds_name(packages[p]@, name) {
        let e = choose|e: int| 0 <= e < packages[p]@.len() && (#[trigger] packages[p]@[e])@ == name;
        assert(q[p] == packages[p]);
        assert(q[p]@[e]@ == name);
    }
}

/// The names of all dependencies of all packages (each package given as the
/// list of its dependencies' names), each once.
pub fn dependency_set(packages: &Vec<Vec<String>>) -> (r: Vec<String>)
    ensures
        distinct_names(r@),
        forall|name: Seq<char>| holds_name(r@, name) <==> declared(packages@, name),
{
    let mut r: Vec<String> = Vec::new();
    let mut p: usize = 0;
    assert forall|name: Seq<char>| !declared(packages@.take(0), name) by {}
    while p < packages.len()
        invariant
            p <= packages@.len(),
            distinct_names(r@),
            forall|name: Seq<char>| holds_name(r@, name) <==> declared(packages@.take(p as int), name),
        decreases packages@.len() - p,
    {
        let deps = &packages[p];
        let mut d: usize = 0;
        assert forall|name: Seq<char>| !holds_name(deps@.take(0), name) by {}
        while d < deps.len()
            invariant
                p < packages@.len(),
                deps == &packages@[p as int],
                d <= deps@.len(),
                distinct_names(r@),
                forall|name: Seq<char>| holds_name(r@, name) <==> (declared(packages@.take(p as int), name)
                    || holds_name(deps@.take(d as int), name)),
            decreases deps@.len() - d,
        {
            assert(deps@.take(d + 1) =~= deps@.take(d as int).push(deps@[d as int]));
            let ghost r0 = r@;
            if !contains_name(&r, &deps[d]) {
                r.push(deps[d].clone());
                assert forall|i: int, j: int| 0 <= i < j < r@.len() implies (#[trigger] r@[i])@ != (#[trigger] r@[j])@ by {
                    if j == r0.len() {
                        assert(r0[i] == r@[i]);
                    } else {
                        assert(r0[i] == r@[i] && r0[j] == r@[j]);
                    }
                }
            }
            assert forall|name: Seq<char>| holds_name(r@, name) <==> (declared(packages@.take(p as int), name)
                || holds_name(deps@.take(d + 1), name)) by {
                lemma_holds_name_push(deps@.take(d as int), deps@[d as int], name);
                lemma_holds_name_push(r0, deps@[d as int], name);
                assert(holds_name(r0, name) <==> (declared(packages@.take(p as int), name)
                    || holds_name(deps@.take(d as int), name)));
            }
            d += 1;
        }
        assert(deps@.take(deps@.len() as int) =~= deps@);
        assert forall|name: Seq<char>| declared(packages@.take(p + 1), name) <==> (declared(packages@.take(p as int), name)
            || holds_name(deps@, name)) by {
            lemma_declared_step(packages@, p as int, name);
        }
        p += 1;
    }
    assert(packages@.take(packages@.len() as int) =~= packages@);
    r
}

} // verus!
