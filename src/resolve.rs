use vstd::prelude::*;
use crate::schema::{Package, PackageSpec, Config, ConfType, ExternalVar, PackageConfig};
use crate::instance::Includes;

verus! {

/// The package names that one configuration entry refers to, in order.
pub open spec fn entry_refs(c: Config) -> Seq<Seq<char>> {
    match c.conf_type {
        ConfType::Dynamic { evars, .. } => evars@.map_values(
            |e: (String, Vec<(String, ExternalVar)>)| e.0@,
        ),
        ConfType::Static { .. } => Seq::empty(),
    }
}

/// The package names that a run of configuration entries refers to, in order,
/// repeats kept.
pub open spec fn entries_refs(cs: Seq<(String, Config)>) -> Seq<Seq<char>>
    decreases cs.len(),
{
    if cs.len() == 0 {
        Seq::empty()
    } else {
        entries_refs(cs.drop_last()) + entry_refs(cs.last().1)
    }
}

/// Every package name that `p` refers to: those its dynamic entries take
/// variables from, then the package it extends, repeats kept.
pub open spec fn package_refs(p: &Package) -> Seq<Seq<char>> {
    let own = entries_refs(p.conf_entries());
    match p.spec {
        PackageSpec::ConfExt(confext) => own.push(confext.extends@),
        PackageSpec::Service(_) => own,
    }
}

/// The first occurrence of each name, in order.
pub open spec fn distinct(s: Seq<Seq<char>>) -> Seq<Seq<char>>
    decreases s.len(),
{
    if s.len() == 0 {
        Seq::empty()
    } else if s.drop_last().contains(s.last()) {
        distinct(s.drop_last())
    } else {
        distinct(s.drop_last()).push(s.last())
    }
}

/// `d` pairs a name with what `load` returned for that name.
pub open spec fn loaded_by<F: Fn(&str) -> Package>(load: F, d: (String, Package)) -> bool {
    exists|n: &str| n@ == d.0@ && #[trigger] load.ensures((n,), d.1)
}

pub open spec fn include_names(ds: Seq<(String, Package)>) -> Seq<Seq<char>> {
    ds.map_values(|d: (String, Package)| d.0@)
}

/// `distinct` keeps exactly the names that occur.
pub proof fn lemma_distinct_contains(s: Seq<Seq<char>>, x: Seq<char>)
    ensures
        distinct(s).contains(x) <==> s.contains(x),
    decreases s.len(),
{
    if s.len() > 0 {
        lemma_distinct_contains(s.drop_last(), x);
        if s.drop_last().contains(x) {
            let k = choose|k: int| 0 <= k < s.drop_last().len() && s.drop_last()[k] == x;
            assert(s[k] == x);
        }
        if s.contains(x) && !s.drop_last().contains(x) {
            let k = choose|k: int| 0 <= k < s.len() && s[k] == x;
            if k < s.len() - 1 {
                assert(s.drop_last()[k] == x);
            }
        }
        if !s.drop_last().contains(s.last()) {
            assert(distinct(s).last() == s.last());
            if distinct(s.drop_last()).contains(x) {
                let k = choose|k: int|
                    0 <= k < distinct(s.drop_last()).len() && distinct(s.drop_last())[k] == x;
                assert(distinct(s)[k] == x);
            }
            if distinct(s).contains(x) && x != s.last() {
                let k = choose|k: int| 0 <= k < distinct(s).len() && distinct(s)[k] == x;
                assert(distinct(s.drop_last())[k] == x);
            }
        }
    }
}

/// `distinct` never repeats a name.
pub proof fn lemma_distinct_no_duplicates(s: Seq<Seq<char>>)
    ensures
        distinct(s).no_duplicates(),
    decreases s.len(),
{
    if s.len() > 0 {
        lemma_distinct_no_duplicates(s.drop_last());
        lemma_distinct_contains(s.drop_last(), s.last());
    }
}

/// Resolution loads each referenced package once: the names it loads never
/// repeat, and they are exactly the names referred to.
pub proof fn lemma_includes_once(p: &Package)
    ensures
        distinct(package_refs(p)).no_duplicates(),
        forall|x: Seq<char>| #[trigger] distinct(package_refs(p)).contains(x)
            <==> package_refs(p).contains(x),
{
    lemma_distinct_no_duplicates(package_refs(p));
    assert forall|x: Seq<char>| #[trigger] distinct(package_refs(p)).contains(x)
        <==> package_refs(p).contains(x) by {
        lemma_distinct_contains(package_refs(p), x);
    }
}

impl Package {
    /// Loads, through `load`, each package that this one refers to: once per
    /// distinct name, in order of first reference. Only this package's own
    /// references are followed, not those of the packages loaded.
    pub fn load_includes<F: Fn(&str) -> Package>(&self, load: F) -> (r: Includes)
        requires
            forall|n: &str| #[trigger] load.requires((n,)),
        ensures
            include_names(r@) == distinct(package_refs(self)),
            forall|i: int| 0 <= i < r@.len() ==> loaded_by(load, #[trigger] r@[i]),
    {
        let mut result: Includes = Vec::new();
        let entries = self.config();
        let mut i: usize = 0;
        while i < entries.len()
            invariant
                0 <= i <= entries@.len(),
                entries@ == self.conf_entries(),
                forall|n: &str| #[trigger] load.requires((n,)),
                include_names(result@) == distinct(entries_refs(entries@.take(i as int))),
                forall|k: int| 0 <= k < result@.len() ==> loaded_by(load, #[trigger] result@[k]),
            decreases entries@.len() - i,
        {
            assert(entries@.take(i + 1).drop_last() =~= entries@.take(i as int));
            let ghost before = entries_refs(entries@.take(i as int));
            if let ConfType::Dynamic { evars, .. } = &entries[i].1.conf_type {
                let mut j: usize = 0;
                while j < evars.len()
                    invariant
                        0 <= j <= evars@.len(),
                        forall|n: &str| #[trigger] load.requires((n,)),
                        include_names(result@) == distinct(
                            before + evars@.take(j as int).map_values(
                                |e: (String, Vec<(String, ExternalVar)>)| e.0@,
                            ),
                        ),
                        forall|k: int| 0 <= k < result@.len() ==> loaded_by(load, #[trigger] result@[k]),
                    decreases evars@.len() - j,
                {
                    let ghost seen = before + evars@.take(j as int).map_values(
                        |e: (String, Vec<(String, ExternalVar)>)| e.0@,
                    );
                    assert(before + evars@.take(j + 1).map_values(
                        |e: (String, Vec<(String, ExternalVar)>)| e.0@,
                    ) =~= seen.push(evars@[j as int].0@));
                    add_include(&mut result, evars[j].0.as_str(), &load, Ghost(seen));
                    j = j + 1;
                }
                assert(evars@.take(evars@.len() as int) =~= evars@);
            } else {
                assert(before + entry_refs(entries@[i as int].1) =~= before);
            }
            i = i + 1;
        }
        assert(entries@.take(entries@.len() as int) =~= entries@);
        if let PackageSpec::ConfExt(confext) = &self.spec {
            let ghost seen = entries_refs(entries@);
            assert(seen.push(confext.extends@).drop_last() =~= seen);
            add_include(&mut result, confext.extends.as_str(), &load, Ghost(seen));
        }
        result
    }
}

/// Appends `name` and what `load` gives for it, unless `name` is already there.
fn add_include<F: Fn(&str) -> Package>(
    result: &mut Includes,
    name: &str,
    load: &F,
    Ghost(seen): Ghost<Seq<Seq<char>>>,
)
    requires
        forall|n: &str| #[trigger] load.requires((n,)),
        include_names(old(result)@) == distinct(seen),
        forall|k: int| 0 <= k < old(result)@.len() ==> loaded_by(load, #[trigger] old(result)@[k]),
    ensures
        include_names(final(result)@) == distinct(seen.push(name@)),
        forall|k: int| 0 <= k < final(result)@.len() ==> loaded_by(load, #[trigger] final(result)@[k]),
{
    let ghost s2 = seen.push(name@);
    assert(s2.drop_last() =~= seen);
    proof {
        lemma_distinct_contains(seen, name@);
    }
    let target = String::from_str(name);
    let mut k: usize = 0;
    while k < result.len()
        invariant
            k <= result@.len(),
            target@ == name@,
            result@ == old(result)@,
            forall|j: int| 0 <= j < old(result)@.len() ==> loaded_by(*load, #[trigger] old(result)@[j]),
            include_names(result@) == distinct(seen),
            forall|j: int| 0 <= j < k ==> result@[j].0@ != name@,
        decreases result@.len() - k,
    {
        if result[k].0 == target {
            assert(include_names(result@)[k as int] == name@);
            proof {
                lemma_distinct_contains(seen, name@);
                assert(seen.push(name@).drop_last() =~= seen);
            }
            return;
        }
        k = k + 1;
    }
    assert(!distinct(seen).contains(name@)) by {
        if distinct(seen).contains(name@) {
            let j = choose|j: int| 0 <= j < distinct(seen).len() && distinct(seen)[j] == name@;
            assert(result@[j].0@ == name@);
        }
    }
    let package = load(name);
    let ghost prev = result@;
    result.push((target, package));
    assert(include_names(result@) =~= include_names(prev).push(name@));
    assert forall|j: int| 0 <= j < result@.len() implies loaded_by(*load, #[trigger] result@[j]) by {
        if j == prev.len() {
            assert(load.ensures((name,), result@[j].1));
        } else {
            assert(result@[j] == prev[j]);
        }
    }
}

} // verus!
