use vstd::prelude::*;
use crate::schema::{Package, PackageSpec, ServicePackageSpec, Config, PackageConfig};

verus! {

/// Packages loaded alongside a root package, keyed by name, in the order they
/// were first referenced.
pub type Includes = Vec<(String, Package)>;

/// The view of an optional borrowed string.
pub open spec fn opt_view(v: Option<&str>) -> Option<Seq<char>> {
    match v {
        Some(s) => Some(s@),
        None => None,
    }
}

/// Whether `v` is one of the package's variant suffixes.
pub open spec fn has_variant(p: &Package, v: Seq<char>) -> bool {
    exists|k: int| 0 <= k < p.variants@.len() && #[trigger] p.variants@[k]@ == v
}

/// The name of the instance for the chosen variant, or `None` when the choice
/// is not valid for the package.
pub open spec fn instance_name(p: &Package, variant: Option<Seq<char>>) -> Option<Seq<char>> {
    match variant {
        Some(v) => if has_variant(p, v) {
            Some(p.name@ + "-"@ + v)
        } else {
            None
        },
        None => if p.variants@.len() == 0 {
            Some(p.name@)
        } else {
            None
        },
    }
}

/// `inst` is what instantiating `p` for `variant` with `includes` gives.
pub open spec fn instance_of<'a>(
    p: &Package,
    variant: Option<&'a str>,
    includes: Option<&'a Includes>,
    inst: PackageInstance<'a>,
) -> bool {
    &&& Some(inst.name@) == instance_name(p, opt_view(variant))
    &&& inst.variant == variant
    &&& *inst.spec == p.spec
    &&& inst.includes == includes
}

/// A package without variants instantiates without a variant, under its own
/// name, and with no variant at all.
pub proof fn lemma_no_variants(p: &Package)
    requires
        p.variants@.len() == 0,
    ensures
        instance_name(p, None) == Some(p.name@),
        forall|v: Seq<char>| #[trigger] instance_name(p, Some(v)) is None,
{
}

/// A package with variants needs one of them: each gives the name
/// `<name>-<variant>`, and no variant or any other suffix gives nothing.
pub proof fn lemma_with_variants(p: &Package)
    requires
        p.variants@.len() >= 1,
    ensures
        instance_name(p, None) is None,
        forall|k: int|
            0 <= k < p.variants@.len() ==> instance_name(p, Some(#[trigger] p.variants@[k]@))
                == Some(p.name@ + "-"@ + p.variants@[k]@),
        forall|x: Seq<char>|
            (forall|k: int| 0 <= k < p.variants@.len() ==> #[trigger] p.variants@[k]@ != x)
                ==> #[trigger] instance_name(p, Some(x)) is None,
{
    assert forall|k: int| 0 <= k < p.variants@.len() implies instance_name(
        p,
        Some(#[trigger] p.variants@[k]@),
    ) == Some(p.name@ + "-"@ + p.variants@[k]@) by {
        assert(has_variant(p, p.variants@[k]@));
    }
}

/// Reading the configuration of an instance of a package without variants
/// gives the package's own entries, in their order, none added or dropped.
pub proof fn lemma_instance_config<'a>(
    p: &Package,
    includes: Option<&'a Includes>,
    inst: PackageInstance<'a>,
)
    requires
        p.variants@.len() == 0,
        instance_of(p, None, includes, inst),
    ensures
        inst.conf_entries() == p.conf_entries(),
{
}

/// A package resolved for one variant, ready for the generators.
pub struct PackageInstance<'a> {
    pub name: String,
    pub variant: Option<&'a str>,
    pub spec: &'a PackageSpec,
    pub includes: Option<&'a Includes>,
}

/// An instance whose spec is a service.
pub struct ServiceInstance<'a> {
    pub name: &'a str,
    pub variant: Option<&'a str>,
    pub spec: &'a ServicePackageSpec,
    pub includes: Option<&'a Includes>,
}

impl Package {
    /// Resolves the package for `variant`. A variant is needed exactly when
    /// the package has any, and must then be one of them.
    pub fn instantiate<'a>(&'a self, variant: Option<&'a str>, includes: Option<&'a Includes>) -> (r:
        Option<PackageInstance<'a>>)
        ensures
            r.is_some() == instance_name(self, opt_view(variant)).is_some(),
            r matches Some(inst) ==> instance_of(self, variant, includes, inst),
    {
        let name = match variant {
            Some(v) => {
                if !self.has_variant(v) {
                    return None;
                }
                let mut n = self.name.clone();
                n.append("-");
                n.append(v);
                n
            },
            None => {
                if self.variants.len() > 0 {
                    return None;
                }
                self.name.clone()
            },
        };
        Some(PackageInstance { name, variant, spec: &self.spec, includes })
    }

    /// Whether `v` is one of the variant suffixes.
    pub fn has_variant(&self, v: &str) -> (r: bool)
        ensures
            r == has_variant(self, v@),
    {
        let target = String::from_str(v);
        let mut k: usize = 0;
        while k < self.variants.len()
            invariant
                k <= self.variants@.len(),
                target@ == v@,
                forall|j: int| 0 <= j < k ==> self.variants@[j]@ != v@,
            decreases self.variants@.len() - k,
        {
            if self.variants[k] == target {
                return true;
            }
            k = k + 1;
        }
        false
    }
}

impl<'a> PackageInstance<'a> {
    /// Narrows the instance to a service; `None` for an extension.
    pub fn as_service<'b>(&'b self) -> (r: Option<ServiceInstance<'b>>)
        ensures
            r.is_some() == (self.spec is Service),
            r matches Some(s) ==> {
                &&& s.name@ == self.name@
                &&& s.variant == self.variant
                &&& PackageSpec::Service(*s.spec) == *self.spec
                &&& s.includes == self.includes
            },
    {
        match self.spec {
            PackageSpec::Service(service) => Some(
                ServiceInstance {
                    name: self.name.as_str(),
                    variant: self.variant,
                    spec: service,
                    includes: self.includes,
                },
            ),
            PackageSpec::ConfExt(_) => None,
        }
    }
}

impl<'a> PackageConfig for PackageInstance<'a> {
    open spec fn conf_entries(&self) -> Seq<(String, Config)> {
        self.spec.conf_entries()
    }

    fn config(&self) -> (r: &Vec<(String, Config)>) {
        self.spec.config()
    }
}

impl<'a> ServiceInstance<'a> {
    /// The user the service runs as: the configured name, else the instance's.
    pub open spec fn spec_user_name(&self) -> Seq<char> {
        match self.spec.user.name {
            Some(n) => n@,
            None => self.name@,
        }
    }

    pub fn user_name(&self) -> (r: &'a str)
        ensures
            r@ == self.spec_user_name(),
    {
        match &self.spec.user.name {
            Some(n) => n.as_str(),
            None => self.name,
        }
    }

    pub fn service_name(&self) -> (r: &'a str)
        ensures
            r@ == self.name@,
    {
        self.name
    }

    /// The group, present only when the user spec asks for one; it is named
    /// as the user is.
    pub fn service_group(&self) -> (r: Option<&'a str>)
        ensures
            r.is_some() == self.spec.user.group,
            r matches Some(g) ==> g@ == self.spec_user_name(),
    {
        if self.spec.user.group {
            Some(self.user_name())
        } else {
            None
        }
    }
}

impl<'a> PackageConfig for ServiceInstance<'a> {
    open spec fn conf_entries(&self) -> Seq<(String, Config)> {
        self.spec.conf_entries()
    }

    fn config(&self) -> (r: &Vec<(String, Config)>) {
        self.spec.config()
    }
}

} // verus!
