use vstd::prelude::*;

verus! {

/// One package spec as read from disk: a base name, the variant suffixes
/// that give sibling packages, and the spec itself.
pub struct Package {
    pub name: String,
    /// Variant suffixes; empty when the spec gives exactly one package.
    pub variants: Vec<String>,
    pub spec: PackageSpec,
}

/// The two shapes of a spec.
pub enum PackageSpec {
    Service(ServicePackageSpec),
    ConfExt(ConfExtPackageSpec),
}

/// A long-running service.
pub struct ServicePackageSpec {
    pub bin_package: String,
    pub binary: String,
    pub conf_param: Option<String>,
    pub conf_d: Option<ConfDir>,
    pub user: UserSpec,
    /// Configuration entries in the order they were declared.
    pub config: Vec<(String, Config)>,
    pub after: Option<String>,
    pub extra_service_config: Option<String>,
    pub summary: Option<String>,
    pub long_doc: Option<String>,
}

/// An extension that attaches configuration to another package.
pub struct ConfExtPackageSpec {
    pub extends: String,
    pub replaces: bool,
    pub summary: Option<String>,
    pub long_doc: Option<String>,
    /// Configuration entries in the order they were declared.
    pub config: Vec<(String, Config)>,
}

pub struct ConfDir {
    pub param: String,
    pub name: String,
}

pub struct UserSpec {
    pub name: Option<String>,
    pub group: bool,
    pub create: Option<CreateUser>,
}

pub struct CreateUser {
    pub home: bool,
}

/// One named configuration entry (the name is the key it is stored under).
pub struct Config {
    pub public: bool,
    pub conf_type: ConfType,
}

pub enum ConfType {
    Static { content: String, internal: bool },
    Dynamic {
        format: ConfFormat,
        /// Variables this package prompts for.
        ivars: Vec<(String, InternalVar)>,
        /// For each other package, the variables of it that are needed.
        evars: Vec<(String, Vec<(String, ExternalVar)>)>,
        /// Variables computed at configuration time, never shown.
        hvars: Vec<(String, HiddenVar)>,
        cat_dir: Option<String>,
        cat_files: Vec<String>,
        comment: Option<String>,
    },
}

/// The format of a dynamic configuration file.
pub enum ConfFormat {
    Plain,
    Toml,
}

impl ConfFormat {
    /// The format's name as written in a spec.
    pub fn name(&self) -> (r: &'static str)
        ensures
            r@ == match self {
                ConfFormat::Plain => "plain"@,
                ConfFormat::Toml => "toml"@,
            },
    {
        match self {
            ConfFormat::Plain => "plain",
            ConfFormat::Toml => "toml",
        }
    }
}

pub struct InternalVar {
    pub ty: VarType,
    pub summary: String,
    pub long_doc: Option<String>,
    pub default: Option<String>,
    pub priority: DebconfPriority,
}

pub enum DebconfPriority {
    Low,
    Medium,
    High,
    Critical,
    Dynamic { script: String },
}

pub struct ExternalVar {
    /// The name under which the variable is used here, if it differs.
    pub name: Option<String>,
    /// Whether an answer is stored (true unless a spec says otherwise).
    pub store: bool,
}

pub struct HiddenVar {
    pub ty: VarType,
    pub val: HiddenVarVal,
}

pub enum HiddenVarVal {
    Constant(String),
    Script(String),
}

pub enum VarType {
    String,
    Uint,
    Bool,
    BindHost,
    BindPort,
    Path { file_type: Option<FileType>, create: Option<CreateFsObj> },
}

pub enum FileType {
    Regular,
    Dir,
}

pub struct CreateFsObj {
    pub mode: u16,
    pub owner: String,
    pub group: String,
}

/// Whatever exposes a mapping of configuration entries, in declaration order.
pub trait PackageConfig {
    /// The entries in scope.
    spec fn conf_entries(&self) -> Seq<(String, Config)>;

    fn config(&self) -> (r: &Vec<(String, Config)>)
        ensures
            r@ == self.conf_entries(),
    ;
}

impl PackageConfig for ServicePackageSpec {
    open spec fn conf_entries(&self) -> Seq<(String, Config)> {
        self.config@
    }

    fn config(&self) -> (r: &Vec<(String, Config)>) {
        &self.config
    }
}

impl PackageConfig for PackageSpec {
    open spec fn conf_entries(&self) -> Seq<(String, Config)> {
        match self {
            PackageSpec::Service(service) => service.config@,
            PackageSpec::ConfExt(confext) => confext.config@,
        }
    }

    fn config(&self) -> (r: &Vec<(String, Config)>) {
        match self {
            PackageSpec::Service(service) => &service.config,
            PackageSpec::ConfExt(confext) => &confext.config,
        }
    }
}

impl PackageConfig for Package {
    open spec fn conf_entries(&self) -> Seq<(String, Config)> {
        self.spec.conf_entries()
    }

    fn config(&self) -> (r: &Vec<(String, Config)>) {
        self.spec.config()
    }
}

impl PackageSpec {
    pub open spec fn spec_summary(&self) -> Option<String> {
        match self {
            PackageSpec::Service(service) => service.summary,
            PackageSpec::ConfExt(confext) => confext.summary,
        }
    }

    pub open spec fn spec_long_doc(&self) -> Option<String> {
        match self {
            PackageSpec::Service(service) => service.long_doc,
            PackageSpec::ConfExt(confext) => confext.long_doc,
        }
    }

    /// The one-line summary, whichever the shape.
    pub fn summary(&self) -> (r: &Option<String>)
        ensures
            *r == self.spec_summary(),
    {
        match self {
            PackageSpec::Service(service) => &service.summary,
            PackageSpec::ConfExt(confext) => &confext.summary,
        }
    }

    /// The long description, whichever the shape.
    pub fn long_doc(&self) -> (r: &Option<String>)
        ensures
            *r == self.spec_long_doc(),
    {
        match self {
            PackageSpec::Service(service) => &service.long_doc,
            PackageSpec::ConfExt(confext) => &confext.long_doc,
        }
    }
}

} // verus!
