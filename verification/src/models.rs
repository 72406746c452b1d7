//! Data types of the discovery engine: raw registry entries, manifest
//! descriptors, the finished installation record, and command-line options.

use vstd::prelude::*;

use crate::text::{eq_ignore_case, lower};

verus! {

/// One raw entry of an uninstall registry scope: the three named values read
/// from a child key. Values that could not be read are empty strings.
pub struct RegistryEntry {
    pub publisher: String,
    pub display_name: String,
    pub install_location: String,
}

/// Mathematical view of a [`RegistryEntry`].
pub struct RegistryEntryView {
    pub publisher: Seq<char>,
    pub display_name: Seq<char>,
    pub install_location: Seq<char>,
}

impl View for RegistryEntry {
    type V = RegistryEntryView;

    open spec fn view(&self) -> RegistryEntryView {
        RegistryEntryView {
            publisher: self.publisher@,
            display_name: self.display_name@,
            install_location: self.install_location@,
        }
    }
}

impl DeepView for RegistryEntry {
    type V = RegistryEntryView;

    open spec fn deep_view(&self) -> RegistryEntryView {
        self.view()
    }
}

/// What the filesystem shows for one candidate installation directory:
/// whether the directory itself exists, and which of the three well-known
/// executable names exist directly under it.
#[derive(Clone, Copy)]
pub struct DiskFacts {
    pub root_exists: bool,
    pub stable_exe_exists: bool,
    pub insiders_exe_exists: bool,
    pub exploration_exe_exists: bool,
}

/// The two environment-derived root directories a record needs. `None` means
/// the variable is unset, which makes every build fail.
pub struct Environment {
    pub user_profile: Option<String>,
    pub app_data: Option<String>,
}

/// Mathematical view of an [`Environment`].
pub struct EnvironmentView {
    pub user_profile: Option<Seq<char>>,
    pub app_data: Option<Seq<char>>,
}

impl View for Environment {
    type V = EnvironmentView;

    open spec fn view(&self) -> EnvironmentView {
        EnvironmentView {
            user_profile: self.user_profile.deep_view(),
            app_data: self.app_data.deep_view(),
        }
    }
}

/// Optional metadata from the product descriptor found inside an
/// installation directory. Every field may be absent.
pub struct ProductInfo {
    pub name_short: Option<String>,
    pub name_long: Option<String>,
    pub quality: Option<String>,
    pub data_folder_name: Option<String>,
}

/// Mathematical view of a [`ProductInfo`].
pub struct ProductInfoView {
    pub name_short: Option<Seq<char>>,
    pub name_long: Option<Seq<char>>,
    pub quality: Option<Seq<char>>,
    pub data_folder_name: Option<Seq<char>>,
}

impl View for ProductInfo {
    type V = ProductInfoView;

    open spec fn view(&self) -> ProductInfoView {
        ProductInfoView {
            name_short: self.name_short.deep_view(),
            name_long: self.name_long.deep_view(),
            quality: self.quality.deep_view(),
            data_folder_name: self.data_folder_name.deep_view(),
        }
    }
}

impl DeepView for ProductInfo {
    type V = ProductInfoView;

    open spec fn deep_view(&self) -> ProductInfoView {
        self.view()
    }
}

/// Optional metadata from the package descriptor found inside an
/// installation directory.
pub struct PackageInfo {
    pub version: Option<String>,
}

/// Mathematical view of a [`PackageInfo`].
pub struct PackageInfoView {
    pub version: Option<Seq<char>>,
}

impl View for PackageInfo {
    type V = PackageInfoView;

    open spec fn view(&self) -> PackageInfoView {
        PackageInfoView { version: self.version.deep_view() }
    }
}

impl DeepView for PackageInfo {
    type V = PackageInfoView;

    open spec fn deep_view(&self) -> PackageInfoView {
        self.view()
    }
}

/// One fully resolved installation. Built once, then read-only.
pub struct VSCodeInstance {
    pub installation_path: String,
    pub installation_version: String,
    pub product_path: String,
    pub product_id: String,
    pub is_prerelease: bool,
    pub display_name: String,
    pub extensions_path: String,
    pub user_data_path: String,
}

/// Mathematical view of a [`VSCodeInstance`].
pub struct VSCodeInstanceView {
    pub installation_path: Seq<char>,
    pub installation_version: Seq<char>,
    pub product_path: Seq<char>,
    pub product_id: Seq<char>,
    pub is_prerelease: bool,
    pub display_name: Seq<char>,
    pub extensions_path: Seq<char>,
    pub user_data_path: Seq<char>,
}

impl View for VSCodeInstance {
    type V = VSCodeInstanceView;

    open spec fn view(&self) -> VSCodeInstanceView {
        VSCodeInstanceView {
            installation_path: self.installation_path@,
            installation_version: self.installation_version@,
            product_path: self.product_path@,
            product_id: self.product_id@,
            is_prerelease: self.is_prerelease,
            display_name: self.display_name@,
            extensions_path: self.extensions_path@,
            user_data_path: self.user_data_path@,
        }
    }
}

impl DeepView for VSCodeInstance {
    type V = VSCodeInstanceView;

    open spec fn deep_view(&self) -> VSCodeInstanceView {
        self.view()
    }
}

/// How the presentation layer renders the discovered records.
#[derive(Clone, Copy, PartialEq, Eq, Structural)]
pub enum OutputFormat {
    Text,
    Json,
}

/// Command-line options recognized by the tool.
pub struct Options {
    pub all: bool,
    pub prerelease: bool,
    pub latest: bool,
    pub format: OutputFormat,
    pub property: Option<String>,
    pub nologo: bool,
    pub sort: bool,
    pub help: bool,
}

/// Mathematical view of [`Options`].
pub struct OptionsView {
    pub all: bool,
    pub prerelease: bool,
    pub latest: bool,
    pub format: OutputFormat,
    pub property: Option<Seq<char>>,
    pub nologo: bool,
    pub sort: bool,
    pub help: bool,
}

impl View for Options {
    type V = OptionsView;

    open spec fn view(&self) -> OptionsView {
        OptionsView {
            all: self.all,
            prerelease: self.prerelease,
            latest: self.latest,
            format: self.format,
            property: self.property.deep_view(),
            nologo: self.nologo,
            sort: self.sort,
            help: self.help,
        }
    }
}

/// The options before any argument is seen.
pub open spec fn spec_default_options() -> OptionsView {
    OptionsView {
        all: true,
        prerelease: false,
        latest: false,
        format: OutputFormat::Text,
        property: None,
        nologo: false,
        sort: false,
        help: false,
    }
}

impl Default for Options {
    /// The defaults: find all instances, text output, no filters.
    fn default() -> (r: Self)
        ensures
            r@ == spec_default_options(),
    {
        Options {
            all: true,
            prerelease: false,
            latest: false,
            format: OutputFormat::Text,
            property: None,
            nologo: false,
            sort: false,
            help: false,
        }
    }
}

/// The options after reading the arguments from position `i` on, starting
/// from `acc`. Flags are matched ignoring ASCII case; `-format` and
/// `-property` consume the following argument when there is one; unknown
/// arguments are ignored.
pub open spec fn spec_parse_opts(args: Seq<Seq<char>>, i: int, acc: OptionsView) -> OptionsView
    decreases args.len() - i,
{
    if i < 0 || i >= args.len() {
        acc
    } else {
        let a = lower(args[i]);
        if a == lower("-all"@) {
            spec_parse_opts(args, i + 1, OptionsView { all: true, ..acc })
        } else if a == lower("-prerelease"@) {
            spec_parse_opts(args, i + 1, OptionsView { prerelease: true, ..acc })
        } else if a == lower("-latest"@) {
            spec_parse_opts(args, i + 1, OptionsView { latest: true, ..acc })
        } else if a == lower("-format"@) {
            if i + 1 < args.len() {
                let f = if lower(args[i + 1]) == lower("json"@) {
                    OutputFormat::Json
                } else {
                    OutputFormat::Text
                };
                spec_parse_opts(args, i + 2, OptionsView { format: f, ..acc })
            } else {
                spec_parse_opts(args, i + 1, acc)
            }
        } else if a == lower("-property"@) {
            if i + 1 < args.len() {
                spec_parse_opts(args, i + 2, OptionsView { property: Some(args[i + 1]), ..acc })
            } else {
                spec_parse_opts(args, i + 1, acc)
            }
        } else if a == lower("-nologo"@) {
            spec_parse_opts(args, i + 1, OptionsView { nologo: true, ..acc })
        } else if a == lower("-sort"@) {
            spec_parse_opts(args, i + 1, OptionsView { sort: true, ..acc })
        } else if a == lower("-help"@) || a == lower("-?"@) || a == lower("/?"@) {
            spec_parse_opts(args, i + 1, OptionsView { help: true, ..acc })
        } else {
            spec_parse_opts(args, i + 1, acc)
        }
    }
}

impl Options {
    /// Reads the command-line arguments into an [`Options`] value, beginning
    /// from the defaults.
    pub fn parse(args: &[String]) -> (r: Self)
        ensures
            r@ == spec_parse_opts(args.deep_view(), 0, spec_default_options()),
    {
        let ghost dv = args.deep_view();
        let mut opts = Self::default();
        let mut i: usize = 0;
        let n = args.len();
        while i < n
            invariant
                n == args@.len(),
                dv == args.deep_view(),
                i <= n,
                spec_parse_opts(dv, 0, spec_default_options()) == spec_parse_opts(
                    dv,
                    i as int,
                    opts@,
                ),
            decreases n - i,
        {
            let ghost pre = opts@;
            let ghost i0 = i as int;
            let a = &args[i];
            if eq_ignore_case(a.as_str(), "-all") {
                opts.all = true;
                i = i + 1;
            } else if eq_ignore_case(a.as_str(), "-prerelease") {
                opts.prerelease = true;
                i = i + 1;
            } else if eq_ignore_case(a.as_str(), "-latest") {
                opts.latest = true;
                i = i + 1;
            } else if eq_ignore_case(a.as_str(), "-format") {
                if i + 1 < n {
                    if eq_ignore_case(args[i + 1].as_str(), "json") {
                        opts.format = OutputFormat::Json;
                    } else {
                        opts.format = OutputFormat::Text;
                    }
                    i = i + 2;
                } else {
                    i = i + 1;
                }
            } else if eq_ignore_case(a.as_str(), "-property") {
                if i + 1 < n {
                    opts.property = Some(args[i + 1].clone());
                    i = i + 2;
                } else {
                    i = i + 1;
                }
            } else if eq_ignore_case(a.as_str(), "-nologo") {
                opts.nologo = true;
                i = i + 1;
            } else if eq_ignore_case(a.as_str(), "-sort") {
                opts.sort = true;
                i = i + 1;
            } else if eq_ignore_case(a.as_str(), "-help") || eq_ignore_case(a.as_str(), "-?")
                || eq_ignore_case(a.as_str(), "/?") {
                opts.help = true;
                i = i + 1;
            } else {
                i = i + 1;
            }
            proof {
                assert(spec_parse_opts(dv, i0, pre) == spec_parse_opts(dv, i as int, opts@));
            }
        }
        opts
    }
}

} // verus!
