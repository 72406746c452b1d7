//! The installation discovery engine: validation of raw registry entries,
//! metadata resolution with layered fallbacks, record building, and
//! cross-scope deduplication.

use vstd::prelude::*;

use crate::manifest::{
    read_package_manifest, read_product_manifest, spec_package_manifest, spec_product_manifest,
};
use crate::models::{
    DiskFacts, Environment, EnvironmentView, PackageInfo, PackageInfoView, ProductInfo,
    ProductInfoView, RegistryEntry, RegistryEntryView, VSCodeInstance, VSCodeInstanceView,
};
use crate::text::{
    contains_ignore_case, contains_seq, eq_ignore_case, join_path, lower, lower_chars, path_join,
    seen_contains,
};

verus! {

/// The entry names the known vendor (ignoring ASCII case) and its display
/// name contains the known product name (ignoring ASCII case).
pub open spec fn spec_is_target(publisher: Seq<char>, display_name: Seq<char>) -> bool {
    &&& lower(publisher) == lower("Microsoft Corporation"@)
    &&& contains_seq(lower(display_name), lower("Microsoft Visual Studio Code"@))
}

/// A raw entry is worth building: it names the target application and its
/// install location is not empty.
pub open spec fn spec_entry_passes(e: RegistryEntryView) -> bool {
    &&& spec_is_target(e.publisher, e.display_name)
    &&& e.install_location.len() > 0
}

/// The release channel inferred from a registry display name alone:
/// "insider" when the name mentions insiders, "exploration" when it mentions
/// exploration, "stable" otherwise.
pub open spec fn spec_quality_from_name(display_name: Seq<char>) -> Seq<char> {
    if contains_seq(lower(display_name), lower("insiders"@)) {
        "insider"@
    } else if contains_seq(lower(display_name), lower("exploration"@)) {
        "exploration"@
    } else {
        "stable"@
    }
}

/// The record's version: the package descriptor's version when present, else
/// the literal sentinel "unknown".
pub open spec fn spec_resolve_version(package: Option<PackageInfoView>) -> Seq<char> {
    match package {
        Some(p) => match p.version {
            Some(v) => v,
            None => "unknown"@,
        },
        None => "unknown"@,
    }
}

/// The record's channel: the product descriptor's quality when present, else
/// inferred from the registry display name.
pub open spec fn spec_resolve_quality(
    product: Option<ProductInfoView>,
    registry_display_name: Seq<char>,
) -> Seq<char> {
    match product {
        Some(p) => match p.quality {
            Some(q) => q,
            None => spec_quality_from_name(registry_display_name),
        },
        None => spec_quality_from_name(registry_display_name),
    }
}

/// A channel is a prerelease channel unless it is "stable", ignoring ASCII
/// case.
pub open spec fn spec_is_prerelease(quality: Seq<char>) -> bool {
    lower(quality) != lower("stable"@)
}

/// The record's display name: the product descriptor's long name when
/// present, else the raw registry display name.
pub open spec fn spec_resolve_display_name(
    product: Option<ProductInfoView>,
    registry_display_name: Seq<char>,
) -> Seq<char> {
    match product {
        Some(p) => match p.name_long {
            Some(n) => n,
            None => registry_display_name,
        },
        None => registry_display_name,
    }
}

/// The fixed per-channel folder name that holds a user's extensions.
pub open spec fn spec_extensions_folder(quality: Seq<char>) -> Seq<char> {
    if lower(quality) == lower("insider"@) {
        ".vscode-insiders"@
    } else if lower(quality) == lower("exploration"@) {
        ".vscode-exploration"@
    } else {
        ".vscode"@
    }
}

/// The fixed per-channel folder name that holds a user's settings and data.
/// Deliberately a second table, independent of [`spec_extensions_folder`].
pub open spec fn spec_user_data_folder(quality: Seq<char>) -> Seq<char> {
    if lower(quality) == lower("insider"@) {
        "Code - Insiders"@
    } else if lower(quality) == lower("exploration"@) {
        "Code - Exploration"@
    } else {
        "Code"@
    }
}

/// The folder under the user profile that extensions live in: the product
/// descriptor's custom folder name when present, else the fixed per-channel
/// name.
pub open spec fn spec_resolve_data_folder(
    product: Option<ProductInfoView>,
    quality: Seq<char>,
) -> Seq<char> {
    match product {
        Some(p) => match p.data_folder_name {
            Some(d) => d,
            None => spec_extensions_folder(quality),
        },
        None => spec_extensions_folder(quality),
    }
}

/// The first of the three well-known executable names that exists under the
/// install root, stable first, as a full path; `None` when none exists.
pub open spec fn spec_find_executable(install: Seq<char>, facts: DiskFacts) -> Option<Seq<char>> {
    if facts.stable_exe_exists {
        Some(path_join(install, "Code.exe"@))
    } else if facts.insiders_exe_exists {
        Some(path_join(install, "Code - Insiders.exe"@))
    } else if facts.exploration_exe_exists {
        Some(path_join(install, "Code - Exploration.exe"@))
    } else {
        None
    }
}

/// The complete build of one installation record, or `None` when the install
/// root does not exist, no executable resolves, or an environment root is
/// missing.
pub open spec fn spec_build_instance(
    install: Seq<char>,
    registry_display_name: Seq<char>,
    product: Option<ProductInfoView>,
    package: Option<PackageInfoView>,
    facts: DiskFacts,
    env: EnvironmentView,
) -> Option<VSCodeInstanceView> {
    if !facts.root_exists {
        None
    } else {
        let quality = spec_resolve_quality(product, registry_display_name);
        match spec_find_executable(install, facts) {
            None => None,
            Some(product_path) => match (env.user_profile, env.app_data) {
                (Some(user_profile), Some(app_data)) => Some(
                    VSCodeInstanceView {
                        installation_path: install,
                        installation_version: spec_resolve_version(package),
                        product_path: product_path,
                        product_id: quality,
                        is_prerelease: spec_is_prerelease(quality),
                        display_name: spec_resolve_display_name(product, registry_display_name),
                        extensions_path: path_join(
                            path_join(user_profile, spec_resolve_data_folder(product, quality)),
                            "extensions"@,
                        ),
                        user_data_path: path_join(app_data, spec_user_data_folder(quality)),
                    },
                ),
                _ => None,
            },
        }
    }
}

/// Does the raw entry describe the target application?
pub fn is_vscode_installation(publisher: &str, display_name: &str) -> (r: bool)
    ensures
        r == spec_is_target(publisher@, display_name@),
{
    eq_ignore_case(publisher, "Microsoft Corporation") && contains_ignore_case(
        display_name,
        "Microsoft Visual Studio Code",
    )
}

/// Infers the release channel from a registry display name.
pub fn determine_quality_from_display_name(display_name: &str) -> (r: String)
    ensures
        r@ == spec_quality_from_name(display_name@),
{
    if contains_ignore_case(display_name, "insiders") {
        String::from_str("insider")
    } else if contains_ignore_case(display_name, "exploration") {
        String::from_str("exploration")
    } else {
        String::from_str("stable")
    }
}

/// The per-channel extensions folder name.
pub fn get_extensions_folder_name(quality: &str) -> (r: String)
    ensures
        r@ == spec_extensions_folder(quality@),
{
    if eq_ignore_case(quality, "insider") {
        String::from_str(".vscode-insiders")
    } else if eq_ignore_case(quality, "exploration") {
        String::from_str(".vscode-exploration")
    } else {
        String::from_str(".vscode")
    }
}

/// The per-channel user-data folder name.
pub fn get_user_data_folder_name(quality: &str) -> (r: String)
    ensures
        r@ == spec_user_data_folder(quality@),
{
    if eq_ignore_case(quality, "insider") {
        String::from_str("Code - Insiders")
    } else if eq_ignore_case(quality, "exploration") {
        String::from_str("Code - Exploration")
    } else {
        String::from_str("Code")
    }
}

/// The record's version string from the optional package descriptor.
pub fn resolve_version(package: &Option<PackageInfo>) -> (r: String)
    ensures
        r@ == spec_resolve_version(package.deep_view()),
{
    match package {
        Some(p) => match &p.version {
            Some(v) => v.clone(),
            None => String::from_str("unknown"),
        },
        None => String::from_str("unknown"),
    }
}

/// The record's channel from the optional product descriptor, with the
/// display-name inference as the fallback.
pub fn resolve_quality(product: &Option<ProductInfo>, registry_display_name: &str) -> (r: String)
    ensures
        r@ == spec_resolve_quality(product.deep_view(), registry_display_name@),
{
    match product {
        Some(p) => match &p.quality {
            Some(q) => q.clone(),
            None => determine_quality_from_display_name(registry_display_name),
        },
        None => determine_quality_from_display_name(registry_display_name),
    }
}

/// The record's display name from the optional product descriptor, with the
/// registry display name as the fallback.
pub fn resolve_display_name(
    product: &Option<ProductInfo>,
    registry_display_name: &str,
) -> (r: String)
    ensures
        r@ == spec_resolve_display_name(product.deep_view(), registry_display_name@),
{
    match product {
        Some(p) => match &p.name_long {
            Some(n) => n.clone(),
            None => String::from_str(registry_display_name),
        },
        None => String::from_str(registry_display_name),
    }
}

/// The extensions folder under the user profile, from the optional product
/// descriptor, with the per-channel fixed name as the fallback.
pub fn resolve_data_folder_name(product: &Option<ProductInfo>, quality: &str) -> (r: String)
    ensures
        r@ == spec_resolve_data_folder(product.deep_view(), quality@),
{
    match product {
        Some(p) => match &p.data_folder_name {
            Some(d) => d.clone(),
            None => get_extensions_folder_name(quality),
        },
        None => get_extensions_folder_name(quality),
    }
}

/// The full path of the first executable that exists under the install root,
/// in the fixed stable-first candidate order.
pub fn find_executable(install_location: &str, facts: DiskFacts) -> (r: Option<String>)
    ensures
        r.deep_view() == spec_find_executable(install_location@, facts),
{
    if facts.stable_exe_exists {
        Some(join_path(install_location, "Code.exe"))
    } else if facts.insiders_exe_exists {
        Some(join_path(install_location, "Code - Insiders.exe"))
    } else if facts.exploration_exe_exists {
        Some(join_path(install_location, "Code - Exploration.exe"))
    } else {
        None
    }
}

/// The fixed relative location of the product descriptor under an install
/// root.
pub open spec fn spec_product_manifest_path(install: Seq<char>) -> Seq<char> {
    path_join(path_join(path_join(install, "resources"@), "app"@), "product.json"@)
}

/// The fixed relative location of the package descriptor under an install
/// root.
pub open spec fn spec_package_manifest_path(install: Seq<char>) -> Seq<char> {
    path_join(path_join(path_join(install, "resources"@), "app"@), "package.json"@)
}

/// Where the product descriptor of an installation is expected on disk.
pub fn product_manifest_path(install_location: &str) -> (r: String)
    ensures
        r@ == spec_product_manifest_path(install_location@),
{
    let p = join_path(install_location, "resources");
    let p = join_path(p.as_str(), "app");
    join_path(p.as_str(), "product.json")
}

/// Where the package descriptor of an installation is expected on disk.
pub fn package_manifest_path(install_location: &str) -> (r: String)
    ensures
        r@ == spec_package_manifest_path(install_location@),
{
    let p = join_path(install_location, "resources");
    let p = join_path(p.as_str(), "app");
    join_path(p.as_str(), "package.json")
}

/// Builds one installation record from a validated entry's install location
/// and display name, the parsed manifests, the disk facts, and the
/// environment. Returns `None` exactly when the install root is missing, no
/// executable resolves, or an environment root is absent; a built record
/// never has an empty executable, extensions or user-data path.
pub fn build_instance(
    install_location: &str,
    registry_display_name: &str,
    product: &Option<ProductInfo>,
    package: &Option<PackageInfo>,
    facts: DiskFacts,
    env: &Environment,
) -> (r: Option<VSCodeInstance>)
    ensures
        r.deep_view() == spec_build_instance(
            install_location@,
            registry_display_name@,
            product.deep_view(),
            package.deep_view(),
            facts,
            env@,
        ),
        r.deep_view() is Some ==> {
            &&& r.deep_view().unwrap().product_path.len() > 0
            &&& r.deep_view().unwrap().extensions_path.len() > 0
            &&& r.deep_view().unwrap().user_data_path.len() > 0
        },
{
    proof {
        reveal_strlit("/");
    }
    if !facts.root_exists {
        return None;
    }
    let version = resolve_version(package);
    let quality = resolve_quality(product, registry_display_name);
    let is_prerelease = !eq_ignore_case(quality.as_str(), "stable");
    let display_name = resolve_display_name(product, registry_display_name);
    let product_path = match find_executable(install_location, facts) {
        Some(p) => p,
        None => {
            return None;
        },
    };
    let user_profile = match &env.user_profile {
        Some(u) => u,
        None => {
            return None;
        },
    };
    let app_data = match &env.app_data {
        Some(a) => a,
        None => {
            return None;
        },
    };
    let data_folder = resolve_data_folder_name(product, quality.as_str());
    let extensions_path = join_path(
        join_path(user_profile.as_str(), data_folder.as_str()).as_str(),
        "extensions",
    );
    let user_data_path = join_path(
        app_data.as_str(),
        get_user_data_folder_name(quality.as_str()).as_str(),
    );
    Some(
        VSCodeInstance {
            installation_path: String::from_str(install_location),
            installation_version: version,
            product_path,
            product_id: quality,
            is_prerelease,
            display_name,
            extensions_path,
            user_data_path,
        },
    )
}

impl Clone for RegistryEntry {
    /// A field-for-field copy.
    fn clone(&self) -> (r: Self)
        ensures
            r == *self,
    {
        RegistryEntry {
            publisher: self.publisher.clone(),
            display_name: self.display_name.clone(),
            install_location: self.install_location.clone(),
        }
    }
}

/// One candidate as gathered by the caller: the raw registry entry, what the
/// disk shows for its install location, and the descriptor file texts when
/// they were readable.
pub struct Candidate {
    pub entry: RegistryEntry,
    pub facts: DiskFacts,
    pub product_text: Option<String>,
    pub package_text: Option<String>,
}

/// Mathematical view of a [`Candidate`].
pub struct CandidateView {
    pub entry: RegistryEntryView,
    pub facts: DiskFacts,
    pub product_text: Option<Seq<char>>,
    pub package_text: Option<Seq<char>>,
}

impl View for Candidate {
    type V = CandidateView;

    open spec fn view(&self) -> CandidateView {
        CandidateView {
            entry: self.entry@,
            facts: self.facts,
            product_text: self.product_text.deep_view(),
            package_text: self.package_text.deep_view(),
        }
    }
}

impl DeepView for Candidate {
    type V = CandidateView;

    open spec fn deep_view(&self) -> CandidateView {
        self.view()
    }
}

/// One candidate with its manifests already parsed: exactly what the pure
/// part of the engine decides on.
pub struct ParsedCandidate {
    pub entry: RegistryEntry,
    pub facts: DiskFacts,
    pub product: Option<ProductInfo>,
    pub package: Option<PackageInfo>,
}

/// Mathematical view of a [`ParsedCandidate`].
pub struct ParsedCandidateView {
    pub entry: RegistryEntryView,
    pub facts: DiskFacts,
    pub product: Option<ProductInfoView>,
    pub package: Option<PackageInfoView>,
}

impl View for ParsedCandidate {
    type V = ParsedCandidateView;

    open spec fn view(&self) -> ParsedCandidateView {
        ParsedCandidateView {
            entry: self.entry@,
            facts: self.facts,
            product: self.product.deep_view(),
            package: self.package.deep_view(),
        }
    }
}

impl DeepView for ParsedCandidate {
    type V = ParsedCandidateView;

    open spec fn deep_view(&self) -> ParsedCandidateView {
        self.view()
    }
}

/// The record one candidate contributes before deduplication: `None` when
/// the entry does not pass validation, the build fails, or the record is a
/// prerelease while prereleases are excluded.
pub open spec fn spec_surviving_record(
    c: ParsedCandidateView,
    env: EnvironmentView,
    include_prerelease: bool,
) -> Option<VSCodeInstanceView> {
    if !spec_entry_passes(c.entry) {
        None
    } else {
        match spec_build_instance(
            c.entry.install_location,
            c.entry.display_name,
            c.product,
            c.package,
            c.facts,
            env,
        ) {
            None => None,
            Some(rec) => if !include_prerelease && rec.is_prerelease {
                None
            } else {
                Some(rec)
            },
        }
    }
}

/// The dedup fold over the candidates in discovery order: `insts` are the
/// records kept so far and `seen` their lowered installation paths; a
/// surviving record is appended only if its lowered path was not seen yet.
pub open spec fn spec_discover_loop(
    cands: Seq<ParsedCandidateView>,
    env: EnvironmentView,
    include_prerelease: bool,
    insts: Seq<VSCodeInstanceView>,
    seen: Seq<Seq<char>>,
) -> (Seq<VSCodeInstanceView>, Seq<Seq<char>>)
    decreases cands.len(),
{
    if cands.len() == 0 {
        (insts, seen)
    } else {
        let next = match spec_surviving_record(cands[0], env, include_prerelease) {
            None => (insts, seen),
            Some(rec) => if seen.contains(lower(rec.installation_path)) {
                (insts, seen)
            } else {
                (insts.push(rec), seen.push(lower(rec.installation_path)))
            },
        };
        spec_discover_loop(cands.drop_first(), env, include_prerelease, next.0, next.1)
    }
}

/// The records discovered from a candidate sequence, in discovery order.
pub open spec fn spec_discover(
    cands: Seq<ParsedCandidateView>,
    env: EnvironmentView,
    include_prerelease: bool,
) -> Seq<VSCodeInstanceView> {
    spec_discover_loop(cands, env, include_prerelease, Seq::empty(), Seq::empty()).0
}

/// The pure engine: validates each candidate, builds its record, applies the
/// prerelease filter, and deduplicates by case-insensitive installation path,
/// first occurrence winning.
pub fn discover_from_parsed(
    cands: &Vec<ParsedCandidate>,
    env: &Environment,
    include_prerelease: bool,
) -> (r: Vec<VSCodeInstance>)
    ensures
        r.deep_view() == spec_discover(cands.deep_view(), env@, include_prerelease),
{
    let ghost cdv = cands.deep_view();
    let mut instances: Vec<VSCodeInstance> = Vec::new();
    let mut seen: Vec<Vec<char>> = Vec::new();
    let n = cands.len();
    let mut i: usize = 0;
    proof {
        assert(instances.deep_view() =~= Seq::<VSCodeInstanceView>::empty());
        assert(seen.deep_view() =~= Seq::<Seq<char>>::empty());
        assert(cdv.skip(0) =~= cdv);
    }
    while i < n
        invariant
            n == cands@.len(),
            cdv == cands.deep_view(),
            i <= n,
            spec_discover_loop(cdv, env@, include_prerelease, Seq::empty(), Seq::empty())
                == spec_discover_loop(
                cdv.skip(i as int),
                env@,
                include_prerelease,
                instances.deep_view(),
                seen.deep_view(),
            ),
        decreases n - i,
    {
        let ghost i0 = i as int;
        let ghost pre_insts = instances.deep_view();
        let ghost pre_seen = seen.deep_view();
        let c = &cands[i];
        let passes = is_vscode_installation(
            c.entry.publisher.as_str(),
            c.entry.display_name.as_str(),
        ) && !c.entry.install_location.as_str().is_empty();
        if passes {
            if let Some(inst) = build_instance(
                c.entry.install_location.as_str(),
                c.entry.display_name.as_str(),
                &c.product,
                &c.package,
                c.facts,
                env,
            ) {
                if include_prerelease || !inst.is_prerelease {
                    let pl = lower_chars(inst.installation_path.as_str());
                    if !seen_contains(&seen, &pl) {
                        let ghost instv = inst@;
                        proof {
                            assert(pl.deep_view() =~= lower(instv.installation_path));
                        }
                        seen.push(pl);
                        instances.push(inst);
                        proof {
                            assert(seen.deep_view() =~= pre_seen.push(
                                lower(instv.installation_path),
                            ));
                            assert(instances.deep_view() =~= pre_insts.push(instv));
                        }
                    }
                }
            }
        }
        proof {
            assert(cdv.skip(i0)[0] == cdv[i0]);
            assert(cdv.skip(i0).drop_first() =~= cdv.skip(i0 + 1));
            assert(spec_discover_loop(cdv.skip(i0), env@, include_prerelease, pre_insts, pre_seen)
                == spec_discover_loop(
                cdv.skip(i0 + 1),
                env@,
                include_prerelease,
                instances.deep_view(),
                seen.deep_view(),
            ));
        }
        i = i + 1;
    }
    proof {
        assert(cdv.skip(n as int) =~= Seq::<ParsedCandidateView>::empty());
    }
    instances
}

/// One candidate with its manifest texts parsed, as the manifest reader
/// contracts say.
pub open spec fn spec_parse_candidate(c: CandidateView) -> ParsedCandidateView {
    ParsedCandidateView {
        entry: c.entry,
        facts: c.facts,
        product: spec_product_manifest(c.product_text),
        package: spec_package_manifest(c.package_text),
    }
}

/// Every candidate parsed, in order.
pub open spec fn spec_parse_all(all: Seq<CandidateView>) -> Seq<ParsedCandidateView> {
    all.map_values(|c: CandidateView| spec_parse_candidate(c))
}

/// The record `rec` traces back to a candidate of `all` that passed
/// validation and whose install root exists, and carries that candidate's
/// install location.
pub open spec fn record_from(rec: VSCodeInstanceView, all: Seq<CandidateView>) -> bool {
    exists|j: int|
        0 <= j < all.len() && spec_entry_passes((#[trigger] all[j]).entry)
            && all[j].facts.root_exists && rec.installation_path
            == all[j].entry.install_location
}

/// Every record of `out` traces back to a passing candidate of `all`.
pub open spec fn discovered_from(out: Seq<VSCodeInstanceView>, all: Seq<CandidateView>) -> bool {
    forall|k: int| 0 <= k < out.len() ==> record_from(#[trigger] out[k], all)
}

/// The discovery entry point: candidates of the per-user scope first, then
/// the per-machine scope. Parses each candidate's manifests, validates,
/// builds, filters, and deduplicates. The result is exactly the discovery
/// pass over the parsed candidates; its records all trace back to passing
/// entries with existing install roots, their lowered installation paths are
/// pairwise distinct, their path fields are never empty, and none is a
/// prerelease when `include_prerelease` is false.
pub fn discover_installations(
    user_scope: &Vec<Candidate>,
    machine_scope: &Vec<Candidate>,
    env: &Environment,
    include_prerelease: bool,
) -> (r: Vec<VSCodeInstance>)
    ensures
        ({
            let all = user_scope.deep_view() + machine_scope.deep_view();
            let out = r.deep_view();
            &&& out == spec_discover(spec_parse_all(all), env@, include_prerelease)
            &&& (!include_prerelease ==> forall|k: int| #![trigger out[k]]
                0 <= k < out.len() ==> !out[k].is_prerelease)
            &&& forall|k1: int, k2: int| #![trigger out[k1], out[k2]]
                0 <= k1 < k2 < out.len() ==> lower(out[k1].installation_path) != lower(
                    out[k2].installation_path,
                )
            &&& discovered_from(out, all)
            &&& forall|k: int| #![trigger out[k]]
                0 <= k < out.len() ==> {
                    &&& out[k].installation_path.len() > 0
                    &&& out[k].product_path.len() > 0
                    &&& out[k].extensions_path.len() > 0
                    &&& out[k].user_data_path.len() > 0
                }
        }),
{
    let ghost udv = user_scope.deep_view();
    let ghost mdv = machine_scope.deep_view();
    let ghost all = udv + mdv;
    let mut parsed: Vec<ParsedCandidate> = Vec::new();
    let un = user_scope.len();
    let mut i: usize = 0;
    while i < un
        invariant
            un == user_scope@.len(),
            udv == user_scope.deep_view(),
            i <= un,
            parsed.deep_view().len() == i,
            forall|j: int| #![trigger parsed.deep_view()[j]]
                0 <= j < i ==> parsed.deep_view()[j] == spec_parse_candidate(udv[j]),
        decreases un - i,
    {
        let c = &user_scope[i];
        let product = read_product_manifest(&c.product_text);
        let package = read_package_manifest(&c.package_text);
        let pc = ParsedCandidate { entry: c.entry.clone(), facts: c.facts, product, package };
        let ghost pcv = pc@;
        let ghost prev = parsed.deep_view();
        proof {
            assert(pcv == spec_parse_candidate(udv[i as int]));
        }
        parsed.push(pc);
        proof {
            assert(parsed.deep_view()[i as int] == pcv);
            assert(forall|j: int|
                0 <= j < prev.len() ==> #[trigger] parsed.deep_view()[j] == prev[j]);
        }
        i = i + 1;
    }
    let mn = machine_scope.len();
    let mut i2: usize = 0;
    while i2 < mn
        invariant
            mn == machine_scope@.len(),
            un == user_scope@.len(),
            udv == user_scope.deep_view(),
            mdv == machine_scope.deep_view(),
            i2 <= mn,
            parsed.deep_view().len() == un + i2,
            forall|j: int| #![trigger parsed.deep_view()[j]]
                0 <= j < un ==> parsed.deep_view()[j] == spec_parse_candidate(udv[j]),
            forall|j: int| #![trigger parsed.deep_view()[j]]
                un <= j < un + i2 ==> parsed.deep_view()[j] == spec_parse_candidate(mdv[j - un]),
        decreases mn - i2,
    {
        let c = &machine_scope[i2];
        let product = read_product_manifest(&c.product_text);
        let package = read_package_manifest(&c.package_text);
        let pc = ParsedCandidate { entry: c.entry.clone(), facts: c.facts, product, package };
        let ghost pcv = pc@;
        let ghost prev = parsed.deep_view();
        proof {
            assert(pcv == spec_parse_candidate(mdv[i2 as int]));
        }
        parsed.push(pc);
        proof {
            assert(parsed.deep_view()[(un + i2) as int] == pcv);
            assert(forall|j: int|
                0 <= j < prev.len() ==> #[trigger] parsed.deep_view()[j] == prev[j]);
        }
        i2 = i2 + 1;
    }
    let r = discover_from_parsed(&parsed, env, include_prerelease);
    proof {
        let pdv = parsed.deep_view();
        assert(pdv =~= spec_parse_all(all));
        lemma_discover_props(pdv, env@, include_prerelease);
        let out = r.deep_view();
        let sd = spec_discover(pdv, env@, include_prerelease);
        assert(out == sd);
        assert(out == spec_discover(spec_parse_all(all), env@, include_prerelease));
        assert forall|k: int| 0 <= k < out.len() implies record_from(
            #[trigger] out[k],
            all,
        ) by {
            assert(sd[k] == out[k]);
            assert(exists|j: int|
                0 <= j < pdv.len() && spec_surviving_record(pdv[j], env@, include_prerelease)
                    == Some(sd[k]));
            let j = choose|j: int|
                0 <= j < pdv.len() && spec_surviving_record(pdv[j], env@, include_prerelease)
                    == Some(sd[k]);
            assert(spec_surviving_record(pdv[j], env@, include_prerelease) == Some(out[k]));
            assert(pdv[j].entry == all[j].entry && pdv[j].facts == all[j].facts);
            assert(spec_entry_passes(all[j].entry));
            assert(all[j].facts.root_exists);
            assert(out[k].installation_path == all[j].entry.install_location);
            assert(record_from(out[k], all));
        }
        assert(discovered_from(out, all));
        assert forall|k: int|
            0 <= k < out.len() implies {
            &&& (#[trigger] out[k]).installation_path.len() > 0
            &&& out[k].product_path.len() > 0
            &&& out[k].extensions_path.len() > 0
            &&& out[k].user_data_path.len() > 0
        } by {
            assert(sd[k] == out[k]);
            let j = choose|j: int|
                0 <= j < pdv.len() && spec_surviving_record(pdv[j], env@, include_prerelease)
                    == Some(sd[k]);
            assert(spec_surviving_record(pdv[j], env@, include_prerelease) == Some(out[k]));
            assert(spec_entry_passes(pdv[j].entry));
            lemma_built_record_paths_nonempty(
                pdv[j].entry.install_location,
                pdv[j].entry.display_name,
                pdv[j].product,
                pdv[j].package,
                pdv[j].facts,
                env@,
            );
        }
    }
    r
}

/// Induction workhorse for the laws of the dedup fold. Starting from an
/// accumulator whose records have pairwise distinct lowered paths, all of
/// them in `seen`, the fold keeps the accumulator as a prefix, appends only
/// surviving records of some candidate, keeps all lowered paths pairwise
/// distinct, and only grows `seen`.
pub proof fn lemma_discover_loop_props(
    cands: Seq<ParsedCandidateView>,
    env: EnvironmentView,
    include_prerelease: bool,
    insts: Seq<VSCodeInstanceView>,
    seen: Seq<Seq<char>>,
)
    requires
        forall|k: int| #![trigger insts[k]]
            0 <= k < insts.len() ==> seen.contains(lower(insts[k].installation_path)),
        forall|k1: int, k2: int| #![trigger insts[k1], insts[k2]]
            0 <= k1 < k2 < insts.len() ==> lower(insts[k1].installation_path) != lower(
                insts[k2].installation_path,
            ),
    ensures
        ({
            let out = spec_discover_loop(cands, env, include_prerelease, insts, seen).0;
            let outseen = spec_discover_loop(cands, env, include_prerelease, insts, seen).1;
            &&& out.len() >= insts.len()
            &&& out.take(insts.len() as int) == insts
            &&& forall|k: int| #![trigger out[k]]
                insts.len() <= k < out.len() ==> exists|j: int|
                    0 <= j < cands.len() && spec_surviving_record(cands[j], env, include_prerelease)
                        == Some(out[k])
            &&& forall|k1: int, k2: int| #![trigger out[k1], out[k2]]
                0 <= k1 < k2 < out.len() ==> lower(out[k1].installation_path) != lower(
                    out[k2].installation_path,
                )
            &&& forall|k: int| #![trigger out[k]]
                0 <= k < out.len() ==> outseen.contains(lower(out[k].installation_path))
            &&& forall|p: Seq<char>| #![trigger outseen.contains(p)]
                seen.contains(p) ==> outseen.contains(p)
        }),
    decreases cands.len(),
{
    if cands.len() == 0 {
        assert(insts.take(insts.len() as int) =~= insts);
    } else {
        let rest = cands.drop_first();
        let stepped = match spec_surviving_record(cands[0], env, include_prerelease) {
            None => (insts, seen),
            Some(rec) => if seen.contains(lower(rec.installation_path)) {
                (insts, seen)
            } else {
                (insts.push(rec), seen.push(lower(rec.installation_path)))
            },
        };
        let insts2 = stepped.0;
        let seen2 = stepped.1;
        // The stepped accumulator meets the hypotheses again.
        match spec_surviving_record(cands[0], env, include_prerelease) {
            None => {},
            Some(rec) => {
                if !seen.contains(lower(rec.installation_path)) {
                    assert forall|k: int|
                        0 <= k < insts2.len() implies seen2.contains(
                        lower(#[trigger] insts2[k].installation_path),
                    ) by {
                        if k < insts.len() {
                            assert(insts2[k] == insts[k]);
                            let w = choose|w: int|
                                0 <= w < seen.len() && seen[w] == lower(
                                    insts[k].installation_path,
                                );
                            assert(seen2[w] == lower(insts2[k].installation_path));
                        } else {
                            assert(insts2[k] == rec);
                            assert(seen2[seen.len() as int] == lower(rec.installation_path));
                        }
                    }
                    assert forall|k1: int, k2: int|
                        0 <= k1 < k2 < insts2.len() implies lower(
                        (#[trigger] insts2[k1]).installation_path,
                    ) != lower((#[trigger] insts2[k2]).installation_path) by {
                        if k2 < insts.len() {
                            assert(insts2[k1] == insts[k1] && insts2[k2] == insts[k2]);
                        } else {
                            assert(insts2[k2] == rec && insts2[k1] == insts[k1]);
                            assert(seen.contains(lower(insts[k1].installation_path)));
                        }
                    }
                }
            },
        }
        lemma_discover_loop_props(rest, env, include_prerelease, insts2, seen2);
        let out = spec_discover_loop(cands, env, include_prerelease, insts, seen).0;
        let outseen = spec_discover_loop(cands, env, include_prerelease, insts, seen).1;
        assert(out == spec_discover_loop(rest, env, include_prerelease, insts2, seen2).0);
        assert(outseen == spec_discover_loop(rest, env, include_prerelease, insts2, seen2).1);
        // The starting accumulator is still the front of the result.
        assert(out.take(insts2.len() as int) == insts2);
        assert forall|m: int| 0 <= m < insts.len() implies #[trigger] out[m] == insts[m] by {
            assert(out.take(insts2.len() as int)[m] == insts2[m]);
            assert(insts2[m] == insts[m]);
        }
        assert(out.take(insts.len() as int) =~= insts);
        // Every appended record survives from some candidate of `cands`.
        assert forall|k: int| insts.len() <= k < out.len() implies exists|j: int|
            0 <= j < cands.len() && spec_surviving_record(cands[j], env, include_prerelease)
                == Some(#[trigger] out[k]) by {
            if k < insts2.len() {
                assert(out[k] == insts2[k]);
                assert(spec_surviving_record(cands[0], env, include_prerelease) == Some(out[k]));
            } else {
                let j0 = choose|j0: int|
                    0 <= j0 < rest.len() && spec_surviving_record(rest[j0], env, include_prerelease)
                        == Some(out[k]);
                assert(rest[j0] == cands[j0 + 1]);
                assert(spec_surviving_record(cands[j0 + 1], env, include_prerelease) == Some(
                    out[k],
                ));
            }
        }
        // `seen` still only grows.
        assert forall|p: Seq<char>| seen.contains(p) implies #[trigger] outseen.contains(p) by {
            let w = choose|w: int| 0 <= w < seen.len() && seen[w] == p;
            assert(seen2[w] == p);
            assert(seen2.contains(p));
        }
    }
}

/// The laws of one discovery pass: every record traces back to a surviving
/// candidate, lowered installation paths are pairwise distinct, and no
/// prerelease record is kept while prereleases are excluded.
pub proof fn lemma_discover_props(
    cands: Seq<ParsedCandidateView>,
    env: EnvironmentView,
    include_prerelease: bool,
)
    ensures
        ({
            let out = spec_discover(cands, env, include_prerelease);
            &&& forall|k: int| #![trigger out[k]]
                0 <= k < out.len() ==> exists|j: int|
                    0 <= j < cands.len() && spec_surviving_record(cands[j], env, include_prerelease)
                        == Some(out[k])
            &&& forall|k1: int, k2: int| #![trigger out[k1], out[k2]]
                0 <= k1 < k2 < out.len() ==> lower(out[k1].installation_path) != lower(
                    out[k2].installation_path,
                )
            &&& (!include_prerelease ==> forall|k: int| #![trigger out[k]]
                0 <= k < out.len() ==> !out[k].is_prerelease)
        }),
{
    lemma_discover_loop_props(
        cands,
        env,
        include_prerelease,
        Seq::empty(),
        Seq::empty(),
    );
    let out = spec_discover(cands, env, include_prerelease);
    if !include_prerelease {
        assert forall|k: int| 0 <= k < out.len() implies !(#[trigger] out[k]).is_prerelease by {
            let j = choose|j: int|
                0 <= j < cands.len() && spec_surviving_record(cands[j], env, include_prerelease)
                    == Some(out[k]);
            assert(spec_surviving_record(cands[j], env, include_prerelease) == Some(out[k]));
        }
    }
}

/// The fold keeps its accumulator as a prefix of its result.
pub proof fn lemma_discover_loop_prefix(
    cands: Seq<ParsedCandidateView>,
    env: EnvironmentView,
    include_prerelease: bool,
    insts: Seq<VSCodeInstanceView>,
    seen: Seq<Seq<char>>,
)
    ensures
        ({
            let out = spec_discover_loop(cands, env, include_prerelease, insts, seen).0;
            &&& out.len() >= insts.len()
            &&& out.take(insts.len() as int) == insts
        }),
    decreases cands.len(),
{
    if cands.len() == 0 {
        assert(insts.take(insts.len() as int) =~= insts);
    } else {
        let rest = cands.drop_first();
        let stepped = match spec_surviving_record(cands[0], env, include_prerelease) {
            None => (insts, seen),
            Some(rec) => if seen.contains(lower(rec.installation_path)) {
                (insts, seen)
            } else {
                (insts.push(rec), seen.push(lower(rec.installation_path)))
            },
        };
        lemma_discover_loop_prefix(rest, env, include_prerelease, stepped.0, stepped.1);
        let out = spec_discover_loop(cands, env, include_prerelease, insts, seen).0;
        assert(out.take(stepped.0.len() as int) == stepped.0);
        assert forall|m: int| 0 <= m < insts.len() implies #[trigger] out[m] == insts[m] by {
            assert(out.take(stepped.0.len() as int)[m] == stepped.0[m]);
            assert(stepped.0[m] == insts[m]);
        }
        assert(out.take(insts.len() as int) =~= insts);
    }
}

/// First occurrence wins: when the candidate at `j` yields a surviving record
/// whose lowered path is neither in `seen` nor yielded by any earlier
/// candidate, that record is in the fold's result.
pub proof fn lemma_discover_loop_first_wins(
    cands: Seq<ParsedCandidateView>,
    env: EnvironmentView,
    include_prerelease: bool,
    insts: Seq<VSCodeInstanceView>,
    seen: Seq<Seq<char>>,
    j: int,
)
    requires
        0 <= j < cands.len(),
        spec_surviving_record(cands[j], env, include_prerelease) is Some,
        !seen.contains(
            lower(
                spec_surviving_record(
                    cands[j],
                    env,
                    include_prerelease,
                ).unwrap().installation_path,
            ),
        ),
        forall|j2: int| #![trigger cands[j2]]
            0 <= j2 < j ==> (spec_surviving_record(cands[j2], env, include_prerelease) is Some
                ==> lower(
                spec_surviving_record(
                    cands[j2],
                    env,
                    include_prerelease,
                ).unwrap().installation_path,
            ) != lower(
                spec_surviving_record(
                    cands[j],
                    env,
                    include_prerelease,
                ).unwrap().installation_path,
            )),
    ensures
        spec_discover_loop(cands, env, include_prerelease, insts, seen).0.contains(
            spec_surviving_record(cands[j], env, include_prerelease).unwrap(),
        ),
    decreases cands.len(),
{
    let rec = spec_surviving_record(cands[j], env, include_prerelease).unwrap();
    let p = lower(rec.installation_path);
    let rest = cands.drop_first();
    let out = spec_discover_loop(cands, env, include_prerelease, insts, seen).0;
    if j == 0 {
        let insts2 = insts.push(rec);
        let seen2 = seen.push(p);
        lemma_discover_loop_prefix(rest, env, include_prerelease, insts2, seen2);
        assert(out.take(insts2.len() as int)[insts.len() as int] == insts2[insts.len() as int]);
        assert(out[insts.len() as int] == rec);
        assert(out.contains(rec));
    } else {
        assert(rest[j - 1] == cands[j]);
        assert forall|j2: int|
            0 <= j2 < j - 1 && spec_surviving_record(
                #[trigger] rest[j2],
                env,
                include_prerelease,
            ) is Some implies lower(
            spec_surviving_record(rest[j2], env, include_prerelease).unwrap().installation_path,
        ) != lower(
            spec_surviving_record(rest[j - 1], env, include_prerelease).unwrap().installation_path,
        ) by {
            assert(rest[j2] == cands[j2 + 1]);
            assert(cands[j2 + 1] == rest[j2]);
        }
        match spec_surviving_record(cands[0], env, include_prerelease) {
            None => {
                lemma_discover_loop_first_wins(rest, env, include_prerelease, insts, seen, j - 1);
            },
            Some(rec0) => {
                let p0 = lower(rec0.installation_path);
                if seen.contains(p0) {
                    lemma_discover_loop_first_wins(
                        rest,
                        env,
                        include_prerelease,
                        insts,
                        seen,
                        j - 1,
                    );
                } else {
                    let seen2 = seen.push(p0);
                    assert(p0 != p);
                    assert forall|w: int| 0 <= w < seen2.len() implies seen2[w] != p by {
                        if w < seen.len() {
                            assert(seen2[w] == seen[w]);
                            assert(seen[w] != p);
                        } else {
                            assert(seen2[w] == p0);
                        }
                    }
                    assert(!seen2.contains(p));
                    lemma_discover_loop_first_wins(
                        rest,
                        env,
                        include_prerelease,
                        insts.push(rec0),
                        seen2,
                        j - 1,
                    );
                }
            },
        }
    }
}

/// First occurrence wins over a whole pass: a surviving record whose lowered
/// path no earlier candidate also yields is in the discovery result. Together
/// with the pairwise distinctness of [`lemma_discover_props`], the result
/// holds exactly one record for that path, and it is this one.
pub proof fn lemma_first_occurrence_wins(
    cands: Seq<ParsedCandidateView>,
    env: EnvironmentView,
    include_prerelease: bool,
    j: int,
)
    requires
        0 <= j < cands.len(),
        spec_surviving_record(cands[j], env, include_prerelease) is Some,
        forall|j2: int| #![trigger cands[j2]]
            0 <= j2 < j ==> (spec_surviving_record(cands[j2], env, include_prerelease) is Some
                ==> lower(
                spec_surviving_record(
                    cands[j2],
                    env,
                    include_prerelease,
                ).unwrap().installation_path,
            ) != lower(
                spec_surviving_record(
                    cands[j],
                    env,
                    include_prerelease,
                ).unwrap().installation_path,
            )),
    ensures
        spec_discover(cands, env, include_prerelease).contains(
            spec_surviving_record(cands[j], env, include_prerelease).unwrap(),
        ),
{
    lemma_discover_loop_first_wins(
        cands,
        env,
        include_prerelease,
        Seq::empty(),
        Seq::empty(),
        j,
    );
}

/// A product manifest whose quality is "insider" (ignoring ASCII case) makes
/// the record a prerelease, and its extensions path uses the manifest's
/// custom data-folder name when present, else the fixed insider folder name.
pub proof fn lemma_insider_manifest_quality(
    install: Seq<char>,
    registry_display_name: Seq<char>,
    product: ProductInfoView,
    package: Option<PackageInfoView>,
    facts: DiskFacts,
    env: EnvironmentView,
)
    requires
        product.quality is Some,
        lower(product.quality.unwrap()) == lower("insider"@),
        spec_build_instance(
            install,
            registry_display_name,
            Some(product),
            package,
            facts,
            env,
        ) is Some,
    ensures
        ({
            let rec = spec_build_instance(
                install,
                registry_display_name,
                Some(product),
                package,
                facts,
                env,
            ).unwrap();
            &&& rec.is_prerelease
            &&& rec.extensions_path == path_join(
                path_join(
                    env.user_profile.unwrap(),
                    match product.data_folder_name {
                        Some(d) => d,
                        None => ".vscode-insiders"@,
                    },
                ),
                "extensions"@,
            )
        }),
{
    let q = product.quality.unwrap();
    reveal_strlit("insider");
    reveal_strlit("stable");
    assert(lower(q).len() == 7);
    assert(lower("stable"@).len() == 6);
    assert(spec_is_prerelease(q));
}

/// A built record never carries an empty path field: its installation path
/// is the given install location, and the executable, extensions and
/// user-data paths all contain at least a separator.
pub proof fn lemma_built_record_paths_nonempty(
    install: Seq<char>,
    registry_display_name: Seq<char>,
    product: Option<ProductInfoView>,
    package: Option<PackageInfoView>,
    facts: DiskFacts,
    env: EnvironmentView,
)
    requires
        spec_build_instance(install, registry_display_name, product, package, facts, env)
            is Some,
    ensures
        ({
            let rec = spec_build_instance(
                install,
                registry_display_name,
                product,
                package,
                facts,
                env,
            ).unwrap();
            &&& rec.installation_path == install
            &&& rec.product_path.len() > 0
            &&& rec.extensions_path.len() > 0
            &&& rec.user_data_path.len() > 0
        }),
{
    reveal_strlit("/");
}

/// Without a package manifest the record's version is the literal "unknown".
pub proof fn lemma_missing_package_version(
    install: Seq<char>,
    registry_display_name: Seq<char>,
    product: Option<ProductInfoView>,
    facts: DiskFacts,
    env: EnvironmentView,
)
    requires
        spec_build_instance(install, registry_display_name, product, None, facts, env) is Some,
    ensures
        spec_build_instance(
            install,
            registry_display_name,
            product,
            None,
            facts,
            env,
        ).unwrap().installation_version == "unknown"@,
{
}

/// An install location that does not exist on disk never yields a record,
/// whatever the registry and the manifests say.
pub proof fn lemma_missing_root_no_record(
    install: Seq<char>,
    registry_display_name: Seq<char>,
    product: Option<ProductInfoView>,
    package: Option<PackageInfoView>,
    facts: DiskFacts,
    env: EnvironmentView,
)
    requires
        !facts.root_exists,
    ensures
        spec_build_instance(install, registry_display_name, product, package, facts, env)
            is None,
{
}

} // verus!
