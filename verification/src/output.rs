//! Text rendering of discovered records: the per-record property lookup and
//! the line-oriented text format.

use vstd::prelude::*;

use crate::models::{VSCodeInstance, VSCodeInstanceView};
use crate::text::{eq_ignore_case, lower};

verus! {

/// The textual form of a boolean.
pub open spec fn spec_bool_str(b: bool) -> Seq<char> {
    if b {
        "true"@
    } else {
        "false"@
    }
}

/// The value of one named record property, matched ignoring ASCII case;
/// `None` for an unknown property name.
pub open spec fn spec_property_value(
    i: VSCodeInstanceView,
    name: Seq<char>,
) -> Option<Seq<char>> {
    let l = lower(name);
    if l == lower("installationpath"@) {
        Some(i.installation_path)
    } else if l == lower("installationversion"@) {
        Some(i.installation_version)
    } else if l == lower("productpath"@) {
        Some(i.product_path)
    } else if l == lower("productid"@) {
        Some(i.product_id)
    } else if l == lower("isprerelease"@) {
        Some(spec_bool_str(i.is_prerelease))
    } else if l == lower("displayname"@) {
        Some(i.display_name)
    } else if l == lower("extensionspath"@) {
        Some(i.extensions_path)
    } else if l == lower("userdatapath"@) {
        Some(i.user_data_path)
    } else {
        None
    }
}

/// Looks one property of a record up by name, ignoring ASCII case.
pub fn get_property_value(instance: &VSCodeInstance, property_name: &str) -> (r: Option<String>)
    ensures
        r.deep_view() == spec_property_value(instance@, property_name@),
{
    if eq_ignore_case(property_name, "installationpath") {
        Some(instance.installation_path.clone())
    } else if eq_ignore_case(property_name, "installationversion") {
        Some(instance.installation_version.clone())
    } else if eq_ignore_case(property_name, "productpath") {
        Some(instance.product_path.clone())
    } else if eq_ignore_case(property_name, "productid") {
        Some(instance.product_id.clone())
    } else if eq_ignore_case(property_name, "isprerelease") {
        if instance.is_prerelease {
            Some(String::from_str("true"))
        } else {
            Some(String::from_str("false"))
        }
    } else if eq_ignore_case(property_name, "displayname") {
        Some(instance.display_name.clone())
    } else if eq_ignore_case(property_name, "extensionspath") {
        Some(instance.extensions_path.clone())
    } else if eq_ignore_case(property_name, "userdatapath") {
        Some(instance.user_data_path.clone())
    } else {
        None
    }
}

/// The eight labelled lines of one record in the text format, followed by the
/// blank separator line.
pub open spec fn spec_instance_lines(i: VSCodeInstanceView) -> Seq<Seq<char>> {
    seq![
        "installationPath: "@ + i.installation_path,
        "installationVersion: "@ + i.installation_version,
        "productPath: "@ + i.product_path,
        "productId: "@ + i.product_id,
        "isPrerelease: "@ + spec_bool_str(i.is_prerelease),
        "displayName: "@ + i.display_name,
        "extensionsPath: "@ + i.extensions_path,
        "userDataPath: "@ + i.user_data_path,
        Seq::<char>::empty(),
    ]
}

/// The output lines for a record sequence: with a property filter, the value
/// of that property for each record that has it; without one, each record's
/// labelled block.
pub open spec fn spec_lines(
    instances: Seq<VSCodeInstanceView>,
    filter: Option<Seq<char>>,
) -> Seq<Seq<char>>
    decreases instances.len(),
{
    if instances.len() == 0 {
        Seq::empty()
    } else {
        let head = match filter {
            Some(prop) => match spec_property_value(instances[0], prop) {
                Some(v) => seq![v],
                None => Seq::<Seq<char>>::empty(),
            },
            None => spec_instance_lines(instances[0]),
        };
        head + spec_lines(instances.drop_first(), filter)
    }
}

/// The lines from position `i` on, joined onto `acc` with a newline before
/// each.
pub open spec fn spec_join_from(lines: Seq<Seq<char>>, i: int, acc: Seq<char>) -> Seq<char>
    decreases lines.len() - i,
{
    if i < 0 || i >= lines.len() {
        acc
    } else {
        spec_join_from(lines, i + 1, acc + "\n"@ + lines[i])
    }
}

/// The complete text output: the lines, with one trailing empty line removed,
/// joined by newlines.
pub open spec fn spec_format_text(
    instances: Seq<VSCodeInstanceView>,
    filter: Option<Seq<char>>,
) -> Seq<char> {
    let ls = spec_lines(instances, filter);
    let kept = if ls.len() > 0 && ls.last().len() == 0 {
        ls.drop_last()
    } else {
        ls
    };
    if kept.len() == 0 {
        Seq::empty()
    } else {
        spec_join_from(kept, 1, kept[0])
    }
}

/// Appends the labelled block of one record, and the blank separator line,
/// to `lines`.
fn push_instance_lines(lines: &mut Vec<String>, instance: &VSCodeInstance)
    ensures
        final(lines).deep_view() == old(lines).deep_view() + spec_instance_lines(instance@),
{
    let ghost prev = lines.deep_view();
    lines.push(
        String::from_str("installationPath: ").concat(instance.installation_path.as_str()),
    );
    lines.push(
        String::from_str("installationVersion: ").concat(instance.installation_version.as_str()),
    );
    lines.push(String::from_str("productPath: ").concat(instance.product_path.as_str()));
    lines.push(String::from_str("productId: ").concat(instance.product_id.as_str()));
    if instance.is_prerelease {
        lines.push(String::from_str("isPrerelease: ").concat("true"));
    } else {
        lines.push(String::from_str("isPrerelease: ").concat("false"));
    }
    lines.push(String::from_str("displayName: ").concat(instance.display_name.as_str()));
    lines.push(String::from_str("extensionsPath: ").concat(instance.extensions_path.as_str()));
    lines.push(String::from_str("userDataPath: ").concat(instance.user_data_path.as_str()));
    lines.push(String::new());
    proof {
        assert(lines.deep_view() =~= prev + spec_instance_lines(instance@));
    }
}

/// Renders the records in the line-oriented text format: with a property
/// filter, one line per record that has the property; without one, a labelled
/// block per record, blocks separated by blank lines.
pub fn format_text(instances: &[VSCodeInstance], property_filter: Option<&str>) -> (r: String)
    ensures
        r@ == spec_format_text(instances.deep_view(), property_filter.deep_view()),
{
    let ghost idv = instances.deep_view();
    let ghost fdv = property_filter.deep_view();
    let mut lines: Vec<String> = Vec::new();
    let n = instances.len();
    let mut i: usize = 0;
    proof {
        assert(idv.skip(0) =~= idv);
        assert(lines.deep_view() =~= Seq::<Seq<char>>::empty());
    }
    while i < n
        invariant
            n == instances@.len(),
            idv == instances.deep_view(),
            fdv == property_filter.deep_view(),
            i <= n,
            spec_lines(idv, fdv) == lines.deep_view() + spec_lines(idv.skip(i as int), fdv),
        decreases n - i,
    {
        let ghost pre = lines.deep_view();
        let instance = &instances[i];
        match property_filter {
            Some(prop) => {
                match get_property_value(instance, prop) {
                    Some(value) => {
                        let ghost valuev = value@;
                        lines.push(value);
                        proof {
                            assert(lines.deep_view() =~= pre + seq![valuev]);
                        }
                    },
                    None => {},
                }
            },
            None => {
                push_instance_lines(&mut lines, instance);
            },
        }
        proof {
            assert(idv.skip(i as int)[0] == idv[i as int]);
            assert(idv.skip(i as int).drop_first() =~= idv.skip(i as int + 1));
            assert(pre + spec_lines(idv.skip(i as int), fdv) == lines.deep_view() + spec_lines(
                idv.skip(i as int + 1),
                fdv,
            ));
        }
        i = i + 1;
    }
    proof {
        assert(idv.skip(n as int) =~= Seq::<VSCodeInstanceView>::empty());
        assert(lines.deep_view() + Seq::<Seq<char>>::empty() =~= lines.deep_view());
        assert(lines.deep_view() == spec_lines(idv, fdv));
    }
    // Remove one trailing blank line.
    if lines.len() > 0 && lines[lines.len() - 1].as_str().is_empty() {
        let ghost pre = lines.deep_view();
        let _ = lines.pop();
        proof {
            assert(lines.deep_view() =~= pre.drop_last());
        }
    }
    // Join with newlines.
    let ghost kept = lines.deep_view();
    if lines.len() == 0 {
        return String::new();
    }
    let mut out: String = lines[0].clone();
    let m = lines.len();
    let mut j: usize = 1;
    while j < m
        invariant
            m == lines@.len(),
            kept == lines.deep_view(),
            1 <= j <= m,
            spec_join_from(kept, 1, kept[0]) == spec_join_from(kept, j as int, out@),
        decreases m - j,
    {
        let ghost pre_out = out@;
        out.append("\n");
        out.append(lines[j].as_str());
        proof {
            assert(out@ =~= pre_out + "\n"@ + kept[j as int]);
        }
        j = j + 1;
    }
    out
}

} // verus!
