//! Reading the two descriptor files shipped inside an installation
//! directory. The caller hands in the file text (or `None` when the file is
//! missing or unreadable). A text that is not well-formed JSON yields `None`,
//! since the manifests are advisory metadata and never a hard dependency; a
//! well-formed document contributes each recognized field that is a string
//! member of its top level, and every other member is ignored.

use vstd::prelude::*;

use crate::models::{PackageInfo, PackageInfoView, ProductInfo, ProductInfoView};

verus! {

/// Whether `serde_json` parses the text as a well-formed JSON document. The
/// result depends on the text alone.
pub uninterp spec fn json_doc_ok(text: Seq<char>) -> bool;

/// The named top-level string member of the JSON document in `text`: `Some`
/// exactly when the text parses, its top level is an object holding that
/// member, and the member's value is a string. The result depends on the
/// arguments alone.
pub uninterp spec fn json_string_member(text: Seq<char>, name: Seq<char>) -> Option<Seq<char>>;

/// Relies on `serde_json::from_str`: it succeeds exactly on well-formed JSON
/// and returns an error otherwise (malformed text and over-deep nesting
/// included), never panicking.
#[verifier::external_body]
fn parse_ok(text: &str) -> (r: bool)
    ensures
        r == json_doc_ok(text@),
{
    serde_json::from_str::<serde_json::Value>(text).is_ok()
}

/// Relies on `serde_json::from_str`, `Value::get` (`None` for a non-object
/// or a missing member) and `Value::as_str` (`None` for a non-string value):
/// together they look one top-level string member up.
#[verifier::external_body]
fn string_member(text: &str, name: &str) -> (r: Option<String>)
    ensures
        r.deep_view() == json_string_member(text@, name@),
{
    serde_json::from_str::<serde_json::Value>(text).ok().and_then(
        |v| v.get(name).and_then(|m| m.as_str()).map(|s| s.to_owned()),
    )
}

/// The parse of an optional product descriptor text: `None` without a
/// well-formed document, else the four recognized fields, each taken when it
/// is a string member and absent otherwise.
pub open spec fn spec_product_manifest(text: Option<Seq<char>>) -> Option<ProductInfoView> {
    match text {
        None => None,
        Some(t) => if json_doc_ok(t) {
            Some(
                ProductInfoView {
                    name_short: json_string_member(t, "nameShort"@),
                    name_long: json_string_member(t, "nameLong"@),
                    quality: json_string_member(t, "quality"@),
                    data_folder_name: json_string_member(t, "dataFolderName"@),
                },
            )
        } else {
            None
        },
    }
}

/// The parse of an optional package descriptor text: `None` without a
/// well-formed document, else the version field when it is a string member.
pub open spec fn spec_package_manifest(text: Option<Seq<char>>) -> Option<PackageInfoView> {
    match text {
        None => None,
        Some(t) => if json_doc_ok(t) {
            Some(PackageInfoView { version: json_string_member(t, "version"@) })
        } else {
            None
        },
    }
}

/// Parses the product descriptor, as [`spec_product_manifest`] says.
pub fn read_product_manifest(text: &Option<String>) -> (r: Option<ProductInfo>)
    ensures
        r.deep_view() == spec_product_manifest(text.deep_view()),
{
    match text {
        None => None,
        Some(t) => {
            if parse_ok(t.as_str()) {
                Some(
                    ProductInfo {
                        name_short: string_member(t.as_str(), "nameShort"),
                        name_long: string_member(t.as_str(), "nameLong"),
                        quality: string_member(t.as_str(), "quality"),
                        data_folder_name: string_member(t.as_str(), "dataFolderName"),
                    },
                )
            } else {
                None
            }
        },
    }
}

/// Parses the package descriptor, as [`spec_package_manifest`] says.
pub fn read_package_manifest(text: &Option<String>) -> (r: Option<PackageInfo>)
    ensures
        r.deep_view() == spec_package_manifest(text.deep_view()),
{
    match text {
        None => None,
        Some(t) => {
            if parse_ok(t.as_str()) {
                Some(PackageInfo { version: string_member(t.as_str(), "version") })
            } else {
                None
            }
        },
    }
}

} // verus!
