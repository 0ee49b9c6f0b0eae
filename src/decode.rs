//! The schema of the report: which JSON documents stand for which packages.
use crate::json::{schema_error, Json};
use crate::model::{ComposerOutdatedData, OutdatedError, PackageStatus, PackageStatusView};
use crate::status::{lemma_status_text_round_trip, UpdateRequirement};
use vstd::prelude::*;

verus! {

/// The value of the first entry named `key`.
pub open spec fn field(entries: Seq<(String, Json)>, key: Seq<char>) -> Option<Json>
    decreases entries.len(),
{
    if entries.len() == 0 {
        None
    } else if entries[0].0@ == key {
        Some(entries[0].1)
    } else {
        field(entries.drop_first(), key)
    }
}

/// The member `key` of an object; `None` for a missing member or a non-object.
pub open spec fn member(j: Json, key: Seq<char>) -> Option<Json> {
    match j {
        Json::Object(entries) => field(entries@, key),
        _ => None,
    }
}

/// A member that must be a string.
pub open spec fn text_member(j: Json, key: Seq<char>) -> Option<Seq<char>> {
    match member(j, key) {
        Some(Json::Str(s)) => Some(s@),
        _ => None,
    }
}

/// A member that may be missing or null (`Some(None)`), or a string
/// (`Some(Some(..))`); any other value gives `None`.
pub open spec fn optional_text_member(j: Json, key: Seq<char>) -> Option<Option<Seq<char>>> {
    match member(j, key) {
        None => Some(None),
        Some(Json::Null) => Some(None),
        Some(Json::Str(s)) => Some(Some(s@)),
        _ => None,
    }
}

/// The classification named by the `latest-status` member.
pub open spec fn status_member(j: Json) -> Option<UpdateRequirement> {
    match text_member(j, "latest-status"@) {
        Some(t) => UpdateRequirement::from_text_spec(t),
        None => None,
    }
}

/// The package that a JSON value describes, or `None` where it does not
/// match the schema: an object with the string members `name`, `version`,
/// `latest` and `description`, a known `latest-status`, and a `warning` that is
/// missing, null or a string. Other members are ignored.
pub open spec fn package_view(j: Json) -> Option<PackageStatusView> {
    if j is Object && text_member(j, "name"@) is Some && text_member(j, "version"@) is Some
        && text_member(j, "latest"@) is Some && status_member(j) is Some && text_member(
        j,
        "description"@,
    ) is Some && optional_text_member(j, "warning"@) is Some {
        Some(
            PackageStatusView {
                name: text_member(j, "name"@)->0,
                version: text_member(j, "version"@)->0,
                latest: text_member(j, "latest"@)->0,
                latest_status: status_member(j)->0,
                description: text_member(j, "description"@)->0,
                warning: optional_text_member(j, "warning"@)->0,
            },
        )
    } else {
        None
    }
}

/// The packages that a document lists, or `None` where it does not match the
/// schema: an object whose `locked` member is an array of packages.
pub open spec fn report_view(j: Json) -> Option<Seq<PackageStatusView>> {
    match member(j, "locked"@) {
        Some(Json::Array(items)) => {
            if forall|i: int| 0 <= i < items@.len() ==> (#[trigger] package_view(items@[i])) is Some {
                Some(items@.map_values(|item: Json| package_view(item)->0))
            } else {
                None
            }
        },
        _ => None,
    }
}

/// Whether a value is an object whose `latest-status` is a string that names
/// no classification.
pub open spec fn has_unknown_status(j: Json) -> bool {
    match text_member(j, "latest-status"@) {
        Some(t) => UpdateRequirement::from_text_spec(t) is None,
        None => false,
    }
}

fn find_field<'a>(entries: &'a Vec<(String, Json)>, key: &str) -> (r: Option<&'a Json>)
    ensures
        match r {
            Some(j) => field(entries@, key@) == Some(*j),
            None => field(entries@, key@) is None,
        },
{
    let wanted = key.to_owned();
    let mut i: usize = 0;
    assert(entries@.skip(0) =~= entries@);
    while i < entries.len()
        invariant
            i <= entries.len(),
            wanted@ == key@,
            field(entries@, key@) == field(entries@.skip(i as int), key@),
        decreases entries.len() - i,
    {
        assert(entries@.skip(i as int).drop_first() =~= entries@.skip(i as int + 1));
        if entries[i].0 == wanted {
            return Some(&entries[i].1);
        }
        i = i + 1;
    }
    None
}

fn find_member<'a>(j: &'a Json, key: &str) -> (r: Option<&'a Json>)
    ensures
        match r {
            Some(v) => member(*j, key@) == Some(*v),
            None => member(*j, key@) is None,
        },
{
    match j {
        Json::Object(entries) => find_field(entries, key),
        _ => None,
    }
}

fn text_of(j: &Json, key: &str) -> (r: Result<String, OutdatedError>)
    ensures
        match r {
            Ok(s) => text_member(*j, key@) == Some(s@),
            Err(e) => text_member(*j, key@) is None && e is SerdeJsonError,
        },
{
    match find_member(j, key) {
        Some(Json::Str(s)) => Ok(s.clone()),
        Some(_) => Err(OutdatedError::SerdeJsonError(schema_error("invalid type: expected a string"))),
        None => Err(OutdatedError::SerdeJsonError(schema_error("missing field"))),
    }
}

fn optional_text_of(j: &Json, key: &str) -> (r: Result<Option<String>, OutdatedError>)
    ensures
        match r {
            Ok(s) => optional_text_member(*j, key@) == Some(crate::model::opt_text(s)),
            Err(e) => optional_text_member(*j, key@) is None && e is SerdeJsonError,
        },
{
    match find_member(j, key) {
        None => Ok(None),
        Some(Json::Null) => Ok(None),
        Some(Json::Str(s)) => Ok(Some(s.clone())),
        Some(_) => Err(
            OutdatedError::SerdeJsonError(schema_error("invalid type: expected a string or null")),
        ),
    }
}

fn status_of(j: &Json) -> (r: Result<UpdateRequirement, OutdatedError>)
    ensures
        match r {
            Ok(u) => status_member(*j) == Some(u),
            Err(e) => status_member(*j) is None && e is SerdeJsonError,
        },
{
    let text = text_of(j, "latest-status")?;
    match UpdateRequirement::from_text(text.as_str()) {
        Some(u) => Ok(u),
        None => Err(
            OutdatedError::SerdeJsonError(
                schema_error(
                    "unknown variant, expected `up-to-date`, `semver-safe-update` or `update-possible`",
                ),
            ),
        ),
    }
}

/// Decodes one package of the document.
pub fn decode_package(j: &Json) -> (r: Result<PackageStatus, OutdatedError>)
    ensures
        match r {
            Ok(p) => package_view(*j) == Some(p@),
            Err(e) => package_view(*j) is None && e is SerdeJsonError,
        },
{
    if !matches!(j, Json::Object(_)) {
        return Err(OutdatedError::SerdeJsonError(schema_error("invalid type: expected an object")));
    }
    let name = text_of(j, "name")?;
    let version = text_of(j, "version")?;
    let latest = text_of(j, "latest")?;
    let latest_status = status_of(j)?;
    let description = text_of(j, "description")?;
    let warning = optional_text_of(j, "warning")?;
    Ok(PackageStatus { name, version, latest, latest_status, description, warning })
}

/// Decodes a whole document into the packages it lists, in their order.
pub fn decode_report(j: &Json) -> (r: Result<ComposerOutdatedData, OutdatedError>)
    ensures
        match r {
            Ok(d) => report_view(*j) == Some(d@),
            Err(e) => report_view(*j) is None && e is SerdeJsonError,
        },
{
    let items = match find_member(j, "locked") {
        Some(Json::Array(items)) => items,
        Some(_) => {
            return Err(OutdatedError::SerdeJsonError(schema_error("invalid type: expected an array")));
        },
        None => {
            return Err(OutdatedError::SerdeJsonError(schema_error("missing field `locked`")));
        },
    };
    let mut locked: Vec<PackageStatus> = Vec::new();
    let mut i: usize = 0;
    while i < items.len()
        invariant
            i <= items.len(),
            member(*j, "locked"@) == Some(Json::Array(*items)),
            forall|k: int| 0 <= k < i ==> (#[trigger] package_view(items@[k])) is Some,
            locked@.len() == i,
            forall|k: int| 0 <= k < i ==> package_view(items@[k]) == Some(#[trigger] locked@[k]@),
        decreases items.len() - i,
    {
        match decode_package(&items[i]) {
            Ok(p) => locked.push(p),
            Err(e) => return Err(e),
        }
        i = i + 1;
    }
    let d = ComposerOutdatedData { locked };
    assert(d@ =~= items@.map_values(|item: Json| package_view(item)->0));
    Ok(d)
}

/// Decoding reads a classification from its own kebab-case literal, so
/// writing the decoded classification out again gives back the document's text.
pub proof fn lemma_status_literal_round_trip(j: Json)
    requires
        package_view(j) is Some,
    ensures
        text_member(j, "latest-status"@) == Some(package_view(j)->0.latest_status.text()),
{
    lemma_status_text_round_trip(package_view(j)->0.latest_status, text_member(j, "latest-status"@)->0);
}

/// A package whose `latest-status` names no classification is refused, and so is
/// every document that lists one; no classification is made up for it.
pub proof fn lemma_unknown_status_rejected(j: Json, i: int)
    requires
        member(j, "locked"@) matches Some(Json::Array(items)) && 0 <= i < items@.len()
            && has_unknown_status(items@[i]),
    ensures
        report_view(j) is None,
{
    let items = member(j, "locked"@)->Some_0->Array_0;
    assert(package_view(items@[i]) is None);
}

/// A missing `warning` decodes to no warning, while an empty string decodes to
/// an empty warning that is present.
pub proof fn lemma_warning_absent_vs_empty(j: Json)
    requires
        package_view(j) is Some,
    ensures
        member(j, "warning"@) is None ==> package_view(j)->0.warning is None,
        (member(j, "warning"@) matches Some(Json::Str(s)) && s@.len() == 0) ==> package_view(
            j,
        )->0.warning == Some(Seq::<char>::empty()),
{
}

} // verus!
