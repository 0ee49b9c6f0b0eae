//! How the tool is invoked and how a finished run is read.
use crate::decode::{decode_report, report_view};
use crate::json::{json_of_text, json_text_accepted, parse_json};
use crate::model::{ComposerOutdatedData, ComposerOutdatedOptions, OutdatedError};
use crate::status::IndicatedUpdateRequirement;
use vstd::prelude::*;
use vstd::utf8::{decode_utf8, valid_utf8};

verus! {

/// The executable that is run, looked up on the search path.
pub const COMPOSER_PROGRAM: &'static str = "composer";

/// The arguments every run starts with: JSON output, no plugins, strict
/// mode, the locked set only, and minor and major updates only.
pub open spec fn fixed_arguments() -> Seq<Seq<char>> {
    seq!["outdated"@, "-f"@, "json"@, "--no-plugins"@, "--strict"@, "--locked"@, "-m"@]
}

/// The full argument list: the fixed arguments, then `--ignore <name>` for
/// each ignored package in the order given.
pub open spec fn arguments_spec(ignored: Seq<Seq<char>>) -> Seq<Seq<char>>
    decreases ignored.len(),
{
    if ignored.len() == 0 {
        fixed_arguments()
    } else {
        arguments_spec(ignored.drop_last()) + seq!["--ignore"@, ignored.last()]
    }
}

/// The characters of each string.
pub open spec fn texts(v: Seq<String>) -> Seq<Seq<char>> {
    v.map_values(|s: String| s@)
}

/// Builds the arguments passed to [`COMPOSER_PROGRAM`] for the given options.
pub fn composer_arguments(options: &ComposerOutdatedOptions) -> (r: Vec<String>)
    ensures
        texts(r@) == arguments_spec(texts(options.ignored_packages@)),
{
    let ignored = &options.ignored_packages;
    let mut args: Vec<String> = Vec::new();
    args.push("outdated".to_owned());
    args.push("-f".to_owned());
    args.push("json".to_owned());
    args.push("--no-plugins".to_owned());
    args.push("--strict".to_owned());
    args.push("--locked".to_owned());
    args.push("-m".to_owned());
    assert(texts(ignored@).take(0) =~= Seq::<Seq<char>>::empty());
    assert(texts(args@) =~= fixed_arguments());
    let mut i: usize = 0;
    while i < ignored.len()
        invariant
            i <= ignored@.len(),
            texts(args@) == arguments_spec(texts(ignored@).take(i as int)),
        decreases ignored@.len() - i,
    {
        let ghost before = args@;
        args.push("--ignore".to_owned());
        args.push(ignored[i].clone());
        assert(texts(ignored@).take(i + 1).drop_last() =~= texts(ignored@).take(i as int));
        assert(texts(args@) =~= texts(before) + seq!["--ignore"@, ignored@[i as int]@]);
        i = i + 1;
    }
    assert(texts(ignored@).take(i as int) =~= texts(ignored@));
    args
}

/// Each ignored package gives exactly one `--ignore` pair, in the order given,
/// after the fixed arguments; repeated names are repeated, never merged.
pub proof fn lemma_one_exclusion_per_package(ignored: Seq<Seq<char>>)
    ensures
        arguments_spec(ignored).len() == 7 + 2 * ignored.len(),
        arguments_spec(ignored).take(7) == fixed_arguments(),
        forall|k: int|
            0 <= k < ignored.len() ==> #[trigger] arguments_spec(ignored)[7 + 2 * k] == "--ignore"@,
        forall|k: int|
            0 <= k < ignored.len() ==> #[trigger] arguments_spec(ignored)[7 + 2 * k + 1] == ignored[k],
    decreases ignored.len(),
{
    if ignored.len() == 0 {
        assert(fixed_arguments().take(7) =~= fixed_arguments());
    } else {
        let rest = ignored.drop_last();
        lemma_one_exclusion_per_package(rest);
        let pair = seq!["--ignore"@, ignored.last()];
        assert(arguments_spec(ignored) == arguments_spec(rest) + pair);
        assert(arguments_spec(ignored).take(7) =~= arguments_spec(rest).take(7));
        assert forall|k: int| 0 <= k < ignored.len() implies #[trigger] arguments_spec(ignored)[7 + 2
            * k] == "--ignore"@ by {
            if k < rest.len() {
                assert(arguments_spec(rest)[7 + 2 * k] == "--ignore"@);
            } else {
                assert(7 + 2 * k == arguments_spec(rest).len());
            }
        }
        assert forall|k: int| 0 <= k < ignored.len() implies #[trigger] arguments_spec(ignored)[7 + 2
            * k + 1] == ignored[k] by {
            if k < rest.len() {
                assert(arguments_spec(rest)[7 + 2 * k + 1] == rest[k]);
            } else {
                assert(7 + 2 * k == arguments_spec(rest).len());
            }
        }
    }
}

/// Relies on `std::str::from_utf8`: `Ok` exactly when the bytes are valid
/// UTF-8, holding the characters they encode.
#[verifier::external_body]
fn utf8_text(bytes: &[u8]) -> (r: Result<&str, core::str::Utf8Error>)
    ensures
        match r {
            Ok(s) => valid_utf8(bytes@) && s@ == decode_utf8(bytes@),
            Err(_) => !valid_utf8(bytes@),
        },
{
    std::str::from_utf8(bytes)
}

/// Turns a finished run into its outcome and report, given whether the exit
/// status was a success and the bytes printed on standard output.
///
/// Output that is not UTF-8 is an `Utf8Error`, found before any JSON is read.
/// Output that serde_json refuses, or whose document does not match the
/// schema, is a `SerdeJsonError`. Otherwise the result is `Ok`, with the
/// packages of the document and the outcome that the exit status alone gives,
/// whatever the packages say.
pub fn outdated_from_output(success: bool, stdout: &[u8]) -> (r: Result<
    (IndicatedUpdateRequirement, ComposerOutdatedData),
    OutdatedError,
>)
    ensures
        !valid_utf8(stdout@) ==> r matches Err(OutdatedError::Utf8Error(_)),
        valid_utf8(stdout@) && !json_text_accepted(decode_utf8(stdout@)) ==> r matches Err(
            OutdatedError::SerdeJsonError(_),
        ),
        valid_utf8(stdout@) && json_text_accepted(decode_utf8(stdout@)) ==> match report_view(
            json_of_text(decode_utf8(stdout@)),
        ) {
            Some(v) => r matches Ok((outcome, data)) && outcome
                == IndicatedUpdateRequirement::from_exit_spec(success) && data@ == v,
            None => r matches Err(OutdatedError::SerdeJsonError(_)),
        },
{
    let outcome = IndicatedUpdateRequirement::from_exit_success(success);
    let text = match utf8_text(stdout) {
        Ok(t) => t,
        Err(e) => return Err(OutdatedError::Utf8Error(e)),
    };
    let doc = parse_json(text)?;
    let data = decode_report(&doc)?;
    Ok((outcome, data))
}

} // verus!
