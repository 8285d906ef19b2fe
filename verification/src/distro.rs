//! Fetching one version of a tool into the inventory.
//!
//! A fetch first asks the inventory. A version that is installed is answered
//! from the record, and nothing is provisioned. A version that is not is
//! provisioned, once: where that succeeds the install is recorded, where it
//! fails the failure is classified and the inventory stays as it was.

use crate::error::{
    DownloadFailure, ErrorDetails, ErrorDetailsView, TransportError, TransportErrorView,
};
use crate::inventory::Collection;
use crate::tool::{ToolSpec, ToolSpecView};
use crate::version::{Version, VersionView};
use vstd::prelude::*;

verus! {

/// The result of a requested installation.
#[derive(Debug, PartialEq, Eq)]
pub enum Fetched<V> {
    /// Indicates that the given tool was already installed.
    Already(V),
    /// Indicates that the given tool was not already installed but has now
    /// been installed.
    Now(V),
}

impl<V> Fetched<V> {
    /// What was fetched, whether it was installed before or not.
    pub open spec fn payload(self) -> V {
        match self {
            Fetched::Already(version) => version,
            Fetched::Now(version) => version,
        }
    }

    /// Consumes this value and produces the installed version.
    pub fn into_version(self) -> (version: V)
        ensures
            version == self.payload(),
    {
        match self {
            Fetched::Already(version) | Fetched::Now(version) => version,
        }
    }

    /// Produces a reference to the installed version.
    pub fn version(&self) -> (version: &V)
        ensures
            *version == self.payload(),
    {
        match self {
            Fetched::Already(version) | Fetched::Now(version) => version,
        }
    }
}

/// Whatever is wrapped comes out again as it went in, under either tag.
pub proof fn payload_comes_back<V>(version: V)
    ensures
        Fetched::Already(version).payload() == version,
        Fetched::Now(version).payload() == version,
{
}

/// A request for one version of a tool, with the means to obtain it.
///
/// Each kind of tool has its own implementation. A value is made for one
/// fetch and used up by it.
///
/// The contracts name the requested version through [`Distro::version`]: a
/// distro is a request for whatever that method hands back. [`Distro::fetch`]
/// is proved here. The contracts of the three constructors are proved only
/// of an implementation that is itself verified: of any other they say what
/// it owes.
pub trait Distro: Sized {
    /// What is known of an install once it is confirmed.
    type VersionDetails: Clone;

    /// A handle on an archive that is already on disk, such as an open file.
    type Archive;

    /// Provision a distribution from the public distributor (e.g.
    /// `https://nodejs.org`).
    fn public(version: Version) -> (distro: Result<Self, ErrorDetails>)
        ensures
            distro matches Ok(made) ==> forall|requested: &Version|
                call_ensures(Self::version, (&made,), requested) ==> requested@ == version@,
    ;

    /// Provision a distribution from a remote distributor.
    fn remote(version: Version, url: &str) -> (distro: Result<Self, ErrorDetails>)
        ensures
            distro matches Ok(made) ==> forall|requested: &Version|
                call_ensures(Self::version, (&made,), requested) ==> requested@ == version@,
    ;

    /// Provision a distribution from the filesystem.
    fn local(version: Version, file: Self::Archive) -> (distro: Result<Self, ErrorDetails>)
        ensures
            distro matches Ok(made) ==> forall|requested: &Version|
                call_ensures(Self::version, (&made,), requested) ==> requested@ == version@,
    ;

    /// Produces a reference to this distro's tool version.
    fn version(&self) -> (version: &Version);

    /// Obtains the tool from where this distro was told to take it, and says
    /// what was installed or why nothing was.
    ///
    /// This is the one place where a distro downloads or writes. What it
    /// writes stays out of the way until it is complete.
    fn provision(self) -> (outcome: Result<Self::VersionDetails, DownloadFailure>);

    /// Fetches this version of the tool.
    ///
    /// A version that is installed is answered from the inventory, which
    /// stays as it is. Any other version is provisioned, and the fetch ends
    /// as [`conclude_fetch`] says for what [`Distro::provision`] came back
    /// with.
    fn fetch(self, collection: &mut Collection<Self::VersionDetails>) -> (result: Result<
        Fetched<Self::VersionDetails>,
        ErrorDetails,
    >)
        ensures
            exists|version: &Version, outcome: Result<Self::VersionDetails, DownloadFailure>|
                {
                    &&& call_ensures(Self::version, (&self,), version)
                    &&& old(collection)@.contains_key(version@) || call_ensures(
                        Self::provision,
                        (self,),
                        outcome,
                    )
                    &&& #[trigger] fetch_reports(old(collection)@, version@, outcome, result)
                    &&& final(collection)@ == fetch_leaves(old(collection)@, version@, outcome)
                },
    {
        let requested = self.version();
        let version = requested.clone();
        match already_installed(collection, &version) {
            Some(fetched) => {
                proof {
                    let unused: Result<Self::VersionDetails, DownloadFailure> = arbitrary();
                    assert(fetch_reports(old(collection)@, requested@, unused, Ok(fetched)));
                }
                Ok(fetched)
            },
            None => {
                let outcome = self.provision();
                conclude_fetch(collection, version, outcome)
            },
        }
    }
}

/// What is installed after a fetch of `version` that started from `before`
/// and whose provisioning, where it took place, ended in `outcome`.
///
/// Only a version that was not installed and was provisioned with success is
/// added. Nothing is ever taken away or replaced.
pub open spec fn fetch_leaves<V>(
    before: Map<VersionView, V>,
    version: VersionView,
    outcome: Result<V, DownloadFailure>,
) -> Map<VersionView, V> {
    if before.contains_key(version) {
        before
    } else {
        match outcome {
            Ok(details) => before.insert(version, details),
            Err(_) => before,
        }
    }
}

/// Whether `result` is what a fetch of `version` reports that started from
/// `before` and whose provisioning, where it took place, ended in `outcome`.
///
/// A version that was installed is reported as `Already`, with a copy of the
/// recorded details. One that was provisioned is reported as `Now`, with a
/// copy of the new details. A failed provisioning is reported as the error
/// that [`classify`] gives for it.
pub open spec fn fetch_reports<V: Clone>(
    before: Map<VersionView, V>,
    version: VersionView,
    outcome: Result<V, DownloadFailure>,
    result: Result<Fetched<V>, ErrorDetails>,
) -> bool {
    if before.contains_key(version) {
        result matches Ok(Fetched::Already(details)) && cloned(before[version], details)
    } else {
        match outcome {
            Ok(provisioned) => result matches Ok(Fetched::Now(details)) && cloned(
                provisioned,
                details,
            ),
            Err(failure) => result matches Err(error) && error@ == classify(
                failure.tool@,
                failure.from_url@,
                failure.error@,
            ),
        }
    }
}

/// The answer for a version that is installed: `Already`, with a copy of the
/// recorded details. `None` says that the version has to be provisioned.
pub fn already_installed<V: Clone>(collection: &Collection<V>, version: &Version) -> (found:
    Option<Fetched<V>>)
    ensures
        match found {
            Some(fetched) => {
                &&& collection@.contains_key(version@)
                &&& fetched matches Fetched::Already(details)
                &&& cloned(collection@[version@], details)
            },
            None => !collection@.contains_key(version@),
        },
{
    match collection.get(version) {
        Some(details) => Some(Fetched::Already(details.clone())),
        None => None,
    }
}

/// Ends a fetch of `version` whose provisioning ended in `outcome`.
///
/// A success is recorded, a failure is classified and leaves the inventory
/// as it was. Where the version has been recorded since the fetch began, that
/// record stands and `outcome` is dropped.
pub fn conclude_fetch<V: Clone>(
    collection: &mut Collection<V>,
    version: Version,
    outcome: Result<V, DownloadFailure>,
) -> (result: Result<Fetched<V>, ErrorDetails>)
    ensures
        final(collection)@ == fetch_leaves(old(collection)@, version@, outcome),
        fetch_reports(old(collection)@, version@, outcome, result),
{
    match already_installed(collection, &version) {
        Some(fetched) => Ok(fetched),
        None => match outcome {
            Ok(details) => {
                let copy = details.clone();
                collection.record(version, details);
                Ok(Fetched::Now(copy))
            },
            Err(failure) => {
                let classifier = download_tool_error(failure.tool, failure.from_url.as_str());
                Err(classifier(&failure.error))
            },
        },
    }
}

/// The check that [`Distro::local`] owes: the archive at hand has to hold the
/// version that is claimed for it.
pub fn check_local_archive(tool: ToolSpec, claimed: &Version, held: &Version) -> (checked: Result<
    (),
    ErrorDetails,
>)
    ensures
        checked == (if claimed@ == held@ {
            Ok(())
        } else {
            Err(ErrorDetails::LocalArchiveMismatch { tool })
        }),
{
    if claimed.same_as(held) {
        Ok(())
    } else {
        Err(ErrorDetails::LocalArchiveMismatch { tool })
    }
}

/// The error that a failed download of `tool` from `from_url` is reported
/// as: "not found" for the status 404, a network error for every other
/// failure.
pub open spec fn classify(
    tool: ToolSpecView,
    from_url: Seq<char>,
    error: TransportErrorView,
) -> ErrorDetailsView {
    if error.is_not_found() {
        ErrorDetailsView::DownloadToolNotFound { tool }
    } else {
        ErrorDetailsView::DownloadToolNetworkError { tool, error: error.message(), from_url }
    }
}

/// The status "Not Found" as a number: `reqwest::StatusCode::NOT_FOUND`, read
/// with `StatusCode::as_u16`.
///
/// The contract is taken on trust. It says what the source of the status
/// codes shows: the constant is declared with the number 404, and `as_u16`
/// hands back the number that a status was declared with.
#[verifier::external_body]
fn not_found_status() -> (code: u16)
    ensures
        code == 404,
{
    reqwest::StatusCode::NOT_FOUND.as_u16()
}

/// Makes the function that turns a failure of the transport, met while
/// `toolspec` was downloaded from `from_url`, into the error to report.
///
/// The error depends on the failure, the tool and the address alone, as
/// [`classify`] says.
pub fn download_tool_error(toolspec: ToolSpec, from_url: &str) -> (classifier: impl FnOnce(
    &TransportError,
) -> ErrorDetails)
    ensures
        forall|error: &TransportError| call_requires(classifier, (error,)),
        forall|error: &TransportError, details: ErrorDetails|
            call_ensures(classifier, (error,), details) ==> details@ == classify(
                toolspec@,
                from_url@,
                error@,
            ),
{
    let from_url = from_url.to_owned();
    move |error: &TransportError| -> (details: ErrorDetails)
        ensures
            details@ == classify(toolspec@, from_url@, error@),
        {
            match error {
                TransportError::Http { code, .. } if *code == not_found_status() => {
                    ErrorDetails::DownloadToolNotFound { tool: toolspec }
                },
                TransportError::Http { message, .. } | TransportError::Other { message } => {
                    ErrorDetails::DownloadToolNetworkError {
                        tool: toolspec,
                        error: message.clone(),
                        from_url,
                    }
                },
            }
        }
}

/// A version that is installed is reported as `Already`, with the recorded
/// details, and the inventory stays as it was, whatever a provisioning would
/// have brought.
pub proof fn installed_is_answered_from_the_record<V: Clone>(
    before: Map<VersionView, V>,
    version: VersionView,
    outcome: Result<V, DownloadFailure>,
    result: Result<Fetched<V>, ErrorDetails>,
)
    requires
        before.contains_key(version),
        fetch_reports(before, version, outcome, result),
    ensures
        result matches Ok(Fetched::Already(details)) && cloned(before[version], details),
        fetch_leaves(before, version, outcome) == before,
{
}

/// A version that was not installed and is provisioned with success is
/// reported as `Now`, and is installed afterwards with the new details.
pub proof fn provisioned_is_installed<V: Clone>(
    before: Map<VersionView, V>,
    version: VersionView,
    details: V,
    result: Result<Fetched<V>, ErrorDetails>,
)
    requires
        !before.contains_key(version),
        fetch_reports(before, version, Ok(details), result),
    ensures
        result matches Ok(Fetched::Now(copy)) && cloned(details, copy),
        fetch_leaves(before, version, Ok(details)).contains_key(version),
        fetch_leaves(before, version, Ok(details))[version] == details,
        fetch_leaves(before, version, Ok(details)) == before.insert(version, details),
{
}

/// A provisioning that fails leaves the inventory as it was: the version is
/// not installed afterwards, and the report is the classified failure.
pub proof fn failure_installs_nothing<V: Clone>(
    before: Map<VersionView, V>,
    version: VersionView,
    failure: DownloadFailure,
    result: Result<Fetched<V>, ErrorDetails>,
)
    requires
        !before.contains_key(version),
        fetch_reports(before, version, Err(failure), result),
    ensures
        fetch_leaves(before, version, Err(failure)) == before,
        !fetch_leaves::<V>(before, version, Err(failure)).contains_key(version),
        result matches Err(error) && error@ == classify(
            failure.tool@,
            failure.from_url@,
            failure.error@,
        ),
{
}

/// Fetching a version again changes nothing: after a fetch that installed
/// the version, a second fetch of it, however its provisioning would end,
/// leaves the one record that the first fetch made and reports it as
/// `Already`.
pub proof fn second_fetch_changes_nothing<V: Clone>(
    before: Map<VersionView, V>,
    version: VersionView,
    details: V,
    second_outcome: Result<V, DownloadFailure>,
    second_result: Result<Fetched<V>, ErrorDetails>,
)
    requires
        !before.contains_key(version),
        fetch_reports(
            fetch_leaves(before, version, Ok(details)),
            version,
            second_outcome,
            second_result,
        ),
    ensures
        fetch_leaves(fetch_leaves(before, version, Ok(details)), version, second_outcome)
            == fetch_leaves(before, version, Ok(details)),
        fetch_leaves(fetch_leaves(before, version, Ok(details)), version, second_outcome)[version]
            == details,
        second_result matches Ok(Fetched::Already(copy)) && cloned(details, copy),
{
}

/// Two fetches of a version that was not installed, one after the other,
/// leave at most one record of it: that of the first provisioning that
/// succeeded.
pub proof fn first_success_stands<V>(
    before: Map<VersionView, V>,
    version: VersionView,
    first: Result<V, DownloadFailure>,
    second: Result<V, DownloadFailure>,
)
    requires
        !before.contains_key(version),
    ensures
        fetch_leaves(fetch_leaves(before, version, first), version, second) == (match (
            first,
            second,
        ) {
            (Ok(details), _) => before.insert(version, details),
            (Err(_), Ok(details)) => before.insert(version, details),
            (Err(_), Err(_)) => before,
        }),
{
}

/// A fetch never touches what is recorded for another version, and never
/// removes a version.
pub proof fn other_versions_are_untouched<V>(
    before: Map<VersionView, V>,
    version: VersionView,
    outcome: Result<V, DownloadFailure>,
    other: VersionView,
)
    requires
        before.contains_key(other),
    ensures
        fetch_leaves(before, version, outcome).contains_key(other),
        fetch_leaves(before, version, outcome)[other] == before[other],
{
}

/// A "not found" failure is reported as `DownloadToolNotFound`, and the
/// report names the tool that was asked for.
pub proof fn not_found_names_the_tool(
    tool: ToolSpecView,
    from_url: Seq<char>,
    error: TransportErrorView,
)
    requires
        error.is_not_found(),
    ensures
        classify(tool, from_url, error) == (ErrorDetailsView::DownloadToolNotFound { tool }),
{
}

/// Every other failure is reported as `DownloadToolNetworkError`, and the
/// report holds the tool, the words of the failure and the address as they
/// were given.
pub proof fn other_failures_keep_their_words(
    tool: ToolSpecView,
    from_url: Seq<char>,
    error: TransportErrorView,
)
    requires
        !error.is_not_found(),
    ensures
        classify(tool, from_url, error) == (ErrorDetailsView::DownloadToolNetworkError {
            tool,
            error: error.message(),
            from_url,
        }),
{
}

} // verus!
