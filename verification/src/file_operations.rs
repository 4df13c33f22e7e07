use crate::asset_match::words_of;
use crate::file_checker::{archive_header, checksum_agrees, verify_sha3_256, verify_zip_integrity};
use crate::types::{copy_text, text_of};
use vstd::prelude::*;

verus! {

/// The size below which a file cannot be a complete artifact.
pub const MIN_ARTIFACT_SIZE: u64 = 1000;

/// Runs the tools that transfer and unpack artifacts.
#[derive(Debug, Clone, PartialEq, Eq)]
pub struct FileOperations {
    pub zip_path: String,
}

/// The arguments of the transfer tool for the download of an artifact:
/// resuming a partial file, following redirections, failing on an error
/// status, at most 30 seconds to connect and 1800 seconds in all, writing to
/// the destination, then the address, and the credential as a cookie where
/// one is given.
pub open spec fn download_arguments_of(
    destination: Seq<char>,
    url: Seq<char>,
    credential: Option<Seq<char>>,
) -> Seq<Seq<char>> {
    let fixed = seq![
        "-C"@,
        "-"@,
        "-L"@,
        "--progress-bar"@,
        "--fail"@,
        "--connect-timeout"@,
        "30"@,
        "--max-time"@,
        "1800"@,
        "-o"@,
        destination,
        url,
    ];
    match credential {
        Some(cookie) => fixed + seq!["-H"@, "Cookie: "@ + cookie],
        None => fixed,
    }
}

/// The arguments of the archive tool that unpacks an archive into a
/// directory, overwriting what is there.
pub open spec fn extract_arguments_of(archive: Seq<char>, target: Seq<char>) -> Seq<Seq<char>> {
    seq!["x"@, archive, "-o"@ + target, "-y"@]
}

/// Whether a transfer brought a file: the tool succeeded, the file is there,
/// and it is larger than the least size of an artifact.
pub open spec fn transfer_succeeded(exit_success: bool, size: Option<u64>) -> bool {
    exit_success && size is Some && size->0 > MIN_ARTIFACT_SIZE
}

/// Whether a transfer brought a file that is too small to be an artifact:
/// the tool succeeded and the file is there, but it is no larger than the
/// least size. Such a file is removed before the fetch fails.
pub open spec fn transfer_fell_short(exit_success: bool, size: Option<u64>) -> bool {
    exit_success && size is Some && size->0 <= MIN_ARTIFACT_SIZE
}

impl FileOperations {
    /// File operations that unpack with the archive tool at `zip_path`.
    pub fn new(zip_path: &str) -> (operations: FileOperations)
        ensures
            operations.zip_path@ == zip_path@,
    {
        FileOperations { zip_path: zip_path.to_owned() }
    }

    /// The arguments with which the transfer tool downloads an artifact.
    pub fn download_arguments(&self, url: &str, save_path: &str, github_cookie: &Option<String>)
        -> (arguments: Vec<String>)
        ensures
            words_of(arguments@) == download_arguments_of(
                save_path@,
                url@,
                text_of(*github_cookie),
            ),
    {
        let mut arguments: Vec<String> = vec![
            String::from_str("-C"),
            String::from_str("-"),
            String::from_str("-L"),
            String::from_str("--progress-bar"),
            String::from_str("--fail"),
            String::from_str("--connect-timeout"),
            String::from_str("30"),
            String::from_str("--max-time"),
            String::from_str("1800"),
            String::from_str("-o"),
            save_path.to_owned(),
            url.to_owned(),
        ];
        let ghost fixed = seq![
            "-C"@,
            "-"@,
            "-L"@,
            "--progress-bar"@,
            "--fail"@,
            "--connect-timeout"@,
            "30"@,
            "--max-time"@,
            "1800"@,
            "-o"@,
            save_path@,
            url@,
        ];
        assert(words_of(arguments@) == fixed);
        match github_cookie {
            Some(cookie) => {
                let mut header: String = String::from_str("Cookie: ");
                header.append(cookie.as_str());
                arguments.push(String::from_str("-H"));
                arguments.push(header);
                assert(words_of(arguments@) == fixed + seq!["-H"@, "Cookie: "@ + cookie@]);
            },
            None => {},
        }
        arguments
    }

    /// Whether a transfer brought a file.
    pub fn download_succeeded(&self, exit_success: bool, size: Option<u64>) -> (succeeded: bool)
        ensures
            succeeded == transfer_succeeded(exit_success, size),
    {
        match size {
            Some(bytes) => exit_success && bytes > MIN_ARTIFACT_SIZE,
            None => false,
        }
    }

    /// The arguments with which the archive tool unpacks an archive.
    pub fn extract_arguments(&self, zip_path: &str, extract_path: &str) -> (arguments: Vec<
        String,
    >)
        ensures
            words_of(arguments@) == extract_arguments_of(zip_path@, extract_path@),
    {
        let mut target: String = String::from_str("-o");
        target.append(extract_path);
        let arguments: Vec<String> = vec![
            String::from_str("x"),
            zip_path.to_owned(),
            target,
            String::from_str("-y"),
        ];
        assert(words_of(arguments@) == extract_arguments_of(zip_path@, extract_path@));
        arguments
    }
}

/// Why an artifact could not be fetched.
#[derive(Clone, Copy, Debug, PartialEq, Eq, Structural)]
pub enum FetchError {
    /// The transfer failed or brought no plausible file.
    DownloadFailed,
    /// The file that the transfer brought does not pass the check.
    IntegrityMismatch,
}

/// How a fetch ended.
#[derive(Clone, Copy, Debug, PartialEq, Eq, Structural)]
pub enum FetchOutcome {
    /// The destination already held the artifact; nothing was transferred.
    AlreadyFetched,
    /// The artifact was transferred and passed the check.
    Fetched,
    /// The fetch failed; the artifact must not be installed.
    Failed(FetchError),
}

/// Where a fetch stands.
#[derive(Clone, Copy, Debug, PartialEq, Eq, Structural)]
pub enum FetchState {
    /// The size of what the destination holds is awaited.
    Probing,
    /// The check of what the destination held beforehand is awaited.
    CheckingExisting,
    /// The removal of what the destination held is awaited.
    Removing,
    /// The transfer is awaited.
    Downloading,
    /// The removal of what a transfer brought is awaited, because it is too
    /// small to be an artifact.
    Discarding,
    /// The check of what the transfer brought is awaited.
    CheckingDownload,
    /// The fetch has ended.
    Done(FetchOutcome),
}

/// What is to be done next for a fetch.
#[derive(Clone, Copy, Debug, PartialEq, Eq, Structural)]
pub enum FetchAction {
    /// Look up the size of the destination.
    Inspect,
    /// Compute the checksum of the destination.
    ComputeChecksum,
    /// Read the first four bytes of the destination.
    ReadHeader,
    /// Remove the destination.
    Remove,
    /// Transfer the artifact to the destination.
    Download,
    /// Nothing: the fetch has ended in this way.
    Finished(FetchOutcome),
}

/// What came of the action that a fetch asked for.
#[derive(Debug, Clone, PartialEq, Eq)]
pub enum FetchEvent {
    /// The size of the destination, or `None` where it does not exist.
    Size(Option<u64>),
    /// The checksum of the destination, or `None` where none could be computed.
    Checksum(Option<String>),
    /// The first bytes of the destination: four, or fewer where it is shorter.
    Header(Vec<u8>),
    /// The removal ended: whether the destination is gone.
    Removed(bool),
    /// The transfer ended: whether the tool succeeded, and the size of the
    /// destination after it, or `None` where it does not exist.
    Transferred(bool, Option<u64>),
}

/// Whether an event brings the check that a fetch awaits: the checksum where
/// one is expected, the first bytes where none is.
pub open spec fn answers_check(expected: Option<Seq<char>>, event: FetchEvent) -> bool {
    match event {
        FetchEvent::Checksum(_) => expected is Some,
        FetchEvent::Header(_) => expected is None,
        _ => false,
    }
}

/// Whether an event shows that the destination holds the artifact: where a
/// checksum is expected, the computed one agrees with it; where none is, the
/// first bytes are those of an archive.
pub open spec fn passes_check(expected: Option<Seq<char>>, event: FetchEvent) -> bool {
    match event {
        FetchEvent::Checksum(Some(found)) => expected is Some && checksum_agrees(
            found@,
            expected->0,
        ),
        FetchEvent::Header(header) => expected is None && archive_header(header@),
        _ => false,
    }
}

/// The state of a fetch after an event. An event that the state does not
/// await changes nothing.
///
/// What the destination holds beforehand is removed and fetched anew where it
/// is smaller than an artifact can be, whether or not a checksum is expected;
/// otherwise it is checked, kept where it passes, and removed and fetched
/// anew where it does not. Nothing is transferred onto a file that could not
/// be removed: the fetch then fails. A transfer that failed ends the fetch;
/// one that brought a file too small to be an artifact ends it too, but only
/// after that file was removed. What a transfer brought is checked like what
/// was there beforehand, and the fetch fails for good where it does not pass.
pub open spec fn fetch_step(state: FetchState, expected: Option<Seq<char>>, event: FetchEvent)
    -> FetchState {
    match state {
        FetchState::Probing => match event {
            FetchEvent::Size(None) => FetchState::Downloading,
            FetchEvent::Size(Some(size)) => if size < MIN_ARTIFACT_SIZE {
                FetchState::Removing
            } else {
                FetchState::CheckingExisting
            },
            _ => state,
        },
        FetchState::CheckingExisting => if !answers_check(expected, event) {
            state
        } else if passes_check(expected, event) {
            FetchState::Done(FetchOutcome::AlreadyFetched)
        } else {
            FetchState::Removing
        },
        FetchState::Removing => match event {
            FetchEvent::Removed(true) => FetchState::Downloading,
            FetchEvent::Removed(false) => FetchState::Done(
                FetchOutcome::Failed(FetchError::DownloadFailed),
            ),
            _ => state,
        },
        FetchState::Downloading => match event {
            FetchEvent::Transferred(exit_success, size) => if transfer_succeeded(
                exit_success,
                size,
            ) {
                FetchState::CheckingDownload
            } else if transfer_fell_short(exit_success, size) {
                FetchState::Discarding
            } else {
                FetchState::Done(FetchOutcome::Failed(FetchError::DownloadFailed))
            },
            _ => state,
        },
        FetchState::Discarding => match event {
            FetchEvent::Removed(_) => FetchState::Done(
                FetchOutcome::Failed(FetchError::DownloadFailed),
            ),
            _ => state,
        },
        FetchState::CheckingDownload => if !answers_check(expected, event) {
            state
        } else if passes_check(expected, event) {
            FetchState::Done(FetchOutcome::Fetched)
        } else {
            FetchState::Done(FetchOutcome::Failed(FetchError::IntegrityMismatch))
        },
        FetchState::Done(_) => state,
    }
}

/// What a fetch in a state asks for.
pub open spec fn fetch_action(state: FetchState, expected: Option<Seq<char>>) -> FetchAction {
    match state {
        FetchState::Probing => FetchAction::Inspect,
        FetchState::CheckingExisting | FetchState::CheckingDownload => if expected is Some {
            FetchAction::ComputeChecksum
        } else {
            FetchAction::ReadHeader
        },
        FetchState::Removing | FetchState::Discarding => FetchAction::Remove,
        FetchState::Downloading => FetchAction::Download,
        FetchState::Done(outcome) => FetchAction::Finished(outcome),
    }
}

/// Fetches one artifact to a destination, step by step: it says what is to be
/// done next, and takes what came of it.
#[derive(Debug, Clone, PartialEq, Eq)]
pub struct ArtifactFetcher {
    pub url: String,
    pub destination: String,
    pub expected_checksum: Option<String>,
    pub credential: Option<String>,
    pub state: FetchState,
}

impl ArtifactFetcher {
    /// A fetch of the artifact at `url` to `destination` that has not begun.
    pub fn new(
        url: &str,
        destination: &str,
        expected_checksum: &Option<String>,
        credential: &Option<String>,
    ) -> (fetcher: ArtifactFetcher)
        ensures
            fetcher.url@ == url@,
            fetcher.destination@ == destination@,
            fetcher.expected_checksum == *expected_checksum,
            fetcher.credential == *credential,
            fetcher.state == FetchState::Probing,
    {
        ArtifactFetcher {
            url: url.to_owned(),
            destination: destination.to_owned(),
            expected_checksum: copy_text(expected_checksum),
            credential: copy_text(credential),
            state: FetchState::Probing,
        }
    }

    /// What is to be done next.
    pub fn action(&self) -> (action: FetchAction)
        ensures
            action == fetch_action(self.state, text_of(self.expected_checksum)),
    {
        match self.state {
            FetchState::Probing => FetchAction::Inspect,
            FetchState::CheckingExisting | FetchState::CheckingDownload => {
                if self.expected_checksum.is_some() {
                    FetchAction::ComputeChecksum
                } else {
                    FetchAction::ReadHeader
                }
            },
            FetchState::Removing | FetchState::Discarding => FetchAction::Remove,
            FetchState::Downloading => FetchAction::Download,
            FetchState::Done(outcome) => FetchAction::Finished(outcome),
        }
    }

    /// How the fetch ended, or `None` while it has not.
    pub fn outcome(&self) -> (outcome: Option<FetchOutcome>)
        ensures
            outcome == match self.state {
                FetchState::Done(o) => Some(o),
                _ => None,
            },
    {
        match self.state {
            FetchState::Done(o) => Some(o),
            _ => None,
        }
    }

    /// Whether the event shows that the destination holds the artifact;
    /// `None` where the event does not bring the awaited check.
    fn check(&self, event: &FetchEvent) -> (passed: Option<bool>)
        ensures
            passed == if answers_check(text_of(self.expected_checksum), *event) {
                Some(passes_check(text_of(self.expected_checksum), *event))
            } else {
                None
            },
    {
        match event {
            FetchEvent::Checksum(found) => match &self.expected_checksum {
                Some(expected) => match found {
                    Some(hash) => Some(verify_sha3_256(hash.as_str(), expected.as_str())),
                    None => Some(false),
                },
                None => None,
            },
            FetchEvent::Header(header) => match &self.expected_checksum {
                Some(_) => None,
                None => Some(verify_zip_integrity(header.as_slice())),
            },
            _ => None,
        }
    }

    /// Takes what came of the last action, and says what is to be done next.
    pub fn step(&mut self, event: &FetchEvent) -> (action: FetchAction)
        ensures
            final(self).state == fetch_step(
                old(self).state,
                text_of(old(self).expected_checksum),
                *event,
            ),
            final(self).url == old(self).url,
            final(self).destination == old(self).destination,
            final(self).expected_checksum == old(self).expected_checksum,
            final(self).credential == old(self).credential,
            action == fetch_action(final(self).state, text_of(final(self).expected_checksum)),
    {
        let next: FetchState = match self.state {
            FetchState::Probing => match event {
                FetchEvent::Size(None) => FetchState::Downloading,
                FetchEvent::Size(Some(size)) => {
                    if *size < MIN_ARTIFACT_SIZE {
                        FetchState::Removing
                    } else {
                        FetchState::CheckingExisting
                    }
                },
                _ => self.state,
            },
            FetchState::CheckingExisting => match self.check(event) {
                None => self.state,
                Some(true) => FetchState::Done(FetchOutcome::AlreadyFetched),
                Some(false) => FetchState::Removing,
            },
            FetchState::Removing => match event {
                FetchEvent::Removed(true) => FetchState::Downloading,
                FetchEvent::Removed(false) => FetchState::Done(
                    FetchOutcome::Failed(FetchError::DownloadFailed),
                ),
                _ => self.state,
            },
            FetchState::Discarding => match event {
                FetchEvent::Removed(_) => FetchState::Done(
                    FetchOutcome::Failed(FetchError::DownloadFailed),
                ),
                _ => self.state,
            },
            FetchState::Downloading => match event {
                FetchEvent::Transferred(exit_success, size) => {
                    match size {
                        Some(bytes) => {
                            if !*exit_success {
                                FetchState::Done(FetchOutcome::Failed(FetchError::DownloadFailed))
                            } else if *bytes > MIN_ARTIFACT_SIZE {
                                FetchState::CheckingDownload
                            } else {
                                FetchState::Discarding
                            }
                        },
                        None => FetchState::Done(
                            FetchOutcome::Failed(FetchError::DownloadFailed),
                        ),
                    }
                },
                _ => self.state,
            },
            FetchState::CheckingDownload => match self.check(event) {
                None => self.state,
                Some(true) => FetchState::Done(FetchOutcome::Fetched),
                Some(false) => FetchState::Done(
                    FetchOutcome::Failed(FetchError::IntegrityMismatch),
                ),
            },
            FetchState::Done(_) => self.state,
        };
        self.state = next;
        self.action()
    }
}

/// A destination that holds fewer bytes than an artifact can have is always
/// removed and, once it is gone, fetched anew, whether or not a checksum is
/// expected: it is never checked and never kept.
pub proof fn small_destination_is_fetched_anew(expected: Option<Seq<char>>, size: u64)
    requires
        size < MIN_ARTIFACT_SIZE,
    ensures
        fetch_step(FetchState::Probing, expected, FetchEvent::Size(Some(size)))
            == FetchState::Removing,
        fetch_action(FetchState::Removing, expected) == FetchAction::Remove,
        fetch_step(FetchState::Removing, expected, FetchEvent::Removed(true))
            == FetchState::Downloading,
        fetch_action(FetchState::Downloading, expected) == FetchAction::Download,
{
}

/// Nothing is transferred onto a file that could not be removed: the fetch
/// then fails without a transfer, and a transfer is asked for only when the
/// destination was absent or is gone.
pub proof fn transfer_needs_a_free_destination(
    state: FetchState,
    expected: Option<Seq<char>>,
    event: FetchEvent,
)
    ensures
        fetch_step(FetchState::Removing, expected, FetchEvent::Removed(false))
            == FetchState::Done(FetchOutcome::Failed(FetchError::DownloadFailed)),
        state != FetchState::Downloading && fetch_step(state, expected, event)
            == FetchState::Downloading ==> (state == FetchState::Probing && event
            == FetchEvent::Size(None)) || (state == FetchState::Removing && event
            == FetchEvent::Removed(true)),
{
}

/// A transfer whose tool succeeded but which brought a file no larger than
/// the least size of an artifact fails the fetch, and the file is removed
/// first: the fetch asks for the removal and ends only when that has ended,
/// whether or not the file is gone. So no such file is there for a later
/// fetch to take for the artifact.
pub proof fn short_transfer_is_removed(expected: Option<Seq<char>>, size: u64, gone: bool)
    requires
        size <= MIN_ARTIFACT_SIZE,
    ensures
        fetch_step(FetchState::Downloading, expected, FetchEvent::Transferred(true, Some(size)))
            == FetchState::Discarding,
        fetch_action(FetchState::Discarding, expected) == FetchAction::Remove,
        fetch_step(FetchState::Discarding, expected, FetchEvent::Removed(gone))
            == FetchState::Done(FetchOutcome::Failed(FetchError::DownloadFailed)),
{
}

/// A transfer counts only where its tool succeeded and the destination then
/// holds more than the least size of an artifact; a transfer whose tool
/// failed, or after which there is no file, ends the fetch at once.
pub proof fn transfer_counts_only_with_a_whole_file(
    expected: Option<Seq<char>>,
    exit_success: bool,
    size: Option<u64>,
)
    ensures
        fetch_step(
            FetchState::Downloading,
            expected,
            FetchEvent::Transferred(exit_success, size),
        ) == FetchState::CheckingDownload <==> exit_success && size is Some && size->0
            > MIN_ARTIFACT_SIZE,
        !exit_success || size is None ==> fetch_step(
            FetchState::Downloading,
            expected,
            FetchEvent::Transferred(exit_success, size),
        ) == FetchState::Done(FetchOutcome::Failed(FetchError::DownloadFailed)),
{
}

/// A fetch ends well only by a check that passed: no artifact counts as
/// fetched on the strength of its transfer alone.
pub proof fn fetched_means_checked(
    state: FetchState,
    expected: Option<Seq<char>>,
    event: FetchEvent,
)
    requires
        !(state is Done),
        fetch_step(state, expected, event) is Done,
        !(fetch_step(state, expected, event)->Done_0 is Failed),
    ensures
        state == FetchState::CheckingExisting || state == FetchState::CheckingDownload,
        passes_check(expected, event),
{
}

/// A destination that passes the check beforehand is kept: the fetch ends
/// without a transfer. One that fails it is removed and fetched anew.
pub proof fn valid_destination_is_kept(expected: Option<Seq<char>>, event: FetchEvent)
    requires
        answers_check(expected, event),
    ensures
        passes_check(expected, event) ==> fetch_step(
            FetchState::CheckingExisting,
            expected,
            event,
        ) == FetchState::Done(FetchOutcome::AlreadyFetched),
        !passes_check(expected, event) ==> fetch_step(
            FetchState::CheckingExisting,
            expected,
            event,
        ) == FetchState::Removing,
{
}

/// What a transfer brought is checked again, and a failure of that check
/// ends the fetch for good: no later event changes how it ended.
pub proof fn failed_check_is_final(
    expected: Option<Seq<char>>,
    event: FetchEvent,
    later: FetchEvent,
)
    requires
        answers_check(expected, event),
        !passes_check(expected, event),
    ensures
        fetch_step(FetchState::CheckingDownload, expected, event) == FetchState::Done(
            FetchOutcome::Failed(FetchError::IntegrityMismatch),
        ),
        fetch_step(fetch_step(FetchState::CheckingDownload, expected, event), expected, later)
            == fetch_step(FetchState::CheckingDownload, expected, event),
{
}

} // verus!
