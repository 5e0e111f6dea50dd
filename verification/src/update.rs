//! Checking for a newer release of the client: what a release says, when to
//! try again, and which file of a release belongs to which system. Asking the
//! release server and replacing the program are the caller's.

use crate::json::{items_view, lemma_items_view, Json, JsonValue};
use crate::text::{opt_text, str_eq, strip_leading, strip_leading_char};
use vstd::prelude::*;
use vstd::string::StringExecFns;

verus! {

/// Where the latest release is described.
pub const RELEASES_URL: &'static str =
    "https://api.github.com/repos/wangenius/gpt-shell/releases/latest";

/// The name by which the client calls itself to the release server.
pub const USER_AGENT: &'static str = "gpt-shell";

/// How often the release server is asked before the check gives up.
pub const MAX_ATTEMPTS: u32 = 3;

/// The seconds between two attempts.
pub const RETRY_DELAY_SECS: u64 = 1;

/// The seconds after which an attempt is given up.
pub const REQUEST_TIMEOUT_SECS: u64 = 10;

/// The self-update facility.
pub struct Update;

/// The systems for which releases are built.
#[derive(Clone, Copy, Debug, PartialEq, Eq, Structural)]
pub enum TargetOs {
    Windows,
    MacOs,
    /// Linux, and every other system.
    Linux,
}

/// Why an update did not come about.
#[derive(Debug, PartialEq, Eq)]
pub enum UpdateError {
    /// The release does not name its version.
    InvalidReleaseFormat,
    /// Every attempt to ask the release server failed; the last reason.
    CheckFailed(String),
    /// The release lists no files.
    NoAssets,
    /// The release has no file for this system.
    AssetNotFound,
}

/// The mathematical value of an [`UpdateError`].
pub enum UpdateFault {
    InvalidReleaseFormat,
    CheckFailed(Seq<char>),
    NoAssets,
    AssetNotFound,
}

impl View for UpdateError {
    type V = UpdateFault;

    open spec fn view(&self) -> UpdateFault {
        match *self {
            UpdateError::InvalidReleaseFormat => UpdateFault::InvalidReleaseFormat,
            UpdateError::CheckFailed(r) => UpdateFault::CheckFailed(r@),
            UpdateError::NoAssets => UpdateFault::NoAssets,
            UpdateError::AssetNotFound => UpdateFault::AssetNotFound,
        }
    }
}

impl UpdateFault {
    /// What the user is told.
    pub open spec fn message(self) -> Seq<char> {
        match self {
            UpdateFault::InvalidReleaseFormat => "invalid release format"@,
            UpdateFault::CheckFailed(r) => "check update failed: "@ + r,
            UpdateFault::NoAssets => "No assets found"@,
            UpdateFault::AssetNotFound => "Asset not found"@,
        }
    }
}

impl UpdateError {
    /// What the user is told.
    pub fn message(&self) -> (r: String)
        ensures
            r@ == self@.message(),
    {
        match self {
            UpdateError::InvalidReleaseFormat => "invalid release format".to_string(),
            UpdateError::CheckFailed(reason) => {
                let mut r = "check update failed: ".to_string();
                r.append(reason.as_str());
                r
            },
            UpdateError::NoAssets => "No assets found".to_string(),
            UpdateError::AssetNotFound => "Asset not found".to_string(),
        }
    }
}

/// How one attempt to ask the release server went.
#[derive(Debug, PartialEq, Eq)]
pub enum Attempt {
    /// The server answered with a release.
    Release(Json),
    /// The server answered with success, but not with JSON; the reason.
    Unreadable(String),
    /// The server answered with a status that is no success.
    Rejected { status: u16, status_text: String },
    /// The server could not be reached; the reason.
    Unreachable(String),
}

/// The mathematical value of an [`Attempt`].
pub enum AttemptValue {
    Release(JsonValue),
    Unreadable(Seq<char>),
    Rejected { status: u16, status_text: Seq<char> },
    Unreachable(Seq<char>),
}

impl View for Attempt {
    type V = AttemptValue;

    open spec fn view(&self) -> AttemptValue {
        match *self {
            Attempt::Release(j) => AttemptValue::Release(j@),
            Attempt::Unreadable(r) => AttemptValue::Unreadable(r@),
            Attempt::Rejected { status, status_text } => AttemptValue::Rejected {
                status,
                status_text: status_text@,
            },
            Attempt::Unreachable(r) => AttemptValue::Unreachable(r@),
        }
    }
}

/// What the check says after an attempt.
#[derive(Debug, PartialEq, Eq)]
pub enum CheckStep {
    /// The check is over: a newer version, none, or an error.
    Done(Result<Option<String>, UpdateError>),
    /// Wait for the retry delay and ask again.
    Retry,
}

/// The mathematical value of a [`CheckStep`].
pub enum CheckAnswer {
    Done(Result<Option<Seq<char>>, UpdateFault>),
    Retry,
}

impl View for CheckStep {
    type V = CheckAnswer;

    open spec fn view(&self) -> CheckAnswer {
        match *self {
            CheckStep::Done(Ok(v)) => CheckAnswer::Done(Ok(opt_text(v))),
            CheckStep::Done(Err(e)) => CheckAnswer::Done(Err(e@)),
            CheckStep::Retry => CheckAnswer::Retry,
        }
    }
}

/// The state of a check as a mathematical value.
pub struct CheckState {
    /// How many attempts are left.
    pub attempts_left: nat,
    /// Why the last attempt failed, where one did.
    pub last_error: Option<Seq<char>>,
}

/// The version that a release names: its tag without the `v`s in front.
pub open spec fn release_version(release: JsonValue) -> Option<Seq<char>> {
    match release.text_member("tag_name"@) {
        Some(tag) => Some(strip_leading(tag, 'v')),
        None => None,
    }
}

/// What a release says to a client of version `current`: the release's
/// version where it is another one, nothing where it is the same, and an
/// error where the release names no version.
pub open spec fn verdict(release: JsonValue, current: Seq<char>) -> Result<
    Option<Seq<char>>,
    UpdateFault,
> {
    match release_version(release) {
        Some(v) => if v != current {
            Ok(Some(v))
        } else {
            Ok(None)
        },
        None => Err(UpdateFault::InvalidReleaseFormat),
    }
}

/// The reason that an attempt leaves behind where it settles nothing.
pub open spec fn attempt_error(attempt: AttemptValue) -> Seq<char> {
    match attempt {
        AttemptValue::Unreadable(r) => "parse response failed: "@ + r,
        AttemptValue::Rejected { status, status_text } => "API request failed, status code: "@
            + status_text,
        AttemptValue::Unreachable(r) => "network request failed: "@ + r,
        AttemptValue::Release(_) => Seq::empty(),
    }
}

/// The reason with which a check gives up.
pub open spec fn give_up_reason(last_error: Option<Seq<char>>) -> Seq<char> {
    match last_error {
        Some(e) => e,
        None => "unknown error"@,
    }
}

/// One step of a check. A release settles it, and so does the status 404,
/// which means that there is no release. Any other attempt uses up one of the
/// attempts and leaves its reason; the check then asks again while attempts
/// are left, and else gives up with the last reason. A check without
/// attempts left gives up at once.
pub open spec fn check_step(s: CheckState, attempt: AttemptValue, current: Seq<char>) -> (
    CheckState,
    CheckAnswer,
) {
    if s.attempts_left == 0 {
        (s, CheckAnswer::Done(Err(UpdateFault::CheckFailed(give_up_reason(s.last_error)))))
    } else {
        match attempt {
            AttemptValue::Release(release) => (s, CheckAnswer::Done(verdict(release, current))),
            AttemptValue::Rejected { status, status_text } if status == 404 => (
                s,
                CheckAnswer::Done(Ok(None)),
            ),
            _ => {
                let left = (s.attempts_left - 1) as nat;
                let next = CheckState {
                    attempts_left: left,
                    last_error: Some(attempt_error(attempt)),
                };
                if left > 0 {
                    (next, CheckAnswer::Retry)
                } else {
                    (
                        next,
                        CheckAnswer::Done(
                            Err(UpdateFault::CheckFailed(attempt_error(attempt))),
                        ),
                    )
                }
            },
        }
    }
}

/// The first of `assets` whose member `name` is the string `name`.
pub open spec fn find_asset(assets: Seq<JsonValue>, name: Seq<char>) -> Option<JsonValue>
    decreases assets.len(),
{
    if assets.len() == 0 {
        None
    } else if assets[0].text_member("name"@) == Some(name) {
        Some(assets[0])
    } else {
        find_asset(assets.drop_first(), name)
    }
}

/// Where the file `name` of a release is to be had: the download URL of the
/// first file of that name.
pub open spec fn asset_url(release: JsonValue, name: Seq<char>) -> Result<Seq<char>, UpdateFault> {
    match release.member("assets"@) {
        Some(JsonValue::Array(assets)) => match find_asset(assets, name) {
            Some(asset) => match asset.text_member("browser_download_url"@) {
                Some(url) => Ok(url),
                None => Err(UpdateFault::AssetNotFound),
            },
            None => Err(UpdateFault::AssetNotFound),
        },
        _ => Err(UpdateFault::NoAssets),
    }
}

impl TargetOs {
    /// The name of the release file for the system.
    pub open spec fn asset(self) -> Seq<char> {
        match self {
            TargetOs::Windows => "gpt-windows-amd64.exe"@,
            TargetOs::MacOs => "gpt-macos-amd64"@,
            TargetOs::Linux => "gpt-linux-amd64"@,
        }
    }
}

impl Update {
    /// The name of the release file for a system.
    pub fn asset_name(os: TargetOs) -> (r: &'static str)
        ensures
            r@ == os.asset(),
    {
        match os {
            TargetOs::Windows => "gpt-windows-amd64.exe",
            TargetOs::MacOs => "gpt-macos-amd64",
            TargetOs::Linux => "gpt-linux-amd64",
        }
    }

    /// What a release says to a client of version `current`.
    pub fn newer_version(release: &Json, current: &str) -> (r: Result<Option<String>, UpdateError>)
        ensures
            match r {
                Ok(v) => verdict(release@, current@) == Ok::<Option<Seq<char>>, UpdateFault>(
                    opt_text(v),
                ),
                Err(e) => verdict(release@, current@) == Err::<Option<Seq<char>>, UpdateFault>(e@),
            },
    {
        match release.text_member("tag_name") {
            Some(tag) => {
                let version = strip_leading_char(tag, 'v');
                if !str_eq(version, current) {
                    Ok(Some(version.to_string()))
                } else {
                    Ok(None)
                }
            },
            None => Err(UpdateError::InvalidReleaseFormat),
        }
    }

    /// Where the file `name` of a release is to be had.
    pub fn download_url(release: &Json, name: &str) -> (r: Result<String, UpdateError>)
        ensures
            match r {
                Ok(url) => asset_url(release@, name@) == Ok::<Seq<char>, UpdateFault>(url@),
                Err(e) => asset_url(release@, name@) == Err::<Seq<char>, UpdateFault>(e@),
            },
    {
        let assets = match release.member("assets") {
            Some(a) => match a.as_array() {
                Some(items) => items,
                None => {
                    return Err(UpdateError::NoAssets);
                },
            },
            None => {
                return Err(UpdateError::NoAssets);
            },
        };
        let ghost all = items_view(assets@);
        proof {
            lemma_items_view(assets@);
            assert(all.skip(0) =~= all);
        }
        let mut i: usize = 0;
        while i < assets.len()
            invariant
                i <= assets.len(),
                release@.member("assets"@) == Some(JsonValue::Array(all)),
                all == items_view(assets@),
                all.len() == assets.len(),
                forall|k: int| 0 <= k < assets.len() ==> (#[trigger] all[k]) == assets@[k]@,
                find_asset(all, name@) == find_asset(all.skip(i as int), name@),
            decreases assets.len() - i,
        {
            assert(all.skip(i as int)[0] == all[i as int]);
            assert(all.skip(i as int).drop_first() =~= all.skip(i as int + 1));
            let named = match assets[i].text_member("name") {
                Some(n) => str_eq(n, name),
                None => false,
            };
            if named {
                return match assets[i].text_member("browser_download_url") {
                    Some(url) => Ok(url.to_string()),
                    None => Err(UpdateError::AssetNotFound),
                };
            }
            i += 1;
        }
        Err(UpdateError::AssetNotFound)
    }
}

/// A check for a newer release, attempt by attempt.
pub struct UpdateCheck {
    attempts_left: u32,
    last_error: Option<String>,
}

impl View for UpdateCheck {
    type V = CheckState;

    closed spec fn view(&self) -> CheckState {
        CheckState { attempts_left: self.attempts_left as nat, last_error: opt_text(self.last_error) }
    }
}

impl UpdateCheck {
    /// A check with all its attempts left.
    pub fn new() -> (c: UpdateCheck)
        ensures
            c@ == (CheckState { attempts_left: MAX_ATTEMPTS as nat, last_error: None }),
    {
        UpdateCheck { attempts_left: MAX_ATTEMPTS, last_error: None }
    }

    /// How many attempts are left.
    pub fn attempts_left(&self) -> (n: u32)
        ensures
            n == self@.attempts_left,
    {
        self.attempts_left
    }

    /// Takes how an attempt went, for a client of version `current`.
    pub fn on_attempt(&mut self, attempt: Attempt, current: &str) -> (r: CheckStep)
        ensures
            final(self)@ == check_step(old(self)@, attempt@, current@).0,
            r@ == check_step(old(self)@, attempt@, current@).1,
    {
        if self.attempts_left == 0 {
            let reason = match &self.last_error {
                Some(e) => e.clone(),
                None => "unknown error".to_string(),
            };
            return CheckStep::Done(Err(UpdateError::CheckFailed(reason)));
        }
        let reason = match attempt {
            Attempt::Release(release) => {
                return CheckStep::Done(Update::newer_version(&release, current));
            },
            Attempt::Rejected { status, status_text } => {
                if status == 404 {
                    return CheckStep::Done(Ok(None));
                }
                let mut r = "API request failed, status code: ".to_string();
                r.append(status_text.as_str());
                r
            },
            Attempt::Unreadable(e) => {
                let mut r = "parse response failed: ".to_string();
                r.append(e.as_str());
                r
            },
            Attempt::Unreachable(e) => {
                let mut r = "network request failed: ".to_string();
                r.append(e.as_str());
                r
            },
        };
        self.attempts_left = self.attempts_left - 1;
        self.last_error = Some(reason.clone());
        if self.attempts_left > 0 {
            CheckStep::Retry
        } else {
            CheckStep::Done(Err(UpdateError::CheckFailed(reason)))
        }
    }
}

} // verus!
