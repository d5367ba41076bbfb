//! Releases as the registry describes them: how a requested version maps to
//! a tag, how the registry's answer is read, and how the archive for this
//! platform is found among a release's assets.

use crate::constants::TAG_PREFIX;
use crate::error::{ErrorKind, Failure, FailureView};
use crate::platform::{asset_file_name, asset_name, PlatformInfo};
use crate::text::{chars_of, option_view, starts_with};
use vstd::prelude::*;
use vstd::string::*;

verus! {

/// One downloadable file of a release.
#[derive(Clone, Debug, PartialEq, Eq)]
pub struct AssetDescriptor {
    pub name: String,
    pub download_url: String,
    pub size_bytes: u64,
}

/// An `AssetDescriptor` as a mathematical value.
pub struct AssetView {
    pub name: Seq<char>,
    pub download_url: Seq<char>,
    pub size_bytes: u64,
}

impl View for AssetDescriptor {
    type V = AssetView;

    open spec fn view(&self) -> AssetView {
        AssetView {
            name: self.name@,
            download_url: self.download_url@,
            size_bytes: self.size_bytes,
        }
    }
}

/// A release: its tag and its assets, in the registry's order.
#[derive(Clone, Debug, PartialEq, Eq)]
pub struct ReleaseDescriptor {
    pub tag: String,
    pub assets: Vec<AssetDescriptor>,
}

/// A `ReleaseDescriptor` as a mathematical value.
pub struct ReleaseView {
    pub tag: Seq<char>,
    pub assets: Seq<AssetView>,
}

impl View for ReleaseDescriptor {
    type V = ReleaseView;

    open spec fn view(&self) -> ReleaseView {
        ReleaseView {
            tag: self.tag@,
            assets: self.assets@.map_values(|asset: AssetDescriptor| asset@),
        }
    }
}

/// Which release a command asks for.
#[derive(Clone, Debug, PartialEq, Eq)]
pub enum VersionSelector {
    /// The newest release.
    Latest,
    /// The release of the given version.
    Explicit(String),
}

/// A `VersionSelector` as a mathematical value.
pub enum SelectorView {
    Latest,
    Explicit(Seq<char>),
}

impl View for VersionSelector {
    type V = SelectorView;

    open spec fn view(&self) -> SelectorView {
        match self {
            VersionSelector::Latest => SelectorView::Latest,
            VersionSelector::Explicit(version) => SelectorView::Explicit(version@),
        }
    }
}

/// What the registry answered to a request for a release.
#[derive(Clone, Debug, PartialEq, Eq)]
pub enum RegistryReply {
    /// The release asked for.
    Found(ReleaseDescriptor),
    /// The registry has no such release.
    NotFound,
    /// The registry did not answer; the text says why.
    Unreachable(String),
}

/// A `RegistryReply` as a mathematical value.
pub enum ReplyView {
    Found(ReleaseView),
    NotFound,
    Unreachable(Seq<char>),
}

impl View for RegistryReply {
    type V = ReplyView;

    open spec fn view(&self) -> ReplyView {
        match self {
            RegistryReply::Found(release) => ReplyView::Found(release@),
            RegistryReply::NotFound => ReplyView::NotFound,
            RegistryReply::Unreachable(reason) => ReplyView::Unreachable(reason@),
        }
    }
}

/// A registry request that brought no release, as the client reports it.
#[derive(Clone, Debug, PartialEq, Eq)]
pub struct RegistryError {
    /// The HTTP status of the registry's answer, if it answered at all.
    pub status: Option<u16>,
    /// The client's description of what went wrong.
    pub message: String,
}

/// A `RegistryError` as a mathematical value.
pub struct RegistryErrorView {
    pub status: Option<u16>,
    pub message: Seq<char>,
}

impl View for RegistryError {
    type V = RegistryErrorView;

    open spec fn view(&self) -> RegistryErrorView {
        RegistryErrorView { status: self.status, message: self.message@ }
    }
}

/// The HTTP status with which the registry says that it has no such release.
pub const STATUS_NOT_FOUND: u16 = 404;

/// What a failed request means: an answer with status 404 says that the
/// release does not exist; everything else, an answer with another status
/// or no answer at all, counts as a registry that could not be reached.
pub open spec fn reply_of_error(error: RegistryErrorView) -> ReplyView {
    if error.status == Some(STATUS_NOT_FOUND) {
        ReplyView::NotFound
    } else {
        ReplyView::Unreachable(error.message)
    }
}

/// The selector that an optional version argument stands for.
pub open spec fn selector_of(version: Option<Seq<char>>) -> SelectorView {
    match version {
        Some(v) => SelectorView::Explicit(v),
        None => SelectorView::Latest,
    }
}

/// The tag under which the release of `version` is published.
pub open spec fn tag_of_version(version: Seq<char>) -> Seq<char> {
    TAG_PREFIX@ + version
}

/// The version that a tag names: the tag without the tag prefix, or the
/// whole tag if it does not begin with the prefix.
pub open spec fn version_of_tag(tag: Seq<char>) -> Seq<char> {
    if TAG_PREFIX@.is_prefix_of(tag) {
        tag.skip(TAG_PREFIX@.len() as int)
    } else {
        tag
    }
}

/// How a failed lookup names what was asked for.
pub open spec fn requested_name(selector: SelectorView) -> Seq<char> {
    match selector {
        SelectorView::Latest => "latest"@,
        SelectorView::Explicit(version) => version,
    }
}

/// What a registry answer means for the command that asked.
pub open spec fn resolution(selector: SelectorView, reply: ReplyView) -> Result<
    ReleaseView,
    FailureView,
> {
    match reply {
        ReplyView::Found(release) => Ok(release),
        ReplyView::NotFound => Err(
            FailureView { kind: ErrorKind::VersionNotFound, detail: requested_name(selector) },
        ),
        ReplyView::Unreachable(reason) => Err(
            FailureView { kind: ErrorKind::RegistryUnreachable, detail: reason },
        ),
    }
}

/// Position of the first asset called `name`, or the number of assets when
/// none is called so.
pub open spec fn position_of(assets: Seq<AssetView>, name: Seq<char>) -> int
    decreases assets.len(),
{
    if assets.len() == 0 || assets.first().name == name {
        0
    } else {
        1 + position_of(assets.drop_first(), name)
    }
}

/// The asset of `release` for `platform`: the first one whose name is the
/// platform's archive name. Without one, the failure names that file.
pub open spec fn selection(release: ReleaseView, platform: PlatformInfo) -> Result<
    AssetView,
    FailureView,
> {
    let wanted = asset_name(platform);
    let i = position_of(release.assets, wanted);
    if 0 <= i < release.assets.len() {
        Ok(release.assets[i])
    } else {
        Err(FailureView { kind: ErrorKind::AssetNotFound, detail: wanted })
    }
}

/// The version that an install of `release` records: the requested version
/// if one was named, else the version that the release's tag names.
pub open spec fn label_of(selector: SelectorView, release: ReleaseView) -> Seq<char> {
    match selector {
        SelectorView::Explicit(version) => version,
        SelectorView::Latest => version_of_tag(release.tag),
    }
}

/// `position_of` is pinned by the first position whose asset has the name.
pub proof fn lemma_position_of(assets: Seq<AssetView>, name: Seq<char>, m: int)
    requires
        0 <= m <= assets.len(),
        forall|j: int| 0 <= j < m ==> assets[j].name != name,
        m == assets.len() || assets[m].name == name,
    ensures
        position_of(assets, name) == m,
    decreases m,
{
    if m > 0 {
        let rest = assets.drop_first();
        assert forall|j: int| 0 <= j < m - 1 implies rest[j].name != name by {
            assert(rest[j] == assets[j + 1]);
        }
        lemma_position_of(rest, name, m - 1);
    }
}

/// The version named by the tag of a version is that version.
pub proof fn lemma_tag_round_trip(version: Seq<char>)
    ensures
        version_of_tag(tag_of_version(version)) == version,
{
    let tag = tag_of_version(version);
    assert(tag.subrange(0, TAG_PREFIX@.len() as int) == TAG_PREFIX@);
    assert(tag.skip(TAG_PREFIX@.len() as int) == version);
}

impl AssetDescriptor {
    /// A copy of this asset.
    pub fn duplicate(&self) -> (copy: AssetDescriptor)
        ensures
            copy@ == self@,
    {
        AssetDescriptor {
            name: self.name.clone(),
            download_url: self.download_url.clone(),
            size_bytes: self.size_bytes,
        }
    }
}

impl RegistryReply {
    /// The reply that the outcome of a registry request stands for.
    pub fn from_outcome(outcome: Result<ReleaseDescriptor, RegistryError>) -> (reply:
        RegistryReply)
        ensures
            reply@ == match outcome {
                Ok(release) => ReplyView::Found(release@),
                Err(error) => reply_of_error(error@),
            },
    {
        match outcome {
            Ok(release) => RegistryReply::Found(release),
            Err(error) => match error.status {
                Some(status) => if status == STATUS_NOT_FOUND {
                    RegistryReply::NotFound
                } else {
                    RegistryReply::Unreachable(error.message)
                },
                None => RegistryReply::Unreachable(error.message),
            },
        }
    }
}

impl VersionSelector {
    /// The selector for an optional version argument: the named version, or
    /// the newest release when none is named.
    pub fn from_option(version: Option<String>) -> (selector: VersionSelector)
        ensures
            selector@ == selector_of(option_view(version)),
    {
        match version {
            Some(v) => VersionSelector::Explicit(v),
            None => VersionSelector::Latest,
        }
    }

    /// A copy of this selector.
    pub fn duplicate(&self) -> (copy: VersionSelector)
        ensures
            copy@ == self@,
    {
        match self {
            VersionSelector::Latest => VersionSelector::Latest,
            VersionSelector::Explicit(version) => VersionSelector::Explicit(version.clone()),
        }
    }
}

/// The tag under which the release of `version` is published.
pub fn release_tag(version: &str) -> (tag: String)
    ensures
        tag@ == tag_of_version(version@),
{
    let mut tag = String::from_str(TAG_PREFIX);
    tag.append(version);
    tag
}

/// The version that `tag` names.
pub fn strip_tag_prefix(tag: &str) -> (version: String)
    ensures
        version@ == version_of_tag(tag@),
{
    let text = chars_of(tag);
    let prefix = chars_of(TAG_PREFIX);
    if starts_with(&text, &prefix) {
        let rest = tag.substring_char(prefix.len(), text.len());
        rest.to_owned()
    } else {
        tag.to_owned()
    }
}

/// Reads the registry's answer to the request that `selector` stands for.
///
/// A release that was found is handed on as it is. An answer of "no such
/// release" is a `VersionNotFound` failure that names the version asked for;
/// a registry that did not answer is a `RegistryUnreachable` failure with
/// the reason.
pub fn resolve(selector: &VersionSelector, reply: RegistryReply) -> (result: Result<
    ReleaseDescriptor,
    Failure,
>)
    ensures
        match result {
            Ok(release) => resolution(selector@, reply@) == Ok::<ReleaseView, FailureView>(
                release@,
            ),
            Err(failure) => resolution(selector@, reply@) == Err::<ReleaseView, FailureView>(
                failure@,
            ),
        },
{
    match reply {
        RegistryReply::Found(release) => Ok(release),
        RegistryReply::NotFound => {
            let detail = match selector {
                VersionSelector::Latest => String::from_str("latest"),
                VersionSelector::Explicit(version) => version.clone(),
            };
            Err(Failure::new(ErrorKind::VersionNotFound, detail))
        },
        RegistryReply::Unreachable(reason) => Err(
            Failure::new(ErrorKind::RegistryUnreachable, reason),
        ),
    }
}

/// Finds the archive for `platform` among the assets of `release`.
pub fn select_asset(release: &ReleaseDescriptor, platform: PlatformInfo) -> (result: Result<
    AssetDescriptor,
    Failure,
>)
    ensures
        match result {
            Ok(asset) => selection(release@, platform) == Ok::<AssetView, FailureView>(asset@),
            Err(failure) => selection(release@, platform) == Err::<AssetView, FailureView>(
                failure@,
            ),
        },
{
    let wanted = asset_file_name(platform);
    let mut i: usize = 0;
    while i < release.assets.len()
        invariant
            i <= release.assets.len(),
            wanted@ == asset_name(platform),
            forall|j: int| 0 <= j < i ==> (#[trigger] release@.assets[j]).name != wanted@,
        decreases release.assets.len() - i,
    {
        assert(release@.assets[i as int] == release.assets@[i as int]@);
        if release.assets[i].name == wanted {
            proof {
                lemma_position_of(release@.assets, wanted@, i as int);
            }
            return Ok(release.assets[i].duplicate());
        }
        i += 1;
    }
    proof {
        lemma_position_of(release@.assets, wanted@, i as int);
    }
    Err(Failure::new(ErrorKind::AssetNotFound, wanted))
}

/// The version that an install of `release` records.
pub fn version_label(selector: &VersionSelector, release: &ReleaseDescriptor) -> (label: String)
    ensures
        label@ == label_of(selector@, release@),
{
    match selector {
        VersionSelector::Explicit(version) => version.clone(),
        VersionSelector::Latest => strip_tag_prefix(release.tag.as_str()),
    }
}

/// The newest published version, read from the registry's answer to a
/// request for the latest release.
pub fn get_latest_version(reply: RegistryReply) -> (result: Result<String, Failure>)
    ensures
        match result {
            Ok(version) => match resolution(SelectorView::Latest, reply@) {
                Ok(release) => version@ == version_of_tag(release.tag),
                Err(_) => false,
            },
            Err(failure) => resolution(SelectorView::Latest, reply@) == Err::<
                ReleaseView,
                FailureView,
            >(failure@),
        },
{
    match resolve(&VersionSelector::Latest, reply) {
        Ok(release) => Ok(strip_tag_prefix(release.tag.as_str())),
        Err(failure) => Err(failure),
    }
}

} // verus!
