//! The releases of the project.
use vstd::prelude::*;
use vstd::string::*;

use crate::text::{chars_of, ends_with, first_index, lemma_first_index, text_of};
use crate::updater::error::{UpdateError, UpdateFault};
use crate::updater::status::{CheckResult, CheckView};

verus! {

/// Where the releases are published: owner and repository.
pub const REPO: &'static str = "Santirrini/oido-rs";

/// The name of the program.
pub const BIN_NAME: &'static str = "oido";

/// A file of a release.
#[derive(Debug, PartialEq, Eq)]
pub struct ReleaseAsset {
    pub name: String,
    pub download_url: String,
}

/// A release, with its files in the order of their publication.
#[derive(Debug, PartialEq, Eq)]
pub struct Release {
    pub version: String,
    pub assets: Vec<ReleaseAsset>,
}

/// The position of the first `/`.
pub open spec fn slash_at(repo: Seq<char>) -> nat {
    first_index(repo, |c: char| c == '/')
}

/// Parts `repo` into its owner and its name at the first `/`.
pub fn split_repo(repo: &str) -> (r: Result<(String, String), UpdateError>)
    ensures
        match r {
            Ok((owner, name)) => slash_at(repo@) < repo@.len() && owner@ == repo@.take(
                slash_at(repo@) as int,
            ) && name@ == repo@.skip(slash_at(repo@) + 1int),
            Err(e) => !repo@.contains('/') && e@ == UpdateFault::Config(
                "REPO inválido (esperado owner/repo): "@ + repo@,
            ),
        },
{
    let v = chars_of(repo);
    let n: usize = v.len();
    let ghost is_slash = |c: char| c == '/';
    let mut i: usize = 0;
    while i < n
        invariant
            i <= n,
            n == v@.len(),
            v@ == repo@,
            is_slash == (|c: char| c == '/'),
            forall|j: int| 0 <= j < i ==> v@[j] != '/',
        decreases n - i,
    {
        if v[i] == '/' {
            proof {
                lemma_first_index(repo@, is_slash, i as nat);
            }
            let owner = text_of(&v, 0, i);
            let name = text_of(&v, i + 1, n);
            assert(owner@ =~= repo@.take(i as int));
            assert(name@ =~= repo@.skip(i + 1));
            return Ok((owner, name));
        }
        i += 1;
    }
    Err(UpdateError::Config("REPO inválido (esperado owner/repo): ".to_owned().concat(repo)))
}

/// Whether the version `other` is newer than `current`; `None` where one of
/// the two is no version.
pub uninterp spec fn is_newer_version(current: Seq<char>, other: Seq<char>) -> Option<bool>;

/// `self_update::version::bump_is_greater` parses both texts as semantic
/// versions and tells whether the second stands above the first in their
/// order, which is total: no version stands above itself, and of two versions
/// not both stand above the other. It fails where a text is no version.
#[verifier::external_body]
fn newer_version(current: &str, other: &str) -> (r: Option<bool>)
    ensures
        r == is_newer_version(current@, other@),
        current@ == other@ ==> r != Some(true),
        r == Some(true) ==> is_newer_version(other@, current@) == Some(false),
{
    self_update::version::bump_is_greater(current, other).ok()
}

/// What a check found, given how the two versions compare. Versions that
/// cannot be compared give no update.
pub fn check_result(current: &str, latest: String, newer: Option<bool>) -> (r: CheckResult)
    ensures
        r@ == (CheckView {
            current: current@,
            latest: latest@,
            has_update: newer == Some(true),
        }),
{
    let has_update = match newer {
        Some(newer) => newer,
        None => false,
    };
    CheckResult { current: current.to_owned(), latest, has_update }
}

/// Compares the version that runs with the newest that was published, given
/// what looking that up gave.
pub fn check_for_update(current_version: &str, latest: Result<String, UpdateError>) -> (r: Result<
    CheckResult,
    UpdateError,
>)
    ensures
        match latest {
            Ok(version) => r matches Ok(check) && check@ == (CheckView {
                current: current_version@,
                latest: version@,
                has_update: is_newer_version(current_version@, version@) == Some(true),
            }),
            Err(e) => r == Err::<CheckResult, UpdateError>(e),
        },
        r matches Ok(check) ==> (check.has_update ==> check.latest@ != current_version@
            && is_newer_version(check.latest@, current_version@) == Some(false)),
{
    match latest {
        Ok(version) => {
            let newer = newer_version(current_version, version.as_str());
            Ok(check_result(current_version, version, newer))
        },
        Err(e) => Err(e),
    }
}

/// The first file at or behind position `i` whose name ends in `suffix`.
pub open spec fn asset_from(assets: Seq<ReleaseAsset>, suffix: Seq<char>, i: int) -> Option<
    ReleaseAsset,
>
    decreases assets.len() - i,
{
    if i < 0 || i >= assets.len() {
        None
    } else if suffix.is_suffix_of(assets[i].name@) {
        Some(assets[i])
    } else {
        asset_from(assets, suffix, i + 1)
    }
}

/// The first file of a release whose name ends in `suffix`.
pub fn find_asset_suffix<'a>(release: &'a Release, suffix: &'static str) -> (r: Result<
    &'a ReleaseAsset,
    UpdateError,
>)
    ensures
        match r {
            Ok(asset) => asset_from(release.assets@, suffix@, 0) == Some(*asset),
            Err(e) => asset_from(release.assets@, suffix@, 0) is None && e@
                == (UpdateFault::AssetNotFound { version: release.version@, suffix: suffix@ }),
        },
{
    let mut i: usize = 0;
    while i < release.assets.len()
        invariant
            i <= release.assets@.len(),
            asset_from(release.assets@, suffix@, 0) == asset_from(
                release.assets@,
                suffix@,
                i as int,
            ),
        decreases release.assets@.len() - i,
    {
        if ends_with(release.assets[i].name.as_str(), suffix) {
            return Ok(&release.assets[i]);
        }
        i += 1;
    }
    Err(UpdateError::AssetNotFound { version: release.version.clone(), suffix })
}

/// What the status of an answer says of a download: only those from 200 to 299
/// are good.
pub fn check_status(status: u16) -> (r: Result<(), UpdateError>)
    ensures
        match r {
            Ok(_) => 200 <= status < 300,
            Err(e) => !(200 <= status < 300) && e@ == (UpdateFault::DownloadFailed { status }),
        },
        r is Ok <==> is_good_status(status),
{
    if 200 <= status && status < 300 {
        Ok(())
    } else {
        Err(UpdateError::DownloadFailed { status })
    }
}

/// A file that is found is one of the release, and its name has the ending
/// asked for.
pub proof fn a_found_asset_has_its_ending(assets: Seq<ReleaseAsset>, suffix: Seq<char>, i: int)
    ensures
        asset_from(assets, suffix, i) matches Some(asset) ==> assets.contains(asset)
            && suffix.is_suffix_of(asset.name@),
    decreases assets.len() - i,
{
    if 0 <= i < assets.len() && !suffix.is_suffix_of(assets[i].name@) {
        a_found_asset_has_its_ending(assets, suffix, i + 1);
    }
}

/// An owner and a name that are put together with a `/` are parted there again,
/// however many more the name has.
pub proof fn an_owner_ends_at_the_first_slash(owner: Seq<char>, name: Seq<char>)
    requires
        !owner.contains('/'),
    ensures
        ({
            let repo = owner.push('/') + name;
            &&& slash_at(repo) == owner.len()
            &&& repo.take(slash_at(repo) as int) == owner
            &&& repo.skip(slash_at(repo) + 1int) == name
        }),
{
    let repo = owner.push('/') + name;
    let is_slash = |c: char| c == '/';
    assert forall|j: int| 0 <= j < owner.len() implies !is_slash(#[trigger] repo[j]) by {
        assert(owner.contains(owner[j]));
    }
    assert(repo[owner.len() as int] == '/');
    lemma_first_index(repo, is_slash, owner.len());
    assert(repo.take(owner.len() as int) =~= owner);
    assert(repo.skip(owner.len() + 1int) =~= name);
}

/// The file that is found is the first with the ending asked for, and there is
/// one wherever the release has it.
pub proof fn the_first_asset_is_found(assets: Seq<ReleaseAsset>, suffix: Seq<char>, from: int)
    requires
        0 <= from,
    ensures
        match asset_from(assets, suffix, from) {
            Some(asset) => exists|i: int|
                from <= i < assets.len() && #[trigger] assets[i] == asset && suffix.is_suffix_of(
                    assets[i].name@,
                ) && forall|j: int|
                    from <= j < i ==> !suffix.is_suffix_of(#[trigger] assets[j].name@),
            None => forall|j: int|
                from <= j < assets.len() ==> !suffix.is_suffix_of(#[trigger] assets[j].name@),
        },
    decreases assets.len() - from,
{
    if from < assets.len() {
        if suffix.is_suffix_of(assets[from].name@) {
            assert(assets[from] == asset_from(assets, suffix, from)->Some_0);
        } else {
            the_first_asset_is_found(assets, suffix, from + 1);
        }
    }
}

/// Whether an answer of that status carries what was asked for: the hundreds
/// tell.
pub open spec fn is_good_status(status: u16) -> bool {
    status / 100 == 2
}

} // verus!
