//! The release strategy of an engine that is published as tagged
//! GitHub releases.
use crate::error::{invalid_github_url_error, Error};
use crate::release::github_release::{GithubRelease, GithubReleaseView};
use crate::release::github_req_client::{latest_release_url, query_github_api};
use crate::release::{LatestRelease, Release, ReleaseConfig, ReleaseView};
use crate::text::{
    chars_of, contains, ends_with, has_char, is_infix, is_prefix, is_suffix, skip, starts_with,
    string_of,
};
use vstd::prelude::*;
use vstd::string::StringExecFns;

verus! {

/// The rule that picks one asset of a release by its file name: the
/// name holds `infix` and ends with `suffix`.
#[derive(Debug)]
pub struct AssetFilter {
    pub infix: String,
    pub suffix: String,
}

pub struct AssetFilterView {
    pub infix: Seq<char>,
    pub suffix: Seq<char>,
}

impl AssetFilterView {
    /// Whether an asset of this name is the one to install.
    pub open spec fn accepts(self, name: Seq<char>) -> bool {
        is_infix(self.infix, name) && is_suffix(self.suffix, name)
    }
}

impl View for AssetFilter {
    type V = AssetFilterView;

    open spec fn view(&self) -> AssetFilterView {
        AssetFilterView { infix: self.infix@, suffix: self.suffix@ }
    }
}

impl Clone for AssetFilter {
    fn clone(&self) -> (r: Self)
        ensures
            r@ == self@,
    {
        AssetFilter { infix: self.infix.clone(), suffix: self.suffix.clone() }
    }
}

impl AssetFilter {
    /// Whether an asset of this name is the one to install.
    pub fn accepts(&self, name: &str) -> (r: bool)
        ensures
            r == self@.accepts(name@),
    {
        let name_chars = chars_of(name);
        let infix = chars_of(self.infix.as_str());
        let suffix = chars_of(self.suffix.as_str());
        contains(&name_chars, &infix) && ends_with(&name_chars, &suffix)
    }
}

#[derive(Debug)]
pub struct GithubReleaseConfig {
    /// Owner and name of the repository, `owner/name`.
    pub repo: String,
    pub asset_filter: AssetFilter,
}

pub struct GithubReleaseConfigView {
    pub repo: Seq<char>,
    pub asset_filter: AssetFilterView,
}

impl View for GithubReleaseConfig {
    type V = GithubReleaseConfigView;

    open spec fn view(&self) -> GithubReleaseConfigView {
        GithubReleaseConfigView {
            repo: self.repo@,
            asset_filter: self.asset_filter@,
        }
    }
}

impl Clone for GithubReleaseConfig {
    fn clone(&self) -> (r: Self)
        ensures
            r@ == self@,
    {
        GithubReleaseConfig {
            repo: self.repo.clone(),
            asset_filter: self.asset_filter.clone(),
        }
    }
}

/// What every URL of a tagged release of `repo` begins with.
pub open spec fn release_url_prefix(repo: Seq<char>) -> Seq<char> {
    "https://github.com/"@ + repo + "/releases/tag/"@
}

/// A tag is one or more characters, none of them a slash.
pub open spec fn is_tag(tag: Seq<char>) -> bool {
    tag.len() > 0 && !tag.contains('/')
}

/// The tag that `url` names among the releases of `repo`: what follows
/// the prefix, where the whole of it is a tag.
pub open spec fn tag_of_url(repo: Seq<char>, url: Seq<char>) -> Option<Seq<char>> {
    let prefix = release_url_prefix(repo);
    if is_prefix(prefix, url) && is_tag(url.skip(prefix.len() as int)) {
        Some(url.skip(prefix.len() as int))
    } else {
        None
    }
}

impl GithubReleaseConfigView {
    pub open spec fn parse(self, url: Seq<char>) -> Option<GithubReleaseView> {
        match tag_of_url(self.repo, url) {
            Some(tag) => Some(GithubReleaseView { config: self, tag }),
            None => None,
        }
    }
}

impl GithubReleaseConfig {
    /// The release that `url` names, where `url` is, from its first
    /// character to its last, the address of a tagged release of this
    /// repository.
    pub fn parse_inner(&self, url: &str) -> (r: Option<GithubRelease>)
        ensures
            match self@.parse(url@) {
                Some(release) => r matches Some(found) && found@ == release,
                None => r is None,
            },
    {
        let mut prefix = String::from_str("https://github.com/");
        prefix.append(self.repo.as_str());
        prefix.append("/releases/tag/");
        let prefix_chars = chars_of(prefix.as_str());
        let url_chars = chars_of(url);
        if !starts_with(&url_chars, &prefix_chars) {
            return None;
        }
        let tag_chars = skip(&url_chars, prefix_chars.len());
        if tag_chars.len() == 0 || has_char(&tag_chars, '/') {
            return None;
        }
        Some(GithubRelease { config: self.clone(), tag: string_of(&tag_chars) })
    }

    /// The release that the provider's answer to [`ReleaseConfig::latest_release`]
    /// names under `html_url`.
    pub fn latest_release_from(&self, html_url: Option<&str>) -> (r: Result<Release, Error>)
        ensures
            match html_url {
                Some(url) => match self@.parse(url@) {
                    Some(release) => r matches Ok(found) && found@ == ReleaseView::Github(release),
                    None => r matches Err(e) && e@ == invalid_github_url_error(url@),
                },
                None => r matches Err(e) && e@ == crate::error::download_error(
                    "Missing html_url in JSON"@,
                ),
            },
    {
        match html_url {
            Some(url) => self.parse(url),
            None => Err(Error::download(String::from_str("Missing html_url in JSON"))),
        }
    }
}

impl ReleaseConfig for GithubReleaseConfig {
    open spec fn parse_spec(&self, url: Seq<char>) -> Option<ReleaseView> {
        match self@.parse(url) {
            Some(release) => Some(ReleaseView::Github(release)),
            None => None,
        }
    }

    open spec fn parse_error(&self, url: Seq<char>) -> crate::error::ErrorView {
        invalid_github_url_error(url)
    }

    fn parse(&self, url: &str) -> (r: Result<Release, Error>) {
        match self.parse_inner(url) {
            Some(release) => Ok(Release::Github(release)),
            None => Err(Error::invalid_github_url(url)),
        }
    }

    open spec fn latest_release_spec(&self) -> crate::release::LatestReleaseView {
        crate::release::LatestReleaseView::Query(
            crate::release::github_req_client::api_request(
                crate::release::github_req_client::latest_release_url_of(self.repo@),
            ),
        )
    }

    fn latest_release(&self) -> (r: LatestRelease) {
        let url = latest_release_url(self.repo.as_str());
        LatestRelease::Query(query_github_api(url.as_str()))
    }
}

/// A URL is the address of a tagged release exactly when it is the
/// prefix of the repository followed by a tag; the tag found is then
/// that one.
pub proof fn lemma_tag_of_url_exact(repo: Seq<char>, url: Seq<char>, tag: Seq<char>)
    ensures
        tag_of_url(repo, url) == Some(tag) <==> (is_tag(tag) && url == release_url_prefix(repo)
            + tag),
{
    let prefix = release_url_prefix(repo);
    if is_tag(tag) && url == prefix + tag {
        assert(url.subrange(0, prefix.len() as int) =~= prefix);
        assert(url.skip(prefix.len() as int) =~= tag);
    }
    if tag_of_url(repo, url) == Some(tag) {
        assert(url =~= url.subrange(0, prefix.len() as int) + url.skip(prefix.len() as int));
    }
}

/// Every URL that is the prefix of the repository followed by a tag
/// names the release of that tag.
pub proof fn lemma_release_urls_parse(config: GithubReleaseConfigView, tag: Seq<char>)
    requires
        is_tag(tag),
    ensures
        config.parse(release_url_prefix(config.repo) + tag) == Some(
            GithubReleaseView { config, tag },
        ),
{
    lemma_tag_of_url_exact(config.repo, release_url_prefix(config.repo) + tag, tag);
}

/// A URL that stops after the prefix, or that goes on past the tag
/// with another path segment, names no release.
pub proof fn lemma_partial_urls_rejected(repo: Seq<char>, tag: Seq<char>, rest: Seq<char>)
    ensures
        tag_of_url(repo, release_url_prefix(repo)) is None,
        tag_of_url(repo, release_url_prefix(repo) + tag + seq!['/'] + rest) is None,
{
    let prefix = release_url_prefix(repo);
    assert(prefix.skip(prefix.len() as int) =~= Seq::<char>::empty());
    let long = prefix + tag + seq!['/'] + rest;
    if is_prefix(prefix, long) {
        let tail = long.skip(prefix.len() as int);
        assert(tail =~= tag + seq!['/'] + rest);
        assert(tail[tag.len() as int] == '/');
    }
}

} // verus!
