//! The release strategy of an engine that is installed by hand at a
//! fixed path.
use crate::error::{invalid_local_url_error, local_not_installed_error, Error};
use crate::release::{LatestRelease, LatestReleaseView, Release, ReleaseConfig, ReleaseView};
use crate::text::same_text;
use vstd::prelude::*;

verus! {

#[derive(Debug)]
pub struct LocalReleaseConfig {
    /// The one locator that stands for this engine.
    pub release_url: String,
    pub bin_path: String,
}

pub struct LocalReleaseConfigView {
    pub release_url: Seq<char>,
    pub bin_path: Seq<char>,
}

impl View for LocalReleaseConfig {
    type V = LocalReleaseConfigView;

    open spec fn view(&self) -> LocalReleaseConfigView {
        LocalReleaseConfigView {
            release_url: self.release_url@,
            bin_path: self.bin_path@,
        }
    }
}

impl Clone for LocalReleaseConfig {
    fn clone(&self) -> (r: Self)
        ensures
            r@ == self@,
    {
        LocalReleaseConfig {
            release_url: self.release_url.clone(),
            bin_path: self.bin_path.clone(),
        }
    }
}

#[derive(Debug)]
pub struct LocalRelease {
    pub config: LocalReleaseConfig,
}

pub struct LocalReleaseView {
    pub config: LocalReleaseConfigView,
}

impl View for LocalRelease {
    type V = LocalReleaseView;

    open spec fn view(&self) -> LocalReleaseView {
        LocalReleaseView { config: self.config@ }
    }
}

impl ReleaseConfig for LocalReleaseConfig {
    open spec fn parse_spec(&self, url: Seq<char>) -> Option<ReleaseView> {
        if self.release_url@ == url {
            Some(ReleaseView::Local(LocalReleaseView { config: self@ }))
        } else {
            None
        }
    }

    open spec fn parse_error(&self, url: Seq<char>) -> crate::error::ErrorView {
        invalid_local_url_error()
    }

    fn parse(&self, url: &str) -> (r: Result<Release, Error>) {
        if same_text(self.release_url.as_str(), url) {
            Ok(Release::Local(LocalRelease { config: self.clone() }))
        } else {
            Err(Error::invalid_local_url())
        }
    }

    open spec fn latest_release_spec(&self) -> LatestReleaseView {
        LatestReleaseView::Known(ReleaseView::Local(LocalReleaseView { config: self@ }))
    }

    fn latest_release(&self) -> (r: LatestRelease) {
        LatestRelease::Known(Release::Local(LocalRelease { config: self.clone() }))
    }
}

impl LocalRelease {
    /// The path of the binary, which never changes.
    pub fn resolve_path(&self) -> (r: String)
        ensures
            r@ == self@.config.bin_path,
    {
        self.config.bin_path.clone()
    }

    /// The path of the binary where it `exists`, and an error where it
    /// does not.
    pub fn bin_path_if_downloaded(&self, exists: bool) -> (r: Result<String, Error>)
        ensures
            exists ==> (r matches Ok(path) && path@ == self@.config.bin_path),
            !exists ==> (r matches Err(e) && e@ == local_not_installed_error()),
    {
        if exists {
            Ok(self.config.bin_path.clone())
        } else {
            Err(Error::local_not_installed())
        }
    }
}

} // verus!
