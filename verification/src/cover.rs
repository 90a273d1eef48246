//! Choosing where the cover picture of the current track comes from.

use std::path::PathBuf;
use url::Url;
use vstd::prelude::*;
use crate::text::has_prefix;

verus! {

/// `url::Url`, a parsed URL. Nothing is known of its contents here.
#[verifier::external_type_specification]
#[verifier::external_body]
pub struct ExUrl(url::Url);

/// `std::path::PathBuf`, a path in the file system. Nothing is known of its
/// contents here.
#[verifier::external_type_specification]
#[verifier::external_body]
pub struct ExPathBuf(std::path::PathBuf);

/// Where the cover picture comes from.
#[derive(Debug, PartialEq, Eq)]
pub enum CoverSource {
    /// A picture file on this machine.
    LocalFile(PathBuf),
    /// A picture to fetch from the web address.
    Remote(String),
    /// No picture: the placeholder icon is shown.
    Missing,
}

/// Whether `text` is an absolute URL to the `url` crate: whether `Url::parse`
/// accepts it.
pub uninterp spec fn url_parses(text: Seq<char>) -> bool;

/// `Url::parse` of the `url` crate. Taken on trust: whether a URL comes out
/// depends on the text alone, which is what `url_parses` stands for. Nothing
/// is claimed of which texts parse or of the URL that comes out.
#[verifier::external_body]
fn parse_url(text: &str) -> (parsed: Option<Url>)
    ensures
        parsed is Some <==> url_parses(text@),
{
    Url::parse(text).ok()
}

/// `Url::to_file_path` of the `url` crate. Nothing is claimed of which URLs
/// stand for a path or of the path that comes out: that differs between
/// operating systems.
#[verifier::external_body]
fn url_to_file_path(url: &Url) -> (path: Option<PathBuf>) {
    url.to_file_path().ok()
}

/// `address` names a file on this machine.
pub open spec fn is_file_address(address: Seq<char>) -> bool {
    "file://"@.is_prefix_of(address)
}

/// `address` names something on the web.
pub open spec fn is_web_address(address: Seq<char>) -> bool {
    "http://"@.is_prefix_of(address) || "https://"@.is_prefix_of(address)
}

/// The source for a file address, given the path that the address was found
/// to stand for, or `None` if it stands for none.
pub fn local_cover(path: Option<PathBuf>) -> (cover: CoverSource)
    ensures
        cover == match path {
            Some(file) => CoverSource::LocalFile(file),
            None => CoverSource::Missing,
        },
{
    match path {
        Some(file) => CoverSource::LocalFile(file),
        None => CoverSource::Missing,
    }
}

/// Picks the source of the cover picture from the address that the player
/// gives for it.
///
/// A web address is fetched as it stands. A file address gives the file that
/// it stands for, and no picture if it does not parse as a URL or stands for
/// no path on this system. Any other address, and a missing one, gives no
/// picture.
pub fn set_cover_image(art_url: Option<&str>) -> (cover: CoverSource)
    ensures
        match art_url {
            Some(address) => if is_file_address(address@) {
                if url_parses(address@) {
                    cover is LocalFile || cover is Missing
                } else {
                    cover is Missing
                }
            } else if is_web_address(address@) {
                cover matches CoverSource::Remote(target) && target@ == address@
            } else {
                cover is Missing
            },
            None => cover is Missing,
        },
{
    match art_url {
        Some(address) => {
            if has_prefix(address, "file://") {
                match parse_url(address) {
                    Some(url) => local_cover(url_to_file_path(&url)),
                    None => CoverSource::Missing,
                }
            } else if has_prefix(address, "http://") || has_prefix(address, "https://") {
                CoverSource::Remote(address.to_owned())
            } else {
                CoverSource::Missing
            }
        },
        None => CoverSource::Missing,
    }
}

} // verus!
