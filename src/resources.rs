use vstd::prelude::*;
use vstd::string::*;

verus! {

/// A file or folder that downloads depend on, fetched once when it is missing.
#[derive(PartialEq, Eq, Structural, Clone, Copy, Debug)]
pub enum Resource {
    /// The archiver, used to unpack the other resources.
    SevenZip,
    /// The content-fetch tool.
    DepotDownloader,
    /// The post-download folders of every build.
    Cracks,
    /// The shared localization file.
    Localization,
}

/// Whether each resource is present, in the order they are fetched.
pub struct ResourceCheck {
    pub seven_zip: bool,
    pub depot_downloader: bool,
    pub cracks: bool,
    pub localization: bool,
}

/// The resources that are missing, in the order they are fetched: the archiver first, so
/// that the archives after it can be unpacked with it.
pub open spec fn missing_of(c: ResourceCheck) -> Seq<Resource> {
    (if c.seven_zip { Seq::empty() } else { seq![Resource::SevenZip] })
        + (if c.depot_downloader { Seq::empty() } else { seq![Resource::DepotDownloader] })
        + (if c.cracks { Seq::empty() } else { seq![Resource::Cracks] })
        + (if c.localization { Seq::empty() } else { seq![Resource::Localization] })
}

pub fn missing_resources(c: &ResourceCheck) -> (r: Vec<Resource>)
    ensures
        r@ == missing_of(*c),
{
    let mut r: Vec<Resource> = Vec::new();
    if !c.seven_zip {
        r.push(Resource::SevenZip);
    }
    if !c.depot_downloader {
        r.push(Resource::DepotDownloader);
    }
    if !c.cracks {
        r.push(Resource::Cracks);
    }
    if !c.localization {
        r.push(Resource::Localization);
    }
    assert(r@ =~= missing_of(*c));
    r
}

/// Whether a resource arrives as an archive that must be unpacked.
pub open spec fn spec_is_packed(r: Resource) -> bool {
    r == Resource::DepotDownloader || r == Resource::Cracks
}

pub fn is_packed(r: Resource) -> (b: bool)
    ensures
        b == spec_is_packed(r),
{
    match r {
        Resource::DepotDownloader => true,
        Resource::Cracks => true,
        _ => false,
    }
}

/// Where a resource is fetched from.
pub open spec fn url_of(r: Resource) -> Seq<char> {
    match r {
        Resource::SevenZip => "https://github.com/DataCluster0/R6TBBatchTool/raw/master/Requirements/7z.exe"@,
        Resource::DepotDownloader =>
            "https://github.com/SteamRE/DepotDownloader/releases/download/DepotDownloader_3.4.0/DepotDownloader-framework.zip"@,
        Resource::Cracks => "https://github.com/Vergepoland/r6-downloader/raw/refs/heads/main/Cracks.zip"@,
        Resource::Localization =>
            "https://github.com/Vergepoland/r6-downloader/raw/refs/heads/main/localization.lang"@,
    }
}

pub fn resource_url(r: Resource) -> (u: &'static str)
    ensures
        u@ == url_of(r),
{
    match r {
        Resource::SevenZip => "https://github.com/DataCluster0/R6TBBatchTool/raw/master/Requirements/7z.exe",
        Resource::DepotDownloader =>
            "https://github.com/SteamRE/DepotDownloader/releases/download/DepotDownloader_3.4.0/DepotDownloader-framework.zip",
        Resource::Cracks => "https://github.com/Vergepoland/r6-downloader/raw/refs/heads/main/Cracks.zip",
        Resource::Localization =>
            "https://github.com/Vergepoland/r6-downloader/raw/refs/heads/main/localization.lang",
    }
}

pub open spec fn zip_suffix() -> Seq<char> {
    seq!['.', 'z', 'i', 'p']
}

pub open spec fn seven_zip_suffix() -> Seq<char> {
    seq!['.', '7', 'z']
}

pub open spec fn ends_with(s: Seq<char>, suffix: Seq<char>) -> bool {
    s.len() >= suffix.len() && s.subrange(s.len() - suffix.len(), s.len() as int) == suffix
}

/// Whether a downloaded file is an archive to unpack: its name ends in ".zip" or ".7z".
pub open spec fn spec_is_archive(name: Seq<char>) -> bool {
    ends_with(name, zip_suffix()) || ends_with(name, seven_zip_suffix())
}

fn has_suffix(s: &str, suffix: &str) -> (r: bool)
    ensures
        r == ends_with(s@, suffix@),
{
    let n = s.unicode_len();
    let k = suffix.unicode_len();
    if n < k {
        return false;
    }
    let tail = String::from_str(s.substring_char(n - k, n));
    let wanted = String::from_str(suffix);
    tail == wanted
}

pub fn is_archive(name: &str) -> (r: bool)
    ensures
        r == spec_is_archive(name@),
{
    proof {
        reveal_strlit(".zip");
        reveal_strlit(".7z");
        assert(".zip"@ =~= zip_suffix());
        assert(".7z"@ =~= seven_zip_suffix());
    }
    has_suffix(name, ".zip") || has_suffix(name, ".7z")
}

} // verus!
