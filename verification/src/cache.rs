//! Cache planning: per-identifier paths, asset file names, and assembly of
//! the cache-write result. The surrounding application performs the
//! directory, file and network work and reports each outcome back here.

use vstd::prelude::*;
use vstd::string::StrSliceExecFns;
use vstd::string::StringExecFns;
use crate::extract::extract_link_metadata;
use crate::extract::spec_icon;
use crate::extract::spec_image;
use crate::extract::spec_metadata;
use crate::extract::LinkMetadata;
use crate::text::ext_for;
use crate::text::infer_extension;

verus! {

/// The failure cases of the caching pipeline.
#[derive(Debug, Clone, Copy, PartialEq, Eq, Structural)]
pub enum CacheError {
    /// Building the HTTP client failed.
    ClientBuild,
    /// The identifier is unusable as a path segment.
    InvalidId,
    /// Creating the per-identifier directory failed.
    DirectoryCreate,
    /// Fetching the page failed.
    Fetch,
    /// Writing the page content failed.
    Write,
    /// Removing the per-identifier directory failed.
    Delete,
}

/// An identifier is safe as a path segment when it is non-empty, holds no
/// path separator, and is not a current- or parent-directory reference.
pub open spec fn id_is_safe(id: Seq<char>) -> bool {
    &&& id.len() > 0
    &&& forall|i: int| 0 <= i < id.len() ==> id[i] != '/' && id[i] != '\\'
    &&& id != "."@
    &&& id != ".."@
}

/// Whether an identifier is safe to use as a path segment, per
/// `id_is_safe`.
pub fn check_id(id: &str) -> (b: bool)
    ensures
        b == id_is_safe(id@),
{
    proof {
        reveal_strlit(".");
        reveal_strlit("..");
    }
    let n = id.unicode_len();
    if n == 0 {
        return false;
    }
    let mut i: usize = 0;
    while i < n
        invariant
            n == id@.len(),
            0 <= i <= n,
            forall|j: int| 0 <= j < i ==> id@[j] != '/' && id@[j] != '\\',
        decreases n - i,
    {
        let c = id.get_char(i);
        if c == '/' || c == '\\' {
            return false;
        }
        i = i + 1;
    }
    if n == 1 && id.get_char(0) == '.' {
        assert(id@ =~= "."@);
        return false;
    }
    if n == 2 && id.get_char(0) == '.' && id.get_char(1) == '.' {
        assert(id@ =~= ".."@);
        return false;
    }
    true
}

/// The cache-relative directory of the entry for `id`: `links/<id>`.
pub open spec fn spec_link_dir(id: Seq<char>) -> Seq<char> {
    "links/"@ + id
}

/// The cache-relative directory for an entry, rejecting an identifier that
/// is unusable as a path segment.
pub fn link_dir(id: &str) -> (r: Result<String, CacheError>)
    ensures
        id_is_safe(id@) ==> (r matches Ok(d) && d@ == spec_link_dir(id@)),
        !id_is_safe(id@) ==> (r matches Err(e) && e == CacheError::InvalidId),
{
    if !check_id(id) {
        return Err(CacheError::InvalidId);
    }
    let mut d = "links/".to_owned();
    d.append(id);
    Ok(d)
}

/// The file an entry's icon is saved under: `icon.<ext>`, the extension
/// inferred from the icon URL with default `png`.
pub open spec fn spec_icon_file(u: Seq<char>) -> Seq<char> {
    "icon."@ + ext_for(u, "png"@)
}

/// The file an entry's image is saved under: `image.<ext>`, the extension
/// inferred from the image URL with default `jpg`.
pub open spec fn spec_image_file(u: Seq<char>) -> Seq<char> {
    "image."@ + ext_for(u, "jpg"@)
}

/// An asset a cache-write should fetch and store: its remote URL and the
/// file name it is saved under within the entry's directory.
#[derive(Debug, Clone)]
pub struct AssetPlan {
    pub url: String,
    pub file_name: String,
}

/// What a cache-write must do once the page markup is fetched: the
/// extracted metadata, and the two optional assets with their file names.
#[derive(Debug, Clone)]
pub struct CachePlan {
    pub metadata: LinkMetadata,
    pub icon: Option<AssetPlan>,
    pub image: Option<AssetPlan>,
}

/// Plan a cache-write from the fetched markup and the requested URL: the
/// extracted metadata, and for each asset whose URL could be derived, the
/// file name it will be stored under.
pub fn cache_plan(html: &str, url: &str) -> (p: CachePlan)
    ensures
        p.metadata@ == spec_metadata(html@, url@),
        match p.icon {
            Some(a) => spec_icon(html@, url@) == Some(a.url@) && a.file_name@ == spec_icon_file(
                a.url@,
            ),
            None => spec_icon(html@, url@) is None,
        },
        match p.image {
            Some(a) => spec_image(html@, url@) == Some(a.url@) && a.file_name@ == spec_image_file(
                a.url@,
            ),
            None => spec_image(html@, url@) is None,
        },
{
    let metadata = extract_link_metadata(html, url);
    let icon = match &metadata.icon {
        Some(u) => {
            let ext = infer_extension(u.as_str(), "png");
            let mut f = "icon.".to_owned();
            f.append(ext.as_str());
            Some(AssetPlan { url: u.clone(), file_name: f })
        },
        None => None,
    };
    let image = match &metadata.image {
        Some(u) => {
            let ext = infer_extension(u.as_str(), "jpg");
            let mut f = "image.".to_owned();
            f.append(ext.as_str());
            Some(AssetPlan { url: u.clone(), file_name: f })
        },
        None => None,
    };
    CachePlan { metadata, icon, image }
}

/// The persisted outcome of a cache-write: the extracted metadata plus
/// where the artifacts were stored. `content_path` is always present on
/// success; each local asset path is present exactly when that asset was
/// fetched and written.
#[derive(Debug, Clone)]
pub struct CacheResult {
    pub title: String,
    pub description: Option<String>,
    pub icon: Option<String>,
    pub image: Option<String>,
    pub content_path: String,
    pub icon_path: Option<String>,
    pub image_path: Option<String>,
}

/// The mathematical image of a `CacheResult` value.
pub ghost struct CacheResultView {
    pub title: Seq<char>,
    pub description: Option<Seq<char>>,
    pub icon: Option<Seq<char>>,
    pub image: Option<Seq<char>>,
    pub content_path: Seq<char>,
    pub icon_path: Option<Seq<char>>,
    pub image_path: Option<Seq<char>>,
}

impl View for CacheResult {
    type V = CacheResultView;

    open spec fn view(&self) -> CacheResultView {
        CacheResultView {
            title: self.title@,
            description: self.description.deep_view(),
            icon: self.icon.deep_view(),
            image: self.image.deep_view(),
            content_path: self.content_path@,
            icon_path: self.icon_path.deep_view(),
            image_path: self.image_path.deep_view(),
        }
    }
}

/// `dir`, a separator, and `name`.
fn join_path(dir: &str, name: &str) -> (r: String)
    ensures
        r@ == dir@ + "/"@ + name@,
{
    let mut p = dir.to_owned();
    p.append("/");
    p.append(name);
    p
}

/// Assemble the result of a cache-write. `dir` is the entry's directory as
/// the caller addresses it; `icon_saved` and `image_saved` report whether
/// the corresponding planned asset was fetched and written successfully.
/// A failed or unplanned asset surfaces only as an absent local path —
/// each asset independently, and never as a failure of the whole result.
pub fn finish_cache(plan: &CachePlan, dir: &str, icon_saved: bool, image_saved: bool) -> (r:
    CacheResult)
    ensures
        r@.title == plan.metadata@.title,
        r@.description == plan.metadata@.description,
        r@.icon == plan.metadata@.icon,
        r@.image == plan.metadata@.image,
        r@.content_path == dir@ + "/"@ + "content.html"@,
        r@.icon_path == (match plan.icon {
            Some(a) => if icon_saved {
                Some(dir@ + "/"@ + a.file_name@)
            } else {
                None::<Seq<char>>
            },
            None => None::<Seq<char>>,
        }),
        r@.image_path == (match plan.image {
            Some(a) => if image_saved {
                Some(dir@ + "/"@ + a.file_name@)
            } else {
                None::<Seq<char>>
            },
            None => None::<Seq<char>>,
        }),
{
    let content_path = join_path(dir, "content.html");
    let icon_path = if icon_saved {
        match &plan.icon {
            Some(a) => Some(join_path(dir, a.file_name.as_str())),
            None => None,
        }
    } else {
        None
    };
    let image_path = if image_saved {
        match &plan.image {
            Some(a) => Some(join_path(dir, a.file_name.as_str())),
            None => None,
        }
    } else {
        None
    };
    CacheResult {
        title: plan.metadata.title.clone(),
        description: plan.metadata.description.clone(),
        icon: plan.metadata.icon.clone(),
        image: plan.metadata.image.clone(),
        content_path,
        icon_path,
        image_path,
    }
}

} // verus!

