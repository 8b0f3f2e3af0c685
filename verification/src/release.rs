//! Release metadata: the remote release schema as it is deserialized, the
//! launcher's own release row, and the rules that map one to the other and
//! pick which entries the action row advertises.

use vstd::prelude::*;

verus! {

/// One remote release record, as the release API returns it.
#[derive(Default, Debug, Clone, PartialEq)]
pub struct Root {
    pub url: Option<String>,
    pub assets_url: Option<String>,
    pub upload_url: Option<String>,
    pub html_url: Option<String>,
    pub id: i64,
    pub node_id: Option<String>,
    pub tag_name: Option<String>,
    pub target_commitish: Option<String>,
    pub name: Option<String>,
    pub draft: bool,
    pub author: Author,
    pub prerelease: bool,
    pub created_at: Option<String>,
    pub published_at: Option<String>,
    pub assets: Vec<Asset>,
    pub tarball_url: Option<String>,
    pub zipball_url: Option<String>,
    pub body: Option<String>,
}

/// The author of a remote release record.
#[derive(Default, Debug, Clone, PartialEq)]
pub struct Author {
    pub login: Option<String>,
    pub id: i64,
    pub node_id: Option<String>,
    pub avatar_url: Option<String>,
    pub gravatar_id: Option<String>,
    pub url: Option<String>,
    pub html_url: Option<String>,
    pub followers_url: Option<String>,
    pub following_url: Option<String>,
    pub gists_url: Option<String>,
    pub starred_url: Option<String>,
    pub subscriptions_url: Option<String>,
    pub organizations_url: Option<String>,
    pub repos_url: Option<String>,
    pub events_url: Option<String>,
    pub received_events_url: Option<String>,
    pub type_field: Option<String>,
    pub site_admin: bool,
}

/// One downloadable file attached to a remote release record.
#[derive(Default, Debug, Clone, PartialEq)]
pub struct Asset {
    pub url: Option<String>,
    pub id: i64,
    pub node_id: Option<String>,
    pub name: Option<String>,
    pub label: Option<Option<String>>,
    pub uploader: Uploader,
    pub content_type: Option<String>,
    pub state: Option<String>,
    pub size: i64,
    pub download_count: i64,
    pub created_at: Option<String>,
    pub updated_at: Option<String>,
    pub browser_download_url: Option<String>,
}

/// The uploader of an asset.
#[derive(Default, Debug, Clone, PartialEq)]
pub struct Uploader {
    pub login: Option<String>,
    pub id: i64,
    pub node_id: Option<String>,
    pub avatar_url: Option<String>,
    pub gravatar_id: Option<String>,
    pub url: Option<String>,
    pub html_url: Option<String>,
    pub followers_url: Option<String>,
    pub following_url: Option<String>,
    pub gists_url: Option<String>,
    pub starred_url: Option<String>,
    pub subscriptions_url: Option<String>,
    pub organizations_url: Option<String>,
    pub repos_url: Option<String>,
    pub events_url: Option<String>,
    pub received_events_url: Option<String>,
    pub type_field: Option<String>,
    pub site_admin: bool,
}

/// One row of the launcher's release list. Identity is the tag string;
/// `installed` is the only field that changes after creation.
#[derive(Debug, Clone)]
pub struct Release {
    pub name: String,
    pub tag_name: String,
    pub download_url: String,
    pub installed: bool,
    pub stable: bool,
}

impl Release {
    /// A field-for-field copy, for handing a row out of the shared list
    /// without giving up the original.
    pub fn duplicate(&self) -> (r: Release)
        ensures
            r == *self,
    {
        Release {
            name: self.name.clone(),
            tag_name: self.tag_name.clone(),
            download_url: self.download_url.clone(),
            installed: self.installed,
            stable: self.stable,
        }
    }
}

/// The display name used when a remote record carries none.
pub open spec fn fallback_name(stable: bool) -> Seq<char> {
    if stable {
        "Unknown version string"@
    } else {
        "Bleeding edge build"@
    }
}

/// The tag used when a remote record carries none.
pub open spec fn fallback_tag() -> Seq<char> {
    "Unknown"@
}

/// Maps one remote record to a release row. The download link comes from the
/// record's first asset; a record with no asset, or whose first asset has no
/// download link, has nothing to download and maps to `None`. Missing names
/// and tags fall back to fixed placeholders.
pub fn release_from_root(root: &Root, stable: bool) -> (rel: Option<Release>)
    ensures
        rel is Some <==> (root.assets@.len() > 0 && root.assets@[0].browser_download_url is Some),
        rel matches Some(r) ==> {
            &&& root.assets@[0].browser_download_url matches Some(u) && r.download_url@ == u@
            &&& r.installed == false
            &&& r.stable == stable
            &&& (root.name matches Some(n) ==> r.name@ == n@)
            &&& (root.name is None ==> r.name@ == fallback_name(stable))
            &&& (root.tag_name matches Some(t) ==> r.tag_name@ == t@)
            &&& (root.tag_name is None ==> r.tag_name@ == fallback_tag())
        },
{
    if root.assets.len() == 0 {
        return None;
    }
    let asset: &Asset = &root.assets[0];
    let download_url: String = match asset.browser_download_url.as_ref() {
        Some(u) => u.clone(),
        None => {
            return None;
        },
    };
    let name: String = match root.name.as_ref() {
        Some(n) => n.clone(),
        None => {
            if stable {
                "Unknown version string".to_owned()
            } else {
                "Bleeding edge build".to_owned()
            }
        },
    };
    let tag_name: String = match root.tag_name.as_ref() {
        Some(t) => t.clone(),
        None => "Unknown".to_owned(),
    };
    Some(Release { name, tag_name, download_url, installed: false, stable })
}

/// Whether `i` is the index of the first non-stable entry of `s`, in list
/// order: everything before it is stable, `s[i]` is not.
pub open spec fn is_first_unstable(s: Seq<Release>, i: int) -> bool {
    &&& 0 <= i < s.len()
    &&& !s[i].stable
    &&& forall|j: int| 0 <= j < i ==> s[j].stable
}

/// Finds the first non-stable entry in list order: first match wins, however
/// many stable entries follow it. `None` when every entry is stable.
pub fn first_unstable_index(releases: &Vec<Release>) -> (idx: Option<usize>)
    ensures
        idx matches Some(i) ==> is_first_unstable(releases@, i as int),
        idx is None ==> forall|j: int| 0 <= j < releases@.len() ==> releases@[j].stable,
{
    let mut k: usize = 0;
    while k < releases.len()
        invariant
            k <= releases@.len(),
            forall|j: int| 0 <= j < k ==> releases@[j].stable,
        decreases releases@.len() - k,
    {
        if !releases[k].stable {
            return Some(k);
        }
        k = k + 1;
    }
    None
}

} // verus!
