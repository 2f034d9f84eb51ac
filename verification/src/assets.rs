//! Branding assets: the logo and the background image.
//!
//! An asset is stored under a name derived from its content, so that the same
//! bytes always land on the same file. A logo carries the name of the
//! administrator who sent it in front of the hash; a background is named by
//! the hash alone. Replacing an asset is planned here and carried out by the
//! caller: the directory to ensure, the file that the record pointed to until
//! now, the file to write and the path to store in the record.

use crate::digest::{content_hash, hex_lower, sha256};
use crate::settings::{optional_text, Settings, SettingsView};
use crate::text::same_text;
use vstd::prelude::*;
use vstd::string::StringExecFns;

verus! {

/// The kinds of branding asset.
#[derive(Debug, Clone, Copy, PartialEq, Eq, Structural)]
pub enum AssetCategory {
    Logo,
    Background,
}

/// The directory that holds the assets of a category.
pub open spec fn directory_of(category: AssetCategory) -> Seq<char> {
    match category {
        AssetCategory::Logo => "logos"@,
        AssetCategory::Background => "backgrounds"@,
    }
}

/// The extension of the files of a category.
pub open spec fn extension_of(category: AssetCategory) -> Seq<char> {
    match category {
        AssetCategory::Logo => ".png"@,
        AssetCategory::Background => ".jpg"@,
    }
}

/// The file name of an asset with the content hash `hash`: for a logo the
/// sender's name, a dollar sign, the hash and the extension; for a background
/// the hash and the extension.
pub open spec fn asset_file(category: AssetCategory, username: Seq<char>, hash: Seq<char>) -> Seq<
    char,
> {
    match category {
        AssetCategory::Logo => username + "$"@ + hash + extension_of(category),
        AssetCategory::Background => hash + extension_of(category),
    }
}

/// The path under which the record refers to an asset: it begins with a
/// slash and names the category's directory and the file.
pub open spec fn asset_url(category: AssetCategory, username: Seq<char>, hash: Seq<char>) -> Seq<
    char,
> {
    "/"@ + directory_of(category) + "/"@ + asset_file(category, username, hash)
}

/// Where the file behind a stored path lies, seen from the working
/// directory.
pub open spec fn on_disk(url: Seq<char>) -> Seq<char> {
    "."@ + url
}

/// The steps that replace an asset.
#[derive(Debug, Clone, PartialEq, Eq)]
pub struct AssetWrite {
    /// The directory that must exist before the file is written.
    pub directory: String,
    /// The file that the record pointed to until now, to be removed first.
    /// That it cannot be removed is no reason to give up.
    pub stale: Option<String>,
    /// The file that receives the new content.
    pub path: String,
    /// The path to store in the record.
    pub url: String,
}

/// The steps of a replacement as plain values.
pub struct AssetWriteView {
    pub directory: Seq<char>,
    pub stale: Option<Seq<char>>,
    pub path: Seq<char>,
    pub url: Seq<char>,
}

impl View for AssetWrite {
    type V = AssetWriteView;

    open spec fn view(&self) -> AssetWriteView {
        AssetWriteView {
            directory: self.directory@,
            stale: optional_text(self.stale),
            path: self.path@,
            url: self.url@,
        }
    }
}

/// The replacement of the asset that the record refers to by `current` with
/// content whose hash is `hash`.
pub open spec fn replacement(
    category: AssetCategory,
    username: Seq<char>,
    hash: Seq<char>,
    current: Option<Seq<char>>,
) -> AssetWriteView {
    AssetWriteView {
        directory: "./"@ + directory_of(category),
        stale: match current {
            Some(old) => Some(on_disk(old)),
            None => None,
        },
        path: on_disk(asset_url(category, username, hash)),
        url: asset_url(category, username, hash),
    }
}

/// The category that a form field carries, if it carries an asset.
pub open spec fn category_of_field(field: Seq<char>) -> Option<AssetCategory> {
    if field == "logo"@ {
        Some(AssetCategory::Logo)
    } else if field == "backgroundImage"@ {
        Some(AssetCategory::Background)
    } else {
        None
    }
}

impl AssetCategory {
    /// The category that the form field called `field` carries.
    pub fn of_field(field: &str) -> (r: Option<AssetCategory>)
        ensures
            r == category_of_field(field@),
    {
        if same_text(field, "logo") {
            Some(AssetCategory::Logo)
        } else if same_text(field, "backgroundImage") {
            Some(AssetCategory::Background)
        } else {
            None
        }
    }

    /// The directory that holds the assets of this category.
    pub fn directory(self) -> (r: &'static str)
        ensures
            r@ == directory_of(self),
    {
        match self {
            AssetCategory::Logo => "logos",
            AssetCategory::Background => "backgrounds",
        }
    }

    /// The extension of the files of this category.
    pub fn extension(self) -> (r: &'static str)
        ensures
            r@ == extension_of(self),
    {
        match self {
            AssetCategory::Logo => ".png",
            AssetCategory::Background => ".jpg",
        }
    }
}

/// The file name of an asset, given the hash of its content.
pub fn asset_file_name(category: AssetCategory, username: &str, hash: &str) -> (name: String)
    ensures
        name@ == asset_file(category, username@, hash@),
{
    let mut name = String::new();
    match category {
        AssetCategory::Logo => {
            name.append(username);
            name.append("$");
        },
        AssetCategory::Background => {},
    }
    name.append(hash);
    name.append(category.extension());
    proof {
        assert(name@ =~= asset_file(category, username@, hash@));
    }
    name
}

/// Plans the replacement of an asset, given the hash of the new content and
/// the path that the record holds for this category.
pub fn plan_write(category: AssetCategory, username: &str, hash: &str, current: Option<&str>) -> (w:
    AssetWrite)
    ensures
        w@ == replacement(
            category,
            username@,
            hash@,
            match current {
                Some(old) => Some(old@),
                None => None,
            },
        ),
{
    let file = asset_file_name(category, username, hash);
    let mut url = String::from_str("/");
    url.append(category.directory());
    url.append("/");
    url.append(file.as_str());
    let mut path = String::from_str(".");
    path.append(url.as_str());
    let mut directory = String::from_str("./");
    directory.append(category.directory());
    let stale = match current {
        Some(old) => {
            let mut p = String::from_str(".");
            p.append(old);
            Some(p)
        },
        None => None,
    };
    proof {
        assert(url@ =~= asset_url(category, username@, hash@));
    }
    AssetWrite { directory, stale, path, url }
}

/// Plans the replacement of an asset by `bytes`. Content without bytes
/// replaces nothing. The file is named by the content hash, so the same bytes
/// are always written to the same file.
pub fn replace(category: AssetCategory, bytes: &[u8], username: &str, current: Option<&str>) -> (r:
    Option<AssetWrite>)
    ensures
        match r {
            Some(w) => bytes@.len() > 0 && w@ == replacement(
                category,
                username@,
                hex_lower(sha256(bytes@)),
                match current {
                    Some(old) => Some(old@),
                    None => None,
                },
            ),
            None => bytes@.len() == 0,
        },
{
    if bytes.len() == 0 {
        return None;
    }
    let hash = content_hash(bytes);
    Some(plan_write(category, username, hash.as_str(), current))
}

/// The same background always lands on the same file: where it is written
/// and how the record refers to it depend on the bytes alone, not on who sent
/// them nor on what the record held before.
pub proof fn same_background_same_file(
    bytes: Seq<u8>,
    first_sender: Seq<char>,
    second_sender: Seq<char>,
    first_current: Option<Seq<char>>,
    second_current: Option<Seq<char>>,
)
    ensures
        replacement(
            AssetCategory::Background,
            first_sender,
            hex_lower(sha256(bytes)),
            first_current,
        ).path == replacement(
            AssetCategory::Background,
            second_sender,
            hex_lower(sha256(bytes)),
            second_current,
        ).path,
        replacement(
            AssetCategory::Background,
            first_sender,
            hex_lower(sha256(bytes)),
            first_current,
        ).url == replacement(
            AssetCategory::Background,
            second_sender,
            hex_lower(sha256(bytes)),
            second_current,
        ).url,
{
}

/// Replacing an asset by the content that the record already refers to
/// removes and rewrites one and the same file, so that no second copy is
/// left behind.
pub proof fn same_content_same_place(
    category: AssetCategory,
    username: Seq<char>,
    hash: Seq<char>,
)
    ensures
        replacement(category, username, hash, Some(asset_url(category, username, hash))).stale
            == Some(replacement(category, username, hash, None).path),
{
}

impl Settings {
    /// The path that the record holds for a category.
    pub fn asset_path(&self, category: AssetCategory) -> (r: Option<&str>)
        ensures
            match category {
                AssetCategory::Logo => (match r {
                    Some(p) => self@.logo_path == Some(p@),
                    None => self@.logo_path is None,
                }),
                AssetCategory::Background => (match r {
                    Some(p) => self@.background_path == Some(p@),
                    None => self@.background_path is None,
                }),
            },
    {
        let held = match category {
            AssetCategory::Logo => &self.logo_path,
            AssetCategory::Background => &self.background_path,
        };
        match held {
            Some(p) => Some(p.as_str()),
            None => None,
        }
    }

    /// Makes the record refer to a newly written asset.
    pub fn set_asset_path(&mut self, category: AssetCategory, url: String)
        ensures
            final(self)@ == (match category {
                AssetCategory::Logo => (SettingsView { logo_path: Some(url@), ..old(self)@ }),
                AssetCategory::Background => (SettingsView {
                    background_path: Some(url@),
                    ..old(self)@
                }),
            }),
    {
        match category {
            AssetCategory::Logo => {
                self.logo_path = Some(url);
            },
            AssetCategory::Background => {
                self.background_path = Some(url);
            },
        }
    }
}

} // verus!
