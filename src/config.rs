//! The configuration file, seen as an immutable part (signing setup) and a
//! public part that callers read and replace.

use vstd::prelude::*;
use crate::app::opt_text;
use crate::error::{Error, InvalidFile};
use crate::json::str_eq;
use crate::paths::{Repository, join, joined};

verus! {

/// The whole configuration document.
#[derive(Debug, Clone)]
pub struct ConfigFile {
    pub sdk_path: String,
    pub repo_keyalias: String,
    pub keystore: String,
    pub keystorepass: String,
    pub keypass: String,
    pub keydname: String,
    pub apksigner: Option<String>,
    pub repo_url: Option<String>,
    pub repo_name: Option<String>,
    pub repo_icon: Option<String>,
    pub repo_description: Option<String>,
    pub archive_url: Option<String>,
    pub archive_name: Option<String>,
    pub archive_icon: Option<String>,
    pub archive_description: Option<String>,
    pub archive_older: Option<u8>,
}

/// The public part of the configuration: repository and archive metadata.
#[derive(Debug, Clone, PartialEq, Eq, PartialOrd, Ord)]
pub struct Config {
    pub repo_url: Option<String>,
    pub repo_name: Option<String>,
    pub repo_icon: Option<String>,
    pub repo_description: Option<String>,
    pub archive_url: Option<String>,
    pub archive_name: Option<String>,
    pub archive_icon: Option<String>,
    pub archive_description: Option<String>,
    pub archive_older: Option<u8>,
}

/// What the public part says.
pub struct PublicView {
    pub repo_url: Option<Seq<char>>,
    pub repo_name: Option<Seq<char>>,
    pub repo_icon: Option<Seq<char>>,
    pub repo_description: Option<Seq<char>>,
    pub archive_url: Option<Seq<char>>,
    pub archive_name: Option<Seq<char>>,
    pub archive_icon: Option<Seq<char>>,
    pub archive_description: Option<Seq<char>>,
    pub archive_older: Option<u8>,
}

/// What the immutable part says: the signing setup fixed at initialisation.
pub struct ImmutableView {
    pub sdk_path: Seq<char>,
    pub repo_keyalias: Seq<char>,
    pub keystore: Seq<char>,
    pub keystorepass: Seq<char>,
    pub keypass: Seq<char>,
    pub keydname: Seq<char>,
    pub apksigner: Option<Seq<char>>,
}

/// What the whole document says, in its two parts.
pub struct ConfigFileView {
    pub immutable: ImmutableView,
    pub public: PublicView,
}

impl View for Config {
    type V = PublicView;

    open spec fn view(&self) -> PublicView {
        PublicView {
            repo_url: opt_text(self.repo_url),
            repo_name: opt_text(self.repo_name),
            repo_icon: opt_text(self.repo_icon),
            repo_description: opt_text(self.repo_description),
            archive_url: opt_text(self.archive_url),
            archive_name: opt_text(self.archive_name),
            archive_icon: opt_text(self.archive_icon),
            archive_description: opt_text(self.archive_description),
            archive_older: self.archive_older,
        }
    }
}

impl View for ConfigFile {
    type V = ConfigFileView;

    open spec fn view(&self) -> ConfigFileView {
        ConfigFileView {
            immutable: ImmutableView {
                sdk_path: self.sdk_path@,
                repo_keyalias: self.repo_keyalias@,
                keystore: self.keystore@,
                keystorepass: self.keystorepass@,
                keypass: self.keypass@,
                keydname: self.keydname@,
                apksigner: opt_text(self.apksigner),
            },
            public: PublicView {
                repo_url: opt_text(self.repo_url),
                repo_name: opt_text(self.repo_name),
                repo_icon: opt_text(self.repo_icon),
                repo_description: opt_text(self.repo_description),
                archive_url: opt_text(self.archive_url),
                archive_name: opt_text(self.archive_name),
                archive_icon: opt_text(self.archive_icon),
                archive_description: opt_text(self.archive_description),
                archive_older: self.archive_older,
            },
        }
    }
}

/// The document after its public part is replaced by `public`.
pub open spec fn merged(file: ConfigFileView, public: PublicView) -> ConfigFileView {
    ConfigFileView { immutable: file.immutable, public }
}

fn copy_text(o: &Option<String>) -> (r: Option<String>)
    ensures
        opt_text(r) == opt_text(*o),
{
    match o {
        Some(s) => Some(s.clone()),
        None => None,
    }
}

impl ConfigFile {
    /// This document with its public part replaced: the immutable part is
    /// kept as it is.
    pub fn merge_with_public(&self, public: &Config) -> (r: ConfigFile)
        ensures
            r@ == merged(self@, public@),
    {
        ConfigFile {
            sdk_path: self.sdk_path.clone(),
            repo_keyalias: self.repo_keyalias.clone(),
            keystore: self.keystore.clone(),
            keystorepass: self.keystorepass.clone(),
            keypass: self.keypass.clone(),
            keydname: self.keydname.clone(),
            apksigner: copy_text(&self.apksigner),
            repo_url: copy_text(&public.repo_url),
            repo_name: copy_text(&public.repo_name),
            repo_icon: copy_text(&public.repo_icon),
            repo_description: copy_text(&public.repo_description),
            archive_url: copy_text(&public.archive_url),
            archive_name: copy_text(&public.archive_name),
            archive_icon: copy_text(&public.archive_icon),
            archive_description: copy_text(&public.archive_description),
            archive_older: public.archive_older,
        }
    }

    /// A copy of a public part.
    pub fn copy_public(public: &Config) -> (r: Config)
        ensures
            r@ == public@,
    {
        Config {
            repo_url: copy_text(&public.repo_url),
            repo_name: copy_text(&public.repo_name),
            repo_icon: copy_text(&public.repo_icon),
            repo_description: copy_text(&public.repo_description),
            archive_url: copy_text(&public.archive_url),
            archive_name: copy_text(&public.archive_name),
            archive_icon: copy_text(&public.archive_icon),
            archive_description: copy_text(&public.archive_description),
            archive_older: public.archive_older,
        }
    }

    /// The public part of the document.
    pub fn public(&self) -> (r: Config)
        ensures
            r@ == self@.public,
    {
        Config {
            repo_url: copy_text(&self.repo_url),
            repo_name: copy_text(&self.repo_name),
            repo_icon: copy_text(&self.repo_icon),
            repo_description: copy_text(&self.repo_description),
            archive_url: copy_text(&self.archive_url),
            archive_name: copy_text(&self.archive_name),
            archive_icon: copy_text(&self.archive_icon),
            archive_description: copy_text(&self.archive_description),
            archive_older: self.archive_older,
        }
    }
}

/// Reading back the public part of a document whose public part was replaced
/// by `public` gives `public`, and the immutable part stays what it was.
pub proof fn lemma_public_round_trip(file: ConfigFile, public: Config)
    ensures
        merged(file@, public@).public == public@,
        merged(file@, public@).immutable == file@.immutable,
{
}

/// The index of the last `c` in `s`, or -1.
pub open spec fn last_index_of(s: Seq<char>, c: char) -> int
    decreases s.len(),
{
    if s.len() == 0 {
        -1
    } else if s.last() == c {
        s.len() - 1
    } else {
        last_index_of(s.drop_last(), c)
    }
}

/// A path without its trailing separators and `.` components.
pub open spec fn trimmed(p: Seq<char>) -> Seq<char>
    decreases p.len(),
{
    if p.len() > 0 && (p.last() == '/' || (p.last() == '.' && (p.len() == 1 || p[p.len() - 2] == '/'))) {
        trimmed(p.drop_last())
    } else {
        p
    }
}

/// The last component of a path, where it is a name: none for an empty
/// path, a root, a `.` or a `..`. Trailing separators and `.` components
/// are passed over.
pub open spec fn file_name(p: Seq<char>) -> Option<Seq<char>> {
    let t = trimmed(p);
    let name = t.subrange(last_index_of(t, '/') + 1, t.len() as int);
    if name.len() == 0 || name == ".."@ {
        None
    } else {
        Some(name)
    }
}

/// The extension of a path: what follows the last `.` of its file name,
/// where that `.` is not the name's first character.
pub open spec fn extension(p: Seq<char>) -> Option<Seq<char>> {
    match file_name(p) {
        None => None,
        Some(name) => {
            let k = last_index_of(name, '.');
            if k <= 0 {
                None
            } else {
                Some(name.subrange(k + 1, name.len() as int))
            }
        },
    }
}

/// The file name under which the repository icon is stored.
pub open spec fn icon_name(file: ConfigFileView) -> Seq<char> {
    match file.public.repo_icon {
        Some(name) => name,
        None => "icon.png"@,
    }
}

/// Where the repository icon is stored.
pub open spec fn icon_path(root: Seq<char>, file: ConfigFileView) -> Seq<char> {
    joined(joined(joined(root, "repo"@), "icons"@), icon_name(file))
}

/// The reason given when a new image has the wrong extension.
pub open spec fn wrong_type_reason(expected: Seq<char>) -> Seq<char> {
    "Image type should be: \""@ + expected + "\""@
}

/// What replacing the icon by the image at `new_image` does: where the icon
/// goes, or the invalid-file error naming `new_image`.
pub open spec fn image_target_ok(root: Seq<char>, file: ConfigFileView, new_image: Seq<char>, r: Result<String, Error>) -> bool {
    let current = icon_path(root, file);
    match (extension(new_image), extension(current)) {
        (None, _) => invalid_with(r, new_image, "Image does not have a file type"@),
        (Some(_), None) => invalid_with(r, new_image, "Image does not have a file name"@),
        (Some(a), Some(b)) => if a == b {
            r matches Ok(dest) && dest@ == current
        } else {
            invalid_with(r, new_image, wrong_type_reason(b))
        },
    }
}

/// `r` is the invalid-file error for `file`, with the reason `reason`.
pub open spec fn invalid_with<T>(r: Result<T, Error>, file: Seq<char>, reason: Seq<char>) -> bool {
    &&& r matches Err(Error::InvalidFile(f))
    &&& f.file@ == file
    &&& f.reason matches Some(m)
    &&& m@ == reason
}

fn last_index(s: &str, c: char) -> (r: Option<usize>)
    ensures
        r matches Some(k) ==> k as int == last_index_of(s@, c) && k < s@.len(),
        r is None ==> last_index_of(s@, c) == -1,
{
    let mut i: usize = s.unicode_len();
    assert(s@.subrange(0, i as int) =~= s@);
    while i > 0
        invariant
            i <= s@.len(),
            last_index_of(s@, c) == last_index_of(s@.subrange(0, i as int), c),
        decreases i,
    {
        let ghost pre = s@.subrange(0, i as int);
        assert(pre.drop_last() =~= s@.subrange(0, i - 1));
        if s.get_char(i - 1) == c {
            assert(pre.last() == c);
            return Some(i - 1);
        }
        i = i - 1;
    }
    None
}

/// The last component of a path, where it is a name.
pub fn file_name_of(p: &str) -> (r: Option<&str>)
    ensures
        opt_str(r) == file_name(p@),
{
    let n = p.unicode_len();
    let mut end: usize = n;
    let mut done = false;
    assert(p@.subrange(0, n as int) =~= p@);
    while end > 0 && !done
        invariant
            end <= n,
            n == p@.len(),
            trimmed(p@) == trimmed(p@.subrange(0, end as int)),
            done ==> trimmed(p@.subrange(0, end as int)) == p@.subrange(0, end as int),
        decreases end + (if done { 0int } else { 1int }),
    {
        let ghost q = p@.subrange(0, end as int);
        let c = p.get_char(end - 1);
        let trim = c == '/' || (c == '.' && (end == 1 || p.get_char(end - 2) == '/'));
        if trim {
            assert(q.drop_last() =~= p@.subrange(0, end - 1));
            end = end - 1;
        } else {
            done = true;
        }
    }
    let t = p.substring_char(0, end);
    assert(t@ == trimmed(p@));
    assert(t@.subrange(0, t@.len() as int) =~= t@);
    let start = match last_index(t, '/') {
        Some(k) => k + 1,
        None => 0,
    };
    let name = t.substring_char(start, end);
    if name.unicode_len() == 0 || str_eq(name, "..") {
        None
    } else {
        Some(name)
    }
}

fn extension_of(p: &str) -> (r: Option<&str>)
    ensures
        opt_str(r) == extension(p@),
{
    let name = match file_name_of(p) {
        Some(name) => name,
        None => return None,
    };
    let m = name.unicode_len();
    proof {
        assert(name@.subrange(0, name@.len() as int) =~= name@);
    }
    match last_index(name, '.') {
        Some(k) => if k == 0 {
            None
        } else {
            Some(name.substring_char(k + 1, m))
        },
        None => None,
    }
}

/// The text of an optional string slice.
pub open spec fn opt_str(o: Option<&str>) -> Option<Seq<char>> {
    match o {
        Some(s) => Some(s@),
        None => None,
    }
}

impl Repository {
    /// The public part of a configuration document.
    pub fn config(&self, file: &ConfigFile) -> (r: Config)
        ensures
            r@ == file@.public,
    {
        file.public()
    }

    /// The keystore password of a configuration document.
    pub fn keystore_password(&self, file: &ConfigFile) -> (r: String)
        ensures
            r@ == file@.immutable.keystorepass,
    {
        file.keystorepass.clone()
    }

    /// Where the repository icon is stored under this configuration: the
    /// configured icon name, `icon.png` where none is set.
    pub fn image_path(&self, file: &ConfigFile) -> (r: String)
        ensures
            r@ == icon_path(self@, file@),
    {
        let icons = join(self.repo_path().as_str(), "icons");
        match &file.repo_icon {
            Some(name) => join(icons.as_str(), name.as_str()),
            None => join(icons.as_str(), "icon.png"),
        }
    }

    /// Checks that the image at `new_image` may replace the icon: its
    /// extension must be that of the icon now configured. Gives the path the
    /// image is to be copied to.
    pub fn image_target(&self, file: &ConfigFile, new_image: &str) -> (r: Result<String, Error>)
        ensures
            image_target_ok(self@, file@, new_image@, r),
    {
        let current = self.image_path(file);
        let new_type = match extension_of(new_image) {
            Some(e) => e,
            None => {
                return Err(Error::InvalidFile(InvalidFile::with_reason(new_image.to_owned(), "Image does not have a file type")));
            },
        };
        let current_type = match extension_of(current.as_str()) {
            Some(e) => e,
            None => {
                return Err(Error::InvalidFile(InvalidFile::with_reason(new_image.to_owned(), "Image does not have a file name")));
            },
        };
        if str_eq(new_type, current_type) {
            Ok(current)
        } else {
            let reason = String::from_str("Image type should be: \"").concat(current_type).concat("\"");
            Err(Error::InvalidFile(InvalidFile::with_reason(new_image.to_owned(), reason.as_str())))
        }
    }
}

} // verus!
