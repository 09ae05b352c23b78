//! Apps and packages, as the generated index document lists them.
//!
//! The index holds two collections joined by package name: a list of apps
//! under `apps` and, under `packages`, a map from each package name to the
//! list of its packages (one per built artifact).

use vstd::prelude::*;
use crate::paths::Repository;
use crate::category::{Category, category_named};
use crate::error::Error;
use crate::json::{decode_json, decoded_json, JsonValue, member, element, text_of, i64_of, u64_of, items_of};

verus! {

/// One logical application.
#[derive(Debug, Clone)]
pub struct App {
    /// The package name, the key that joins the app to its packages.
    pub package_name: String,
    /// The standard categories or custom labels it is filed under.
    pub categories: Vec<Category>,
    /// The suggested version code.
    pub suggested_version_code: String,
    /// The license (MIT, GPL, ...).
    pub license: String,
    /// The display name.
    pub name: String,
    /// When the app was added.
    pub added: i64,
    /// When the app was last updated.
    pub last_updated: i64,
    /// Its packages, in the order of the index.
    pub packages: Vec<Package>,
}

/// One versioned build artifact of an app.
#[derive(Debug, Clone)]
pub struct Package {
    pub added: i64,
    pub apk_name: String,
    pub hash: String,
    pub hash_type: String,
    pub package_name: String,
    pub size: u64,
    pub version_name: String,
    pub nativecode: Vec<String>,
    pub max_sdk_version: Option<u32>,
    pub min_sdk_version: Option<u32>,
    pub sig: Option<String>,
    pub signer: Option<String>,
    pub target_sdk_version: Option<u32>,
    pub uses_permission: Vec<(String, Option<u32>)>,
    pub version_code: Option<u64>,
}

/// The text of an optional string.
pub open spec fn opt_text(o: Option<String>) -> Option<Seq<char>> {
    match o {
        Some(s) => Some(s@),
        None => None,
    }
}

/// A non-negative integer that fits a `u32`.
pub open spec fn u32_of(v: Option<JsonValue>) -> Option<u32> {
    match u64_of(v) {
        Some(n) => if n <= u32::MAX { Some(n as u32) } else { None },
        None => None,
    }
}

/// An integer that fits an `i64` and then a `u32`.
pub open spec fn u32_of_signed(v: Option<JsonValue>) -> Option<u32> {
    match i64_of(v) {
        Some(n) => if 0 <= n <= u32::MAX { Some(n as u32) } else { None },
        None => None,
    }
}

/// The items of an optional array member: none where it is absent or not an array.
pub open spec fn optional_items(v: JsonValue, key: Seq<char>) -> Seq<JsonValue> {
    match items_of(member(v, key)) {
        Some(items) => items,
        None => Seq::empty(),
    }
}

/// A permission entry: an array of exactly two elements, a name first, then
/// a second element of any kind.
pub open spec fn permission_valid(e: JsonValue) -> bool {
    &&& items_of(Some(e)) matches Some(items)
    &&& items.len() == 2
    &&& text_of(element(e, 0)).is_some()
}

/// Whether every item is a string.
pub open spec fn all_text(items: Seq<JsonValue>) -> bool {
    forall|i: int| 0 <= i < items.len() ==> #[trigger] text_of(Some(items[i])).is_some()
}

/// The native-code entries of a package record: those of its `nativecode`
/// array where every element is a string, and none otherwise.
pub open spec fn native_items(v: JsonValue) -> Seq<JsonValue> {
    if all_text(optional_items(v, "nativecode"@)) {
        optional_items(v, "nativecode"@)
    } else {
        Seq::empty()
    }
}

/// Whether `v` holds every required field of a package, with its kind, and
/// well-formed optional lists.
pub open spec fn package_valid(v: JsonValue) -> bool {
    &&& i64_of(member(v, "added"@)).is_some()
    &&& text_of(member(v, "apkName"@)).is_some()
    &&& text_of(member(v, "hash"@)).is_some()
    &&& text_of(member(v, "hashType"@)).is_some()
    &&& text_of(member(v, "packageName"@)).is_some()
    &&& u64_of(member(v, "size"@)).is_some()
    &&& text_of(member(v, "versionName"@)).is_some()
    &&& forall|i: int| 0 <= i < optional_items(v, "uses-permission"@).len()
        ==> #[trigger] permission_valid(optional_items(v, "uses-permission"@)[i])
}

/// `p` holds what `v` says: every required field, each optional field where
/// it is present with its kind (else `None`), and the optional lists.
pub open spec fn package_matches(p: Package, v: JsonValue) -> bool {
    &&& Some(p.added) == i64_of(member(v, "added"@))
    &&& Some(p.apk_name@) == text_of(member(v, "apkName"@))
    &&& Some(p.hash@) == text_of(member(v, "hash"@))
    &&& Some(p.hash_type@) == text_of(member(v, "hashType"@))
    &&& Some(p.package_name@) == text_of(member(v, "packageName"@))
    &&& Some(p.size) == u64_of(member(v, "size"@))
    &&& Some(p.version_name@) == text_of(member(v, "versionName"@))
    &&& p.max_sdk_version == u32_of(member(v, "maxSdkVersion"@))
    &&& p.min_sdk_version == u32_of(member(v, "minSdkVersion"@))
    &&& p.target_sdk_version == u32_of(member(v, "targetSdkVersion"@))
    &&& opt_text(p.sig) == text_of(member(v, "sig"@))
    &&& opt_text(p.signer) == text_of(member(v, "signer"@))
    &&& p.version_code == u64_of(member(v, "versionCode"@))
    &&& p.nativecode@.len() == native_items(v).len()
    &&& forall|i: int| 0 <= i < p.nativecode@.len()
        ==> Some(#[trigger] p.nativecode@[i]@) == text_of(Some(native_items(v)[i]))
    &&& p.uses_permission@.len() == optional_items(v, "uses-permission"@).len()
    &&& forall|i: int| 0 <= i < p.uses_permission@.len()
        ==> permission_matches(#[trigger] p.uses_permission@[i], optional_items(v, "uses-permission"@)[i])
}

/// A permission pair read from its entry.
pub open spec fn permission_matches(p: (String, Option<u32>), e: JsonValue) -> bool {
    Some(p.0@) == text_of(element(e, 0)) && p.1 == u32_of_signed(element(e, 1))
}

fn text_member(v: &JsonValue, key: &str) -> (r: Option<String>)
    ensures
        opt_text(r) == text_of(member(*v, key@)),
{
    match v.get(key) {
        Some(x) => x.as_text(),
        None => None,
    }
}

fn i64_member(v: &JsonValue, key: &str) -> (r: Option<i64>)
    ensures
        r == i64_of(member(*v, key@)),
{
    match v.get(key) {
        Some(x) => x.as_i64(),
        None => None,
    }
}

fn u64_member(v: &JsonValue, key: &str) -> (r: Option<u64>)
    ensures
        r == u64_of(member(*v, key@)),
{
    match v.get(key) {
        Some(x) => x.as_u64(),
        None => None,
    }
}

fn u32_member(v: &JsonValue, key: &str) -> (r: Option<u32>)
    ensures
        r == u32_of(member(*v, key@)),
{
    match u64_member(v, key) {
        Some(n) => if n <= u32::MAX as u64 { Some(n as u32) } else { None },
        None => None,
    }
}

fn optional_list<'a>(v: &'a JsonValue, key: &str) -> (r: &'a [JsonValue])
    ensures
        r@ == optional_items(*v, key@),
{
    match v.get(key) {
        Some(x) => match x.as_array() {
            Some(items) => items.as_slice(),
            None => &[],
        },
        None => &[],
    }
}

fn permission_from_json(e: &JsonValue) -> (r: Option<(String, Option<u32>)>)
    ensures
        r.is_some() == permission_valid(*e),
        r matches Some(p) ==> permission_matches(p, *e),
{
    let items = match e.as_array() {
        Some(items) => items,
        None => return None,
    };
    if items.len() != 2 {
        return None;
    }
    let name = match items[0].as_text() {
        Some(s) => s,
        None => return None,
    };
    let max = match items[1].as_i64() {
        Some(n) => if 0 <= n && n <= u32::MAX as i64 { Some(n as u32) } else { None },
        None => None,
    };
    Some((name, max))
}

impl Package {
    /// Reads one package record of the index: `None` where a required field
    /// is missing or of the wrong kind, or a permission entry is not a pair
    /// with a name first. An optional field that is absent or of the wrong
    /// kind reads as absent (an empty list for `nativecode`).
    pub fn from_json(value: &JsonValue) -> (r: Option<Package>)
        ensures
            r.is_some() == package_valid(*value),
            r matches Some(p) ==> package_matches(p, *value),
    {
        let added = i64_member(value, "added");
        let apk_name = text_member(value, "apkName");
        let hash = text_member(value, "hash");
        let hash_type = text_member(value, "hashType");
        let package_name = text_member(value, "packageName");
        let size = u64_member(value, "size");
        let version_name = text_member(value, "versionName");
        if added.is_none() || apk_name.is_none() || hash.is_none() || hash_type.is_none()
            || package_name.is_none() || size.is_none() || version_name.is_none() {
            return None;
        }
        let native_entries = optional_list(value, "nativecode");
        let mut nativecode: Vec<String> = Vec::new();
        let mut all_strings = true;
        let mut i: usize = 0;
        while i < native_entries.len()
            invariant
                i <= native_entries@.len(),
                native_entries@ == optional_items(*value, "nativecode"@),
                all_strings ==> nativecode@.len() == i,
                all_strings ==> forall|j: int| 0 <= j < i
                    ==> Some(#[trigger] nativecode@[j]@) == text_of(Some(native_entries@[j])),
                all_strings ==> forall|j: int| 0 <= j < i ==> #[trigger] text_of(Some(native_entries@[j])).is_some(),
                !all_strings ==> nativecode@.len() == 0,
                !all_strings ==> exists|j: int| 0 <= j < i && #[trigger] text_of(Some(native_entries@[j])) is None,
            decreases native_entries.len() - i,
        {
            if all_strings {
                match native_entries[i].as_text() {
                    Some(s) => nativecode.push(s),
                    None => {
                        assert(text_of(Some(native_entries@[i as int])) is None);
                        all_strings = false;
                        nativecode = Vec::new();
                    },
                }
            }
            i = i + 1;
        }
        proof {
            if all_strings {
                assert(all_text(native_entries@));
            } else {
                let j = choose|j: int| 0 <= j < i && #[trigger] text_of(Some(native_entries@[j])) is None;
                assert(!text_of(Some(native_entries@[j])).is_some());
                assert(!all_text(native_entries@));
            }
        }
        let permission_entries = optional_list(value, "uses-permission");
        let mut uses_permission: Vec<(String, Option<u32>)> = Vec::new();
        let mut k: usize = 0;
        while k < permission_entries.len()
            invariant
                k <= permission_entries@.len(),
                permission_entries@ == optional_items(*value, "uses-permission"@),
                uses_permission@.len() == k,
                forall|j: int| 0 <= j < k ==> permission_matches(#[trigger] uses_permission@[j], permission_entries@[j]),
                forall|j: int| 0 <= j < k ==> #[trigger] permission_valid(permission_entries@[j]),
            decreases permission_entries.len() - k,
        {
            match permission_from_json(&permission_entries[k]) {
                Some(p) => uses_permission.push(p),
                None => return None,
            }
            k = k + 1;
        }
        Some(Package {
            added: added.unwrap(),
            apk_name: apk_name.unwrap(),
            hash: hash.unwrap(),
            hash_type: hash_type.unwrap(),
            package_name: package_name.unwrap(),
            size: size.unwrap(),
            version_name: version_name.unwrap(),
            nativecode,
            max_sdk_version: u32_member(value, "maxSdkVersion"),
            min_sdk_version: u32_member(value, "minSdkVersion"),
            sig: text_member(value, "sig"),
            signer: text_member(value, "signer"),
            target_sdk_version: u32_member(value, "targetSdkVersion"),
            uses_permission,
            version_code: u64_member(value, "versionCode"),
        })
    }
}

/// The package name that an app entry joins on.
pub open spec fn joined_name(entry: JsonValue) -> Seq<char> {
    text_of(member(entry, "packageName"@)).unwrap()
}

/// The package records that `packages` lists for the app entry.
pub open spec fn app_package_items(entry: JsonValue, packages: JsonValue) -> Seq<JsonValue> {
    items_of(member(packages, joined_name(entry))).unwrap()
}

/// The category entries of an app entry.
pub open spec fn category_items(entry: JsonValue) -> Seq<JsonValue> {
    items_of(member(entry, "categories"@)).unwrap()
}

/// Whether an app entry holds every required field with its kind, and
/// `packages` lists well-formed packages under its package name.
pub open spec fn app_valid(entry: JsonValue, packages: JsonValue) -> bool {
    &&& text_of(member(entry, "name"@)).is_some()
    &&& text_of(member(entry, "suggestedVersionCode"@)).is_some()
    &&& text_of(member(entry, "license"@)).is_some()
    &&& text_of(member(entry, "packageName"@)).is_some()
    &&& i64_of(member(entry, "lastUpdated"@)).is_some()
    &&& i64_of(member(entry, "added"@)).is_some()
    &&& items_of(member(entry, "categories"@)).is_some()
    &&& forall|i: int| 0 <= i < category_items(entry).len()
        ==> #[trigger] text_of(Some(category_items(entry)[i])).is_some()
    &&& items_of(member(packages, joined_name(entry))).is_some()
    &&& forall|i: int| 0 <= i < app_package_items(entry, packages).len()
        ==> #[trigger] package_valid(app_package_items(entry, packages)[i])
}

/// `a` holds what the app entry and its package records say.
pub open spec fn app_matches(a: App, entry: JsonValue, packages: JsonValue) -> bool {
    &&& Some(a.name@) == text_of(member(entry, "name"@))
    &&& Some(a.suggested_version_code@) == text_of(member(entry, "suggestedVersionCode"@))
    &&& Some(a.license@) == text_of(member(entry, "license"@))
    &&& Some(a.package_name@) == text_of(member(entry, "packageName"@))
    &&& Some(a.last_updated) == i64_of(member(entry, "lastUpdated"@))
    &&& Some(a.added) == i64_of(member(entry, "added"@))
    &&& a.categories@.len() == category_items(entry).len()
    &&& forall|i: int| 0 <= i < a.categories@.len()
        ==> category_named(#[trigger] a.categories@[i], text_of(Some(category_items(entry)[i])).unwrap())
    &&& a.packages@.len() == app_package_items(entry, packages).len()
    &&& forall|i: int| 0 <= i < a.packages@.len()
        ==> package_matches(#[trigger] a.packages@[i], app_package_items(entry, packages)[i])
}

/// The app entries of an index document.
pub open spec fn app_items(doc: JsonValue) -> Seq<JsonValue> {
    items_of(member(doc, "apps"@)).unwrap()
}

/// The package map of an index document.
pub open spec fn package_map(doc: JsonValue) -> JsonValue {
    member(doc, "packages"@).unwrap()
}

/// Whether an index document maps as a whole: both collections present, the
/// app list an array, and every app entry valid.
pub open spec fn index_valid(doc: JsonValue) -> bool {
    &&& member(doc, "packages"@).is_some()
    &&& items_of(member(doc, "apps"@)).is_some()
    &&& forall|i: int| 0 <= i < app_items(doc).len()
        ==> #[trigger] app_valid(app_items(doc)[i], package_map(doc))
}

/// `apps` lists, in order, one app for each app entry of the document.
pub open spec fn apps_match(apps: Seq<App>, doc: JsonValue) -> bool {
    &&& apps.len() == app_items(doc).len()
    &&& forall|i: int| 0 <= i < apps.len()
        ==> app_matches(#[trigger] apps[i], app_items(doc)[i], package_map(doc))
}

fn app_from_json(entry: &JsonValue, packages: &JsonValue) -> (r: Option<App>)
    ensures
        r.is_some() == app_valid(*entry, *packages),
        r matches Some(a) ==> app_matches(a, *entry, *packages),
{
    let name = text_member(entry, "name");
    let suggested_version_code = text_member(entry, "suggestedVersionCode");
    let license = text_member(entry, "license");
    let package_name = text_member(entry, "packageName");
    let last_updated = i64_member(entry, "lastUpdated");
    let added = i64_member(entry, "added");
    if name.is_none() || suggested_version_code.is_none() || license.is_none()
        || package_name.is_none() || last_updated.is_none() || added.is_none() {
        return None;
    }
    let category_entries = match entry.get("categories") {
        Some(x) => match x.as_array() {
            Some(items) => items,
            None => return None,
        },
        None => return None,
    };
    let mut categories: Vec<Category> = Vec::new();
    let mut i: usize = 0;
    while i < category_entries.len()
        invariant
            i <= category_entries@.len(),
            category_entries@ == category_items(*entry),
            categories@.len() == i,
            forall|j: int| 0 <= j < i ==> #[trigger] text_of(Some(category_entries@[j])).is_some(),
            forall|j: int| 0 <= j < i
                ==> category_named(#[trigger] categories@[j], text_of(Some(category_entries@[j])).unwrap()),
        decreases category_entries.len() - i,
    {
        match category_entries[i].as_text() {
            Some(s) => categories.push(Category::from_name(s.as_str())),
            None => return None,
        }
        i = i + 1;
    }
    let package_name = package_name.unwrap();
    let package_entries = match packages.get(package_name.as_str()) {
        Some(x) => match x.as_array() {
            Some(items) => items,
            None => return None,
        },
        None => return None,
    };
    let mut app_packages: Vec<Package> = Vec::new();
    let mut k: usize = 0;
    while k < package_entries.len()
        invariant
            k <= package_entries@.len(),
            package_entries@ == app_package_items(*entry, *packages),
            app_packages@.len() == k,
            forall|j: int| 0 <= j < k ==> #[trigger] package_valid(package_entries@[j]),
            forall|j: int| 0 <= j < k ==> package_matches(#[trigger] app_packages@[j], package_entries@[j]),
        decreases package_entries.len() - k,
    {
        match Package::from_json(&package_entries[k]) {
            Some(p) => app_packages.push(p),
            None => return None,
        }
        k = k + 1;
    }
    Some(App {
        package_name,
        categories,
        suggested_version_code: suggested_version_code.unwrap(),
        license: license.unwrap(),
        name: name.unwrap(),
        added: added.unwrap(),
        last_updated: last_updated.unwrap(),
        packages: app_packages,
    })
}

impl App {
    /// Reads every app of an index document, in the order of its app list,
    /// each with the packages that the package map lists under its name.
    /// `None` where any part fails to map: there is no partial result.
    pub fn from_json(value: &JsonValue) -> (r: Option<Vec<App>>)
        ensures
            r.is_some() == index_valid(*value),
            r matches Some(apps) ==> apps_match(apps@, *value),
    {
        let entries = match value.get("apps") {
            Some(x) => x,
            None => return None,
        };
        let packages = match value.get("packages") {
            Some(x) => x,
            None => return None,
        };
        let entries = match entries.as_array() {
            Some(items) => items,
            None => return None,
        };
        let mut apps: Vec<App> = Vec::new();
        let mut i: usize = 0;
        while i < entries.len()
            invariant
                i <= entries@.len(),
                entries@ == app_items(*value),
                *packages == package_map(*value),
                apps@.len() == i,
                forall|j: int| 0 <= j < i ==> #[trigger] app_valid(entries@[j], *packages),
                forall|j: int| 0 <= j < i ==> app_matches(#[trigger] apps@[j], entries@[j], *packages),
            decreases entries.len() - i,
        {
            match app_from_json(&entries[i], packages) {
                Some(a) => apps.push(a),
                None => return None,
            }
            i = i + 1;
        }
        Some(apps)
    }
}

/// The message of an index document that is not JSON.
pub const UNREADABLE_INDEX: &'static str = "Could not read repository index file!";

/// The message of an index document that does not map to apps.
pub const UNMAPPABLE_INDEX: &'static str = "Could not map repository index file!";

/// What reading the apps of an index document gives.
pub open spec fn apps_read(doc: Option<JsonValue>, r: Result<Vec<App>, Error>) -> bool {
    match doc {
        None => r matches Err(Error::JsonConvert(m)) && m@ == UNREADABLE_INDEX@,
        Some(d) => if index_valid(d) {
            r matches Ok(apps) && apps_match(apps@, d)
        } else {
            r matches Err(Error::JsonConvert(m)) && m@ == UNMAPPABLE_INDEX@
        },
    }
}

/// The apps of a decoded index document (`None` where it could not be
/// decoded): all of them, or an error.
pub fn apps_from_document(doc: Option<&JsonValue>) -> (r: Result<Vec<App>, Error>)
    ensures
        apps_read(
            match doc {
                Some(d) => Some(*d),
                None => None,
            },
            r,
        ),
{
    match doc {
        None => Err(Error::JsonConvert(String::from_str(UNREADABLE_INDEX))),
        Some(d) => match App::from_json(d) {
            Some(apps) => Ok(apps),
            None => Err(Error::JsonConvert(String::from_str(UNMAPPABLE_INDEX))),
        },
    }
}

impl Repository {
    /// The apps of the repository, from the text of its index document
    /// (`index_text`, read from `index_path`), or none where no index has
    /// been generated yet.
    pub fn apps(&self, index_text: Option<&str>) -> (r: Result<Vec<App>, Error>)
        ensures
            match index_text {
                None => r matches Ok(apps) && apps@.len() == 0,
                Some(t) => apps_read(decoded_json(t@), r),
            },
    {
        match index_text {
            None => Ok(Vec::new()),
            Some(t) => {
                let doc = decode_json(t);
                match doc {
                    Some(d) => apps_from_document(Some(&d)),
                    None => apps_from_document(None),
                }
            },
        }
    }
}

/// An index document that lacks a required field of one of its app entries
/// (here its license, or any field whose kind is wrong) maps to no app at
/// all: the whole document fails.
pub proof fn lemma_missing_app_field_fails(doc: JsonValue, i: int)
    requires
        0 <= i < app_items(doc).len(),
        text_of(member(app_items(doc)[i], "license"@)) is None,
    ensures
        !index_valid(doc),
{
    assert(!app_valid(app_items(doc)[i], package_map(doc)));
}

/// A package record without a signer maps where its required fields are
/// there, and the package has no signer.
pub proof fn lemma_absent_signer(v: JsonValue, p: Package)
    requires
        package_valid(v),
        member(v, "signer"@) is None,
        package_matches(p, v),
    ensures
        p.signer is None,
        Some(p.apk_name@) == text_of(member(v, "apkName"@)),
{
}

} // verus!
