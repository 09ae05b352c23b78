use fdroid::aapt::{decimal_string, get_name, get_version_code, parse_decimal, version_code_from_capture};
use fdroid::app::{apps_from_document, UNMAPPABLE_INDEX, UNREADABLE_INDEX};
use fdroid::config::ConfigFile;
use fdroid::{Action, App, Category, EntryKind, Error, Event, InvalidFile, JsonValue, Package, Repository, Stage};

fn repo() -> Repository {
    Repository::at_root("/srv/fdroid".to_string())
}

fn text(s: &str) -> JsonValue {
    JsonValue::Str(s.to_string())
}

fn object(entries: Vec<(&str, JsonValue)>) -> JsonValue {
    JsonValue::Object(entries.into_iter().map(|(k, v)| (k.to_string(), v)).collect())
}

fn package_entries(skip: &str) -> Vec<(&'static str, JsonValue)> {
    let all = vec![
        ("added", JsonValue::PosInt(1700000000000)),
        ("apkName", text("a_1.apk")),
        ("hash", text("00ff")),
        ("hashType", text("sha256")),
        ("packageName", text("a")),
        ("size", JsonValue::PosInt(1024)),
        ("versionName", text("1.0")),
        ("maxSdkVersion", JsonValue::PosInt(5000000000)),
        ("minSdkVersion", JsonValue::PosInt(21)),
        ("sig", text("5e1f")),
        ("signer", text("c0ffee")),
        ("targetSdkVersion", text("34")),
        ("versionCode", JsonValue::PosInt(1)),
        ("nativecode", JsonValue::Array(vec![text("arm64-v8a")])),
        (
            "uses-permission",
            JsonValue::Array(vec![
                JsonValue::Array(vec![text("android.permission.CAMERA"), JsonValue::Null]),
                JsonValue::Array(vec![text("android.permission.READ"), JsonValue::PosInt(22)]),
                JsonValue::Array(vec![text("android.permission.NEG"), JsonValue::NegInt(-1)]),
            ]),
        ),
    ];
    all.into_iter().filter(|(k, _)| *k != skip).collect()
}

fn app_entries(skip: &str) -> Vec<(&'static str, JsonValue)> {
    let all = vec![
        ("name", text("A")),
        ("suggestedVersionCode", text("1")),
        ("license", text("MIT")),
        ("packageName", text("a")),
        ("lastUpdated", JsonValue::PosInt(2)),
        ("added", JsonValue::NegInt(-3)),
        ("categories", JsonValue::Array(vec![text("Games"), text("Phone & SMS"), text("Retro")])),
    ];
    all.into_iter().filter(|(k, _)| *k != skip).collect()
}

fn document(app_skip: &str) -> JsonValue {
    object(vec![
        ("apps", JsonValue::Array(vec![object(app_entries("")), {
            let mut b = app_entries(app_skip);
            for e in b.iter_mut() {
                if e.0 == "packageName" {
                    e.1 = text("b");
                }
            }
            object(b)
        }])),
        (
            "packages",
            object(vec![
                ("a", JsonValue::Array(vec![object(package_entries(""))])),
                ("b", JsonValue::Array(vec![object(package_entries("")), object(package_entries(""))])),
            ]),
        ),
    ])
}

#[test]
fn package_reads_every_field() {
    let p: Package = Package::from_json(&object(package_entries(""))).unwrap();
    assert_eq!(p.added, 1700000000000);
    assert_eq!(p.apk_name, "a_1.apk");
    assert_eq!(p.size, 1024);
    assert_eq!(p.max_sdk_version, None);
    assert_eq!(p.min_sdk_version, Some(21));
    assert_eq!(p.target_sdk_version, None);
    assert_eq!(p.signer.as_deref(), Some("c0ffee"));
    assert_eq!(p.nativecode, vec!["arm64-v8a".to_string()]);
    assert_eq!(
        p.uses_permission,
        vec![
            ("android.permission.CAMERA".to_string(), None),
            ("android.permission.READ".to_string(), Some(22)),
            ("android.permission.NEG".to_string(), None),
        ]
    );
    assert_eq!(p.version_code, Some(1));
}

#[test]
fn package_without_signer_maps() {
    let p = Package::from_json(&object(package_entries("signer"))).unwrap();
    assert_eq!(p.signer, None);
    assert_eq!(p.sig.as_deref(), Some("5e1f"));
    assert_eq!(p.apk_name, "a_1.apk");
    assert_eq!(p.hash, "00ff");
    assert_eq!(p.hash_type, "sha256");
    assert_eq!(p.package_name, "a");
    assert_eq!(p.version_name, "1.0");
}

#[test]
fn package_without_required_field_fails() {
    assert!(Package::from_json(&object(package_entries("hash"))).is_none());
    assert!(Package::from_json(&object(package_entries("size"))).is_none());
}

#[test]
fn nativecode_with_non_string_reads_empty() {
    let mut entries = package_entries("nativecode");
    entries.push(("nativecode", JsonValue::Array(vec![text("armeabi-v7a"), JsonValue::PosInt(7)])));
    let p = Package::from_json(&object(entries)).unwrap();
    assert!(p.nativecode.is_empty());
    assert_eq!(p.apk_name, "a_1.apk");
    let mut entries = package_entries("nativecode");
    entries.push(("nativecode", text("arm64-v8a")));
    assert!(Package::from_json(&object(entries)).unwrap().nativecode.is_empty());
}

#[test]
fn permission_of_three_elements_fails() {
    let mut entries = package_entries("uses-permission");
    entries.push((
        "uses-permission",
        JsonValue::Array(vec![JsonValue::Array(vec![text("android.permission.CAMERA"), JsonValue::Null, JsonValue::Null])]),
    ));
    assert!(Package::from_json(&object(entries)).is_none());
    let mut entries = package_entries("uses-permission");
    entries.push(("uses-permission", JsonValue::Array(vec![JsonValue::Array(vec![JsonValue::PosInt(1), JsonValue::Null])])));
    assert!(Package::from_json(&object(entries)).is_none());
}

#[test]
fn malformed_permission_fails() {
    let mut entries = package_entries("uses-permission");
    entries.push(("uses-permission", JsonValue::Array(vec![JsonValue::Array(vec![text("only-name")])])));
    assert!(Package::from_json(&object(entries)).is_none());
}

#[test]
fn index_maps_apps_in_order() {
    let apps: Vec<App> = App::from_json(&document("")).unwrap();
    assert_eq!(apps.len(), 2);
    assert_eq!(apps[0].package_name, "a");
    assert_eq!(apps[1].package_name, "b");
    assert_eq!(apps[0].packages.len(), 1);
    assert_eq!(apps[1].packages.len(), 2);
    assert_eq!(apps[0].added, -3);
    assert_eq!(
        apps[0].categories,
        vec![Category::Games, Category::PhoneAndSms, Category::Custom("Retro".to_string())]
    );
}

#[test]
fn index_missing_license_fails_whole() {
    assert!(App::from_json(&document("license")).is_none());
    let r = apps_from_document(Some(&document("license")));
    assert_eq!(r.unwrap_err(), Error::JsonConvert(UNMAPPABLE_INDEX.to_string()));
}

#[test]
fn index_text_errors() {
    let r = repo().apps(Some("{ not json"));
    assert_eq!(r.unwrap_err(), Error::JsonConvert(UNREADABLE_INDEX.to_string()));
    let r = repo().apps(Some(r#"{"apps": [{"name": "x"}], "packages": {}}"#));
    assert_eq!(r.unwrap_err(), Error::JsonConvert(UNMAPPABLE_INDEX.to_string()));
    let r = repo().apps(Some(r#"{"apps": []}"#));
    assert!(r.is_err());
}

#[test]
fn badging_fields() {
    let text = "package: name='com.example.app' versionCode='42' versionName='1.2'";
    assert_eq!(get_version_code(text), Some(42));
    assert_eq!(get_name(text).as_deref(), Some("com.example.app"));
    assert_eq!(get_version_code("package: versionName='1'"), None);
    assert_eq!(get_name("versionCode='3'"), None);
    assert_eq!(get_version_code("versionCode='99999999999'"), None);
}

#[test]
fn decimal_parsing() {
    assert_eq!(parse_decimal("0"), Some(0));
    assert_eq!(parse_decimal("007"), Some(7));
    assert_eq!(parse_decimal("4294967295"), Some(u32::MAX));
    assert_eq!(parse_decimal("4294967296"), None);
    assert_eq!(parse_decimal(""), None);
    assert_eq!(parse_decimal("1a"), None);
    assert_eq!(version_code_from_capture(None), None);
    assert_eq!(version_code_from_capture(Some("128")), Some(128));
}

#[test]
fn invalid_file_constructors() {
    let a = InvalidFile::without_reason("/x".to_string());
    assert_eq!(a.reason, None);
    assert_eq!(a.file, "/x");
    let b = InvalidFile::with_reason("/y".to_string(), "bad");
    assert_eq!(b.reason.as_deref(), Some("bad"));
    assert_eq!(b.file, "/y");
}

#[test]
fn layout_paths() {
    let r = repo();
    assert_eq!(r.keystore_path(), "/srv/fdroid/keystore.p12");
    assert_eq!(r.config_path(), "/srv/fdroid/config.yml");
    assert_eq!(r.metadata_path(), "/srv/fdroid/metadata");
    assert_eq!(r.unsigned_dir(), "/srv/fdroid/unsigned");
    assert_eq!(r.repo_path(), "/srv/fdroid/repo");
    assert_eq!(r.index_path(), "/srv/fdroid/repo/index-v1.json");
}

fn config_with_icon(icon: Option<&str>) -> ConfigFile {
    ConfigFile {
        sdk_path: String::new(),
        repo_keyalias: String::new(),
        keystore: String::new(),
        keystorepass: "pw".to_string(),
        keypass: String::new(),
        keydname: String::new(),
        apksigner: None,
        repo_url: None,
        repo_name: None,
        repo_icon: icon.map(|s| s.to_string()),
        repo_description: None,
        archive_url: None,
        archive_name: None,
        archive_icon: None,
        archive_description: None,
        archive_older: None,
    }
}

#[test]
fn image_extension_mismatch() {
    let r = repo();
    let file = config_with_icon(None);
    let e = r.image_target(&file, "/tmp/icon.jpg").unwrap_err();
    assert_eq!(
        e,
        Error::InvalidFile(InvalidFile::with_reason("/tmp/icon.jpg".to_string(), "Image type should be: \"png\""))
    );
    let e = r.image_target(&file, "/tmp/icon").unwrap_err();
    assert_eq!(
        e,
        Error::InvalidFile(InvalidFile::with_reason("/tmp/icon".to_string(), "Image does not have a file type"))
    );
    let e = r.image_target(&config_with_icon(Some(".hidden")), "/tmp/a.png").unwrap_err();
    assert_eq!(
        e,
        Error::InvalidFile(InvalidFile::with_reason("/tmp/a.png".to_string(), "Image does not have a file name"))
    );
    let (s, a) = r.set_image("/tmp/icon.jpg");
    assert!(matches!(a, Action::ReadConfig));
    let (s, a) = s.resume(Event::Loaded(file));
    assert!(matches!(a, Action::Finish(Err(Error::InvalidFile(_)))));
    assert!(s.is_finished());
}

#[test]
fn image_path_uses_configured_icon() {
    let r = repo();
    let file = config_with_icon(Some("logo.jpg"));
    assert_eq!(r.image_path(&file), "/srv/fdroid/repo/icons/logo.jpg");
    assert_eq!(r.image_target(&file, "a/b/new.jpg").unwrap(), "/srv/fdroid/repo/icons/logo.jpg");
}

#[test]
fn delete_missing_is_no_op() {
    let (s, a) = repo().delete_app("gone.apk");
    assert!(matches!(&a, Action::Inspect(p) if p == "/srv/fdroid/repo/gone.apk"));
    let (s, a) = s.resume(Event::Entry(EntryKind::Missing));
    assert!(matches!(a, Action::Finish(Ok(()))));
    assert!(s.is_finished());
}

#[test]
fn delete_directory_is_not_a_file() {
    let (s, _) = repo().delete_app("dir");
    let (_, a) = s.resume(Event::Entry(EntryKind::Directory));
    assert!(matches!(a, Action::Finish(Err(Error::NotAFile(p))) if p == "/srv/fdroid/repo/dir"));
}

#[test]
fn add_rolls_back_after_failed_update() {
    let (s, _) = repo().add_app("/tmp/x.apk");
    let (s, _) = s.resume(Event::Done);
    let (s, a) = s.resume(Event::Failed(Error::File("boom".to_string())));
    assert!(matches!(&a, Action::RemoveFile(p) if p == "/srv/fdroid/repo/x.apk"));
    assert!(matches!(s.stage, Stage::RollingBack));
    let (s, a) = s.resume(Event::Done);
    assert!(matches!(a, Action::Finish(Err(Error::Update))));
    assert!(s.is_finished());
}

#[test]
fn add_without_file_name_fails() {
    let (s, a) = repo().add_app("/tmp/dir/..");
    assert!(matches!(a, Action::Finish(Err(Error::NotAFile(p))) if p == "/tmp/dir/.."));
    assert!(s.is_finished());
    let (_, a) = repo().add_app("/");
    assert!(matches!(a, Action::Finish(Err(Error::NotAFile(_)))));
}

#[test]
fn add_passes_over_trailing_separators() {
    for path in ["x/a.apk/", "x/a.apk//", "x/a.apk/.", "x/./a.apk/./"] {
        let (_, a) = repo().add_app(path);
        match a {
            Action::CopyFile { from, to } => {
                assert_eq!(from, path);
                assert_eq!(to, "/srv/fdroid/repo/a.apk");
            }
            other => panic!("unexpected {other:?}"),
        }
    }
}

#[test]
fn image_extension_after_trailing_separator() {
    let r = repo();
    let file = config_with_icon(None);
    assert_eq!(r.image_target(&file, "/tmp/new.png/").unwrap(), "/srv/fdroid/repo/icons/icon.png");
}

#[test]
fn unsigned_path_checks_and_creates() {
    let r = repo();
    let (s, a) = r.unsigned_path();
    assert!(matches!(&a, Action::Inspect(p) if p == "/srv/fdroid/unsigned"));
    let (s, a) = s.resume(Event::Entry(EntryKind::Directory));
    assert!(matches!(a, Action::Finish(Ok(()))));
    assert!(s.is_finished());

    let (s, _) = r.unsigned_path();
    let (s, a) = s.resume(Event::Entry(EntryKind::Missing));
    assert!(matches!(&a, Action::CreateDir(p) if p == "/srv/fdroid/unsigned"));
    let (_, a) = s.resume(Event::Done);
    assert!(matches!(a, Action::Finish(Ok(()))));

    let (s, _) = r.unsigned_path();
    let (_, a) = s.resume(Event::Entry(EntryKind::File));
    assert!(matches!(a, Action::Finish(Err(Error::NotADirectory(p))) if p == "/srv/fdroid/unsigned"));
}

#[test]
fn delete_special_file_is_not_a_file() {
    let (s, _) = repo().delete_app("fifo");
    let (_, a) = s.resume(Event::Entry(EntryKind::Other));
    assert!(matches!(a, Action::Finish(Err(Error::NotAFile(p))) if p == "/srv/fdroid/repo/fifo"));
}

#[test]
fn open_and_initialize() {
    let (s, a) = Repository::new("/srv/new".to_string());
    assert!(matches!(&a, Action::Inspect(p) if p == "/srv/new"));
    let (s, a) = s.resume(Event::Entry(EntryKind::Directory));
    assert!(matches!(&a, Action::Inspect(p) if p == "/srv/new/config.yml"));
    let (s, a) = s.resume(Event::Entry(EntryKind::Missing));
    assert!(matches!(&a, Action::RunTool { subcommand, args } if subcommand == "init" && args.is_empty()));
    let (_, a) = s.resume(Event::Failed(Error::Run("x".to_string())));
    assert!(matches!(a, Action::Finish(Err(Error::Init))));

    let (s, _) = Repository::new("/srv/file".to_string());
    let (_, a) = s.resume(Event::Entry(EntryKind::File));
    assert!(matches!(a, Action::Finish(Err(Error::NotADirectory(p))) if p == "/srv/file"));

    let (s, _) = Repository::new("/srv/old".to_string());
    let (s, _) = s.resume(Event::Entry(EntryKind::Directory));
    let (_, a) = s.resume(Event::Entry(EntryKind::File));
    assert!(matches!(a, Action::Finish(Ok(()))));
}

#[test]
fn tool_failures() {
    let r = repo();
    let (s, a) = r.publish();
    assert!(matches!(&a, Action::RunTool { subcommand, .. } if subcommand == "publish"));
    let (_, a) = s.resume(Event::Failed(Error::File("spawn".to_string())));
    assert!(matches!(a, Action::Finish(Err(Error::Run(c))) if c == "fdroid publish"));
    let (s, a) = r.cleanup();
    assert!(matches!(&a, Action::RunTool { subcommand, .. } if subcommand == "rewritemeta"));
    let (_, a) = s.resume(Event::Failed(Error::File("spawn".to_string())));
    assert!(matches!(a, Action::Finish(Err(Error::Run(c))) if c == "fdroid rewritemeta"));
    let (s, _) = r.update();
    let (s, _) = s.resume(Event::Done);
    let (_, a) = s.resume(Event::Failed(Error::File("exit 1".to_string())));
    assert!(matches!(a, Action::Finish(Err(Error::Update))));
    let (s, _) = r.initialize();
    let (_, a) = s.resume(Event::Done);
    assert!(matches!(&a, Action::RunTool { subcommand, args } if subcommand == "update" && args == &vec!["-c".to_string()]));
}

#[test]
fn clear_steps() {
    let r = repo();
    let (s, a) = r.clear();
    assert!(matches!(&a, Action::RemoveDirAll(p) if p == "/srv/fdroid/repo"));
    let (s, a) = s.resume(Event::Done);
    assert!(matches!(&a, Action::CreateDir(p) if p == "/srv/fdroid/repo"));
    let (s, a) = s.resume(Event::Done);
    assert!(matches!(&a, Action::RemoveDirAll(p) if p == "/srv/fdroid/metadata"));
    let (s, a) = s.resume(Event::Done);
    assert!(matches!(&a, Action::CreateDir(p) if p == "/srv/fdroid/metadata"));
    let (_, a) = s.resume(Event::Done);
    assert!(matches!(&a, Action::RunTool { subcommand, .. } if subcommand == "update"));
}

#[test]
fn sign_rejects_badging_without_fields() {
    let (s, _) = repo().sign_app("/tmp/a.apk");
    let (s, _) = s.resume(Event::Entry(EntryKind::File));
    let (_, a) = s.resume(Event::Output("package: name='a.b'".to_string()));
    assert!(matches!(a, Action::Finish(Err(Error::InvalidFile(f))) if f.reason.as_deref() == Some("Version Code not found!")));
    let (s, _) = repo().sign_app("/tmp/a.apk");
    let (s, _) = s.resume(Event::Entry(EntryKind::File));
    let (_, a) = s.resume(Event::Output("versionCode='3'".to_string()));
    assert!(matches!(a, Action::Finish(Err(Error::InvalidFile(f))) if f.reason.as_deref() == Some("Name not found!")));
    let (s, _) = repo().sign_app("/tmp/a.apk");
    let (s, _) = s.resume(Event::Entry(EntryKind::File));
    let (_, a) = s.resume(Event::Failed(Error::File("no aapt".to_string())));
    assert!(matches!(a, Action::Finish(Err(Error::InvalidFile(f))) if f.reason.is_none() && f.file == "/tmp/a.apk"));
    let (s, _) = repo().sign_app("/tmp/missing.apk");
    let (_, a) = s.resume(Event::Entry(EntryKind::Missing));
    assert!(matches!(a, Action::Finish(Err(Error::NotAFile(_)))));
}


#[test]
fn error_messages() {
    assert_eq!(Error::Init.message(), "Could not initialize the repository!");
    assert_eq!(Error::Update.message(), "Could not update the repository!");
    assert_eq!(Error::Run("fdroid publish".to_string()).message(), "Command failed. Command \"fdroid publish\"!");
    assert_eq!(Error::NotAFile("/a".to_string()).message(), "The provided path is not a file: \"/a\"");
    assert_eq!(
        Error::InvalidFile(InvalidFile::with_reason("/i.jpg".to_string(), "bad")).message(),
        "File with path \"/i.jpg\" is invalid. Reason: \"bad\"."
    );
    assert_eq!(
        Error::InvalidFile(InvalidFile::without_reason("/i.jpg".to_string())).message(),
        "File with path \"/i.jpg\" is invalid."
    );
}

#[test]
fn decimal_strings() {
    assert_eq!(decimal_string(0), "0");
    assert_eq!(decimal_string(128), "128");
    assert_eq!(decimal_string(u32::MAX), "4294967295");
}
