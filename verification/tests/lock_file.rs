use composer::json::{DecodeError, JsonValue};
use composer::lock_file::{
    Author, AutoloadConfig, AutoloadPath, Funding, LockFile, LockFileError, Package,
    PackageDist, PackageSource, Stability,
};
use composer::php_array::PhpArray;

fn small_package(name: &str) -> Package {
    Package {
        name: name.to_string(),
        version: "1.0.0".to_string(),
        source: PackageSource {
            source_type: "git".to_string(),
            url: "https://example.org/repo.git".to_string(),
            reference: "abc123".to_string(),
        },
        dist: PackageDist {
            dist_type: "zip".to_string(),
            url: "https://example.org/repo.zip".to_string(),
            reference: "abc123".to_string(),
            shasum: "".to_string(),
        },
        require: PhpArray::Associative(vec![("php".to_string(), ">=8.0".to_string())]),
        suggest: None,
        conflict: None,
        require_dev: None,
        package_type: "library".to_string(),
        extra: None,
        autoload: None,
        autoload_dev: None,
        notification_url: "https://packagist.org/downloads/".to_string(),
        license: vec!["MIT".to_string()],
        authors: None,
        description: "a small package".to_string(),
        homepage: None,
        keywords: None,
        support: None,
        funding: None,
        time: "2024-01-01T00:00:00+00:00".to_string(),
    }
}

fn full_package() -> Package {
    let mut p = small_package("acme/full");
    p.suggest = Some(vec![(
        "ext-curl".to_string(),
        "for http transport".to_string(),
    )]);
    p.conflict = Some(PhpArray::Indexed(vec![])); 
    p.require_dev = Some(PhpArray::Associative(vec![(
        "acme/testing".to_string(),
        "^2.0".to_string(),
    )]));
    p.extra = Some(vec![(
        "branch-alias".to_string(),
        JsonValue::Object(vec![(
            "dev-main".to_string(),
            JsonValue::Str("3.x-dev".to_string()),
        )]),
    )]);
    p.autoload = Some(AutoloadConfig {
        files: Some(vec!["src/functions.php".to_string()]),
        classmap: None,
        psr0: None,
        psr4: Some(vec![
            (
                "Acme\\Full\\".to_string(),
                AutoloadPath::Single("src/".to_string()),
            ),
            (
                "Acme\\Both\\".to_string(),
                AutoloadPath::Multiple(vec!["lib/".to_string(), "gen/".to_string()]),
            ),
        ]),
        exclude_from_classmap: Some(vec!["tests/".to_string()]),
    });
    p.authors = Some(vec![Author {
        name: "Alice Example".to_string(),
        email: Some("alice@example.org".to_string()),
        homepage: None,
        role: Some("maintainer".to_string()),
    }]);
    p.homepage = Some("https://example.org".to_string());
    p.keywords = Some(vec!["json".to_string(), "lock".to_string()]);
    p.support = Some(vec![(
        "issues".to_string(),
        "https://example.org/issues".to_string(),
    )]);
    p.funding = Some(vec![Funding {
        url: "https://example.org/fund".to_string(),
        funding_type: "custom".to_string(),
    }]);
    p
}

fn make_lock() -> LockFile {
    LockFile {
        _readme: vec![
            "This file locks the dependencies of your project to a known state".to_string(),
        ],
        content_hash: "d41d8cd98f00b204e9800998ecf8427e".to_string(),
        packages: vec![full_package(), small_package("acme/small")],
        packages_dev: vec![small_package("acme/devtool")],
        aliases: PhpArray::Indexed(vec![]),
        minimum_stability: Stability::Stable,
        stability_flags: PhpArray::Associative(vec![("acme/full".to_string(), 20u8)]),
        prefer_stable: true,
        prefer_lowest: false,
        platform: PhpArray::Associative(vec![("php".to_string(), ">=8.1".to_string())]),
        platform_dev: PhpArray::Indexed(vec![]),
        plugin_api_version: "2.3.0".to_string(),
    }
}

#[test]
fn test_lock_file_round_trips_structurally() {
    let x = make_lock();
    let text = x.to_json_text();
    let y = LockFile::from_json_text(&text).unwrap();
    assert_eq!(y, x);
}

#[test]
fn test_saving_equal_values_gives_identical_text() {
    assert_eq!(make_lock().to_json_text(), make_lock().to_json_text());
}

#[test]
fn test_saved_text_reloads_and_saves_to_the_same_bytes() {
    let text = make_lock().to_json_text();
    let reloaded = LockFile::from_json_text(&text).unwrap();
    assert_eq!(reloaded.to_json_text(), text);
}

#[test]
fn test_unknown_top_level_key_is_rejected() {
    let j = make_lock().to_json();
    let mut entries = match j {
        JsonValue::Object(entries) => entries,
        _ => panic!("a lock file encodes to an object"),
    };
    entries.push(("foo".to_string(), JsonValue::Number("1".to_string())));
    let r = LockFile::from_json(&JsonValue::Object(entries));
    match r {
        Err(DecodeError::UnknownField(k)) => assert_eq!(k, "foo"),
        other => panic!("expected an unknown-field error, got {:?}", other),
    }
}

#[test]
fn test_unknown_top_level_key_is_rejected_in_text() {
    let lock_text = make_lock().to_json_text();
    let with_foo = format!("{}{}", &lock_text[..lock_text.len() - 1], ",\"foo\":1}");
    let r = LockFile::from_json_text(&with_foo);
    assert!(matches!(
        r,
        Err(LockFileError::DeserializeError(DecodeError::UnknownField(_)))
    ));
}

#[test]
fn test_missing_required_key_is_rejected() {
    let j = make_lock().to_json();
    let entries = match j {
        JsonValue::Object(entries) => entries,
        _ => panic!("a lock file encodes to an object"),
    };
    let without: Vec<(String, JsonValue)> = entries
        .into_iter()
        .filter(|(k, _)| k != "content-hash")
        .collect();
    let r = LockFile::from_json(&JsonValue::Object(without));
    match r {
        Err(DecodeError::MissingField(k)) => assert_eq!(k, "content-hash"),
        other => panic!("expected a missing-field error, got {:?}", other),
    }
}

#[test]
fn test_wrong_field_type_is_rejected() {
    let j = make_lock().to_json();
    let entries = match j {
        JsonValue::Object(entries) => entries,
        _ => panic!("a lock file encodes to an object"),
    };
    let altered: Vec<(String, JsonValue)> = entries
        .into_iter()
        .map(|(k, v)| {
            if k == "content-hash" {
                (k, JsonValue::Bool(true))
            } else {
                (k, v)
            }
        })
        .collect();
    let r = LockFile::from_json(&JsonValue::Object(altered));
    assert!(matches!(r, Err(DecodeError::WrongType(_))));
}

#[test]
fn test_duplicate_package_name_is_rejected() {
    let mut x = make_lock();
    x.packages = vec![small_package("acme/twice"), small_package("acme/twice")];
    let r = LockFile::from_json(&x.to_json());
    match r {
        Err(DecodeError::DuplicateName(n)) => assert_eq!(n, "acme/twice"),
        other => panic!("expected a duplicate-name error, got {:?}", other),
    }
}

#[test]
fn test_empty_package_name_is_rejected() {
    let mut x = make_lock();
    x.packages = vec![small_package("")];
    let r = LockFile::from_json(&x.to_json());
    assert!(matches!(r, Err(DecodeError::EmptyName)));
}

#[test]
fn test_syntax_error_is_reported_as_such() {
    let r = LockFile::from_json_text("{ not json at all");
    assert!(matches!(
        r,
        Err(LockFileError::DeserializeError(DecodeError::Syntax(_)))
    ));
}

#[test]
fn test_stability_levels_read_and_write() {
    for (level, text) in [
        (Stability::Dev, "dev"),
        (Stability::Alpha, "alpha"),
        (Stability::Beta, "beta"),
        (Stability::RC, "RC"),
        (Stability::Stable, "stable"),
    ] {
        assert_eq!(level.as_text(), text);
        assert_eq!(Stability::from_text(text), Some(level));
    }
    assert_eq!(Stability::from_text("rc"), None);
    assert_eq!(Stability::from_text("weird"), None);
}

#[test]
fn test_simple_lock_file() {
    let text = "{\"_readme\":[\"generated\"],\"content-hash\":\"cafe\",\"packages\":[],\"packages-dev\":[],\"aliases\":[],\"minimum-stability\":\"stable\",\"stability-flags\":{},\"prefer-stable\":true,\"prefer-lowest\":false,\"platform\":{\"php\":\">=8.1\"},\"platform-dev\":[],\"plugin-api-version\":\"2.3.0\"}";
    let lock_file = LockFile::from_json_text(text).unwrap();
    assert_eq!(lock_file.content_hash, "cafe");
    assert_eq!(lock_file.minimum_stability, Stability::Stable);
    assert_eq!(lock_file.stability_flags, PhpArray::Associative(vec![]));
    assert_eq!(
        lock_file.platform,
        PhpArray::Associative(vec![("php".to_string(), ">=8.1".to_string())])
    );
    assert!(lock_file.prefer_stable);
    assert!(!lock_file.prefer_lowest);
    assert_eq!(lock_file.plugin_api_version, "2.3.0");
}

#[test]
fn test_error_messages_read_plainly() {
    let e = LockFileError::DeserializeError(DecodeError::EmptyName);
    assert_eq!(e.message(), "Failed to read lock file: empty package name");
    let e = LockFileError::ReadError("no such file".to_string());
    assert_eq!(e.message(), "Failed to read lock file: no such file");
    let e = LockFileError::DeserializeError(DecodeError::UnknownField("foo".to_string()));
    assert_eq!(e.message(), "Failed to read lock file: unknown field: foo");
}

#[test]
fn test_key_order_does_not_matter_on_load() {
    let x = make_lock();
    let entries = match x.to_json() {
        JsonValue::Object(entries) => entries,
        _ => panic!("a lock file encodes to an object"),
    };
    let reversed: Vec<(String, JsonValue)> = entries.into_iter().rev().collect();
    let y = LockFile::from_json(&JsonValue::Object(reversed)).unwrap();
    assert_eq!(y, x);
}

#[test]
fn test_optional_fields_accept_null_and_absence() {
    let p = small_package("acme/opt");
    let entries = match p.to_json() {
        JsonValue::Object(entries) => entries,
        _ => panic!("a package encodes to an object"),
    };
    // Unset optional fields encode as null; dropping those keys
    // entirely must decode to the same package.
    let trimmed: Vec<(String, JsonValue)> = entries
        .into_iter()
        .filter(|(_, v)| *v != JsonValue::Null)
        .collect();
    let q = Package::from_json(&JsonValue::Object(trimmed)).unwrap();
    assert_eq!(q, p);
}
