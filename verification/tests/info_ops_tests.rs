use pulsar::info_ops::{
    apply_mod_info_input, ensure_mod_info_file, set_mod_id_field, update_mod_id_in_json_file,
    JsonObject,
};
use pulsar::models::EnsureModInfoInput;
use pulsar::tracking::{has_untracked_mods_in_dir, is_untracked_mod_dir};
use serde_json::Value;
use std::cell::RefCell;
use std::collections::HashMap;

fn object_of(text: &str) -> Option<JsonObject> {
    serde_json::from_str::<Value>(text)
        .expect("test json should parse")
        .as_object()
        .cloned()
}

fn field(obj: &JsonObject, key: &str) -> Option<String> {
    obj.get(key).and_then(|v| v.as_str()).map(|s| s.to_string())
}

#[test]
fn set_mod_id_field_updates_object_and_rejects_non_object() {
    let mut value = object_of(r#"{"modId":"old"}"#);
    set_mod_id_field(&mut value, "new").expect("object should accept id update");
    assert_eq!(field(value.as_ref().unwrap(), "id").as_deref(), Some("new"));

    let mut invalid = object_of(r#"["not", "an", "object"]"#);
    assert!(set_mod_id_field(&mut invalid, "new").is_err());
}

#[test]
fn apply_mod_info_input_sets_only_non_empty_fields_and_requires_object() {
    let mut value = object_of(
        r#"{"modId":"old","fileId":"keep","version":"keep","installSource":"old.zip"}"#,
    );
    let input = EnsureModInfoInput {
        mod_id: "".to_string(),
        file_id: "2".to_string(),
        version: "".to_string(),
        install_source: "archive.zip".to_string(),
    };

    apply_mod_info_input(&mut value, &input).expect("object should accept updates");
    let obj = value.as_ref().unwrap();
    assert_eq!(field(obj, "modId").as_deref(), Some("old"));
    assert_eq!(field(obj, "fileId").as_deref(), Some("2"));
    assert_eq!(field(obj, "version").as_deref(), Some("keep"));
    assert_eq!(field(obj, "installSource").as_deref(), Some("archive.zip"));

    let mut invalid = object_of("null");
    let err = apply_mod_info_input(&mut invalid, &input).expect_err("null is no object");
    assert_eq!(err, "mod_info.json is not a valid JSON object.");
}

struct MemFs {
    files: RefCell<HashMap<String, String>>,
}

impl MemFs {
    fn new(entries: &[(&str, &str)]) -> MemFs {
        MemFs {
            files: RefCell::new(
                entries
                    .iter()
                    .map(|(k, v)| (k.to_string(), v.to_string()))
                    .collect(),
            ),
        }
    }
    fn has(&self, p: &str) -> bool {
        self.files.borrow().contains_key(p)
    }
    fn read(&self, p: &str) -> Result<String, String> {
        self.files
            .borrow()
            .get(p)
            .cloned()
            .ok_or_else(|| "No such file or directory (os error 2)".to_string())
    }
    fn write(&self, p: &str, t: &str) -> Result<(), String> {
        if p.starts_with("/missing/") {
            return Err("No such file or directory (os error 2)".to_string());
        }
        self.files.borrow_mut().insert(p.to_string(), t.to_string());
        Ok(())
    }
    fn parsed(&self, p: &str) -> JsonObject {
        object_of(&self.files.borrow()[p]).expect("written file is an object")
    }
}

#[test]
fn update_mod_id_in_json_file_sets_id_and_keeps_other_fields() {
    let fs = MemFs::new(&[(
        "/m/mod_info.json",
        r#"{"modId":"old","fileId":"2","version":"1.0","installSource":"archive.zip","n":3}"#,
    )]);
    update_mod_id_in_json_file(
        "/m/mod_info.json",
        "new",
        |p: &str| fs.has(p),
        |p: &str| fs.read(p),
        |p: &str, t: &str| fs.write(p, t),
    )
    .expect("update should succeed");
    let obj = fs.parsed("/m/mod_info.json");
    assert_eq!(field(&obj, "id").as_deref(), Some("new"));
    assert_eq!(field(&obj, "modId").as_deref(), Some("old"));
    assert_eq!(obj.get("n").and_then(|v| v.as_u64()), Some(3));
    assert!(fs.files.borrow()["/m/mod_info.json"].contains("\n  \"id\": \"new\""));
}

#[test]
fn update_mod_id_reports_missing_invalid_and_read_errors() {
    let fs = MemFs::new(&[("/m/invalid.json", "{not-json"), ("/m/list.json", "[1]")]);
    let missing_err = update_mod_id_in_json_file(
        "/m/missing.json",
        "new",
        |p: &str| fs.has(p),
        |p: &str| fs.read(p),
        |p: &str, t: &str| fs.write(p, t),
    )
    .expect_err("missing should fail");
    assert_eq!(missing_err, "mod_info.json not found for path '/m/missing.json'.");

    let invalid_err = update_mod_id_in_json_file(
        "/m/invalid.json",
        "new",
        |p: &str| fs.has(p),
        |p: &str| fs.read(p),
        |p: &str, t: &str| fs.write(p, t),
    )
    .expect_err("invalid json should fail");
    assert!(invalid_err.starts_with("Failed to parse mod_info.json: "));

    let list_err = update_mod_id_in_json_file(
        "/m/list.json",
        "new",
        |p: &str| fs.has(p),
        |p: &str| fs.read(p),
        |p: &str, t: &str| fs.write(p, t),
    )
    .expect_err("a list is no object");
    assert_eq!(list_err, "mod_info.json is not a valid JSON object.");

    let read_err = update_mod_id_in_json_file(
        "/m/dir.json",
        "new",
        |_p: &str| true,
        |_p: &str| Err("Is a directory (os error 21)".to_string()),
        |p: &str, t: &str| fs.write(p, t),
    )
    .expect_err("directory read should fail");
    assert_eq!(read_err, "Failed to read mod_info.json: Is a directory (os error 21)");

    let write_err = update_mod_id_in_json_file(
        "/m/ok.json",
        "new",
        |_p: &str| true,
        |_p: &str| Ok("{}".to_string()),
        |_p: &str, _t: &str| Err("Read-only file system (os error 30)".to_string()),
    )
    .expect_err("write should fail");
    assert_eq!(
        write_err,
        "Failed to write updated mod_info.json: Read-only file system (os error 30)"
    );
}

#[test]
fn ensure_mod_info_file_creates_updates_and_rejects_invalid_existing_json() {
    let fs = MemFs::new(&[
        ("/m/existing.json", r#"{"modId":"old","fileId":"keep","custom":true}"#),
        ("/m/invalid.json", "{not-json"),
    ]);
    let input = EnsureModInfoInput {
        mod_id: "1".to_string(),
        file_id: "".to_string(),
        version: "1.0".to_string(),
        install_source: "archive.zip".to_string(),
    };
    let ensure = |p: &str| {
        ensure_mod_info_file(
            p,
            &input,
            |q: &str| fs.has(q),
            |q: &str| fs.read(q),
            |q: &str, t: &str| fs.write(q, t),
        )
    };
    ensure("/m/new.json").expect("missing file should be created");
    let created = fs.parsed("/m/new.json");
    assert_eq!(created.len(), 3);
    assert_eq!(field(&created, "modId").as_deref(), Some("1"));
    assert_eq!(field(&created, "version").as_deref(), Some("1.0"));
    assert_eq!(field(&created, "installSource").as_deref(), Some("archive.zip"));

    ensure("/m/existing.json").expect("existing file should be updated");
    let updated = fs.parsed("/m/existing.json");
    assert_eq!(field(&updated, "modId").as_deref(), Some("1"));
    assert_eq!(field(&updated, "fileId").as_deref(), Some("keep"));
    assert_eq!(updated.get("custom").and_then(|v| v.as_bool()), Some(true));

    let err = ensure("/m/invalid.json").expect_err("invalid json should fail");
    assert!(!err.is_empty());
    assert!(!err.starts_with("Failed to parse"));
    assert!(ensure("/missing/mod_info.json").is_err());
}

#[test]
fn detects_missing_mod_info_as_untracked() {
    let fs = MemFs::new(&[]);
    assert!(is_untracked_mod_dir("/mods/A", &|p: &str| fs.has(p), &|p: &str| fs.read(p)));
}

#[test]
fn detects_invalid_or_empty_install_source() {
    let fs = MemFs::new(&[
        ("/mods/Bad/mod_info.json", "{oops"),
        ("/mods/Empty/mod_info.json", r#"{"installSource":""}"#),
        ("/mods/Num/mod_info.json", r#"{"installSource":5}"#),
        ("/mods/Good/mod_info.json", r#"{"installSource":"a.zip"}"#),
    ]);
    let exists = |p: &str| fs.has(p);
    let read = |p: &str| fs.read(p);
    assert!(is_untracked_mod_dir("/mods/Bad", &exists, &read));
    assert!(is_untracked_mod_dir("/mods/Empty", &exists, &read));
    assert!(is_untracked_mod_dir("/mods/Num", &exists, &read));
    assert!(!is_untracked_mod_dir("/mods/Good", &exists, &read));
}

#[test]
fn detects_unreadable_mod_info_and_ignores_non_directory_roots() {
    let fs = MemFs::new(&[("/mods/Good/mod_info.json", r#"{"installSource":"a.zip"}"#)]);
    assert!(!has_untracked_mods_in_dir(
        "/not-a-dir",
        |_p: &str| None,
        |p: &str| fs.has(p),
        |p: &str| fs.read(p),
    ));
    assert!(!has_untracked_mods_in_dir(
        "/mods",
        |_p: &str| Some(vec!["/mods/Good".to_string()]),
        |p: &str| fs.has(p),
        |p: &str| fs.read(p),
    ));
    assert!(has_untracked_mods_in_dir(
        "/mods",
        |_p: &str| Some(vec!["/mods/Good".to_string(), "/mods/Locked".to_string()]),
        |_p: &str| true,
        |p: &str| {
            if p == "/mods/Locked/mod_info.json" {
                Err("Permission denied (os error 13)".to_string())
            } else {
                fs.read(p)
            }
        },
    ));
}

#[test]
fn update_mod_id_writes_the_whole_object_back() {
    let original = r#"{"deps":[1,{"x":null}],"meta":{"n":2.5,"ok":true},"id":"old"}"#;
    let fs = MemFs::new(&[("/m/mod_info.json", original)]);
    update_mod_id_in_json_file(
        "/m/mod_info.json",
        "new",
        |p: &str| fs.has(p),
        |p: &str| fs.read(p),
        |p: &str, t: &str| fs.write(p, t),
    )
    .expect("update should succeed");
    let mut expected = object_of(original).unwrap();
    expected.insert("id".to_string(), Value::String("new".to_string()));
    assert_eq!(
        fs.files.borrow()["/m/mod_info.json"],
        serde_json::to_string_pretty(&expected).unwrap()
    );
}
