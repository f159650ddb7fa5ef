//! Edits of a mod's `mod_info.json`: its text is parsed with `serde_json`,
//! string fields are set, and the object is written back pretty-printed.
//! The file system is reached through the functions handed in.
use vstd::prelude::*;
use crate::models::EnsureModInfoInput;
use crate::text::{concat2, concat3, owned};

verus! {

#[verifier::external_type_specification]
#[verifier::external_body]
pub struct ExJsonValue(serde_json::Value);

#[verifier::external_type_specification]
#[verifier::external_body]
#[verifier::reject_recursive_types(K)]
#[verifier::reject_recursive_types(V)]
pub struct ExJsonMap<K, V>(serde_json::Map<K, V>);

/// A JSON object as `serde_json` holds it.
pub type JsonObject = serde_json::Map<String, serde_json::Value>;

/// The fields of a JSON object as plain values: each key, with its text
/// when the value is a JSON string and `None` for any other value.
pub uninterp spec fn json_object_fields(m: JsonObject) -> Map<
    Seq<char>,
    Option<Seq<char>>,
>;

/// The text `serde_json::to_string_pretty` gives for the object `m`.
pub uninterp spec fn json_object_pretty(m: JsonObject) -> Seq<char>;

/// What `serde_json::from_str::<Value>` gives for `content`: the error's
/// text; or the object when the document is a JSON object; or `None` for any
/// other JSON document.
pub uninterp spec fn json_parse(content: Seq<char>) -> Result<Option<JsonObject>, Seq<char>>;

/// The object `serde_json::Map::insert` leaves when the JSON string `value`
/// is inserted under `key` into `m`.
pub uninterp spec fn json_inserted(m: JsonObject, key: Seq<char>, value: Seq<char>) -> JsonObject;

/// Parses `content` with `serde_json::from_str::<Value>`: the object when the
/// document is one, `None` for another JSON value, or the error's text.
#[verifier::external_body]
pub(crate) fn parse_json_object(content: &str) -> (r: Result<Option<JsonObject>, String>)
    ensures
        match r {
            Err(e) => json_parse(content@) == Err::<Option<JsonObject>, Seq<char>>(e@),
            Ok(x) => json_parse(content@) == Ok::<Option<JsonObject>, Seq<char>>(x),
        },
{
    match serde_json::from_str::<serde_json::Value>(content) {
        Ok(serde_json::Value::Object(m)) => Ok(Some(m)),
        Ok(_) => Ok(None),
        Err(e) => Err(e.to_string()),
    }
}

/// `serde_json::Map::new`: an object without fields.
#[verifier::external_body]
fn new_json_object() -> (obj: JsonObject)
    ensures
        json_object_fields(obj).is_empty(),
{
    serde_json::Map::new()
}

/// `serde_json::Map::insert` of a JSON string: the object becomes
/// `json_inserted(m, key, value)`, in which the field `key` holds `value`
/// and every other field is kept.
#[verifier::external_body]
fn insert_json_string(m: &mut JsonObject, key: String, value: String)
    ensures
        *final(m) == json_inserted(*old(m), key@, value@),
        json_object_fields(*final(m)) == json_object_fields(*old(m)).insert(key@, Some(value@)),
{
    m.insert(key, serde_json::Value::String(value));
}

/// `serde_json::Map::get`, kept when the value is a JSON string.
#[verifier::external_body]
pub(crate) fn get_json_string(m: &JsonObject, key: &str) -> (r: Option<String>)
    ensures
        match r {
            Some(s) => json_object_fields(*m).contains_key(key@) && json_object_fields(*m)[key@] == Some(s@),
            None => !json_object_fields(*m).contains_key(key@) || json_object_fields(*m)[key@] is None,
        },
{
    match m.get(key) {
        Some(serde_json::Value::String(s)) => Some(s.to_string()),
        _ => None,
    }
}

/// `serde_json::to_string_pretty` of the object `m`; writing a JSON object
/// to a string does not fail.
#[verifier::external_body]
fn json_object_to_pretty_string(m: &JsonObject) -> (r: String)
    ensures
        r@ == json_object_pretty(*m),
{
    match serde_json::to_string_pretty(m) {
        Ok(s) => s,
        Err(_) => String::new(),
    }
}

pub open spec fn invalid_json_object_message() -> Seq<char> {
    "mod_info.json is not a valid JSON object."@
}

/// The error of an edit of a document that is not a JSON object.
pub fn invalid_json_object_error() -> (r: String)
    ensures
        r@ == invalid_json_object_message(),
{
    owned("mod_info.json is not a valid JSON object.")
}

/// Sets the field `id` of the object to `new_mod_id`; a document that is not
/// an object is refused and left as it is.
pub fn set_mod_id_field(
    json_value: &mut Option<JsonObject>,
    new_mod_id: &str,
) -> (r: Result<(), String>)
    ensures
        match *old(json_value) {
            None => *final(json_value) == *old(json_value) && (r matches Err(e) && e@
                == invalid_json_object_message()),
            Some(m) => r is Ok && *final(json_value) == Some(json_inserted(m, "id"@, new_mod_id@))
                && json_object_fields(json_inserted(m, "id"@, new_mod_id@)) == json_object_fields(m).insert(
                "id"@,
                Some(new_mod_id@),
            ),
        },
{
    match json_value {
        Some(m) => {
            insert_json_string(m, owned("id"), owned(new_mod_id));
            Ok(())
        },
        None => Err(invalid_json_object_error()),
    }
}

/// The fields of a `mod_info.json` object after `input` is written into it:
/// `modId`, `fileId` and `version` when given (not empty), and always
/// `installSource`.
pub open spec fn fields_with_input(
    fields: Map<Seq<char>, Option<Seq<char>>>,
    input: EnsureModInfoInput,
) -> Map<Seq<char>, Option<Seq<char>>> {
    let f1 = if input.mod_id@.len() > 0 {
        fields.insert("modId"@, Some(input.mod_id@))
    } else {
        fields
    };
    let f2 = if input.file_id@.len() > 0 {
        f1.insert("fileId"@, Some(input.file_id@))
    } else {
        f1
    };
    let f3 = if input.version@.len() > 0 {
        f2.insert("version"@, Some(input.version@))
    } else {
        f2
    };
    f3.insert("installSource"@, Some(input.install_source@))
}

/// The object after `input` is written into `m`: `modId`, `fileId` and
/// `version` inserted in that order when given (not empty), then
/// `installSource`.
pub open spec fn object_with_input(m: JsonObject, input: EnsureModInfoInput) -> JsonObject {
    let m1 = if input.mod_id@.len() > 0 {
        json_inserted(m, "modId"@, input.mod_id@)
    } else {
        m
    };
    let m2 = if input.file_id@.len() > 0 {
        json_inserted(m1, "fileId"@, input.file_id@)
    } else {
        m1
    };
    let m3 = if input.version@.len() > 0 {
        json_inserted(m2, "version"@, input.version@)
    } else {
        m2
    };
    json_inserted(m3, "installSource"@, input.install_source@)
}

/// Writes `input` into the object (see `fields_with_input`); a document that
/// is not an object is refused and left as it is.
pub fn apply_mod_info_input(
    json_value: &mut Option<JsonObject>,
    input: &EnsureModInfoInput,
) -> (r: Result<(), String>)
    ensures
        match *old(json_value) {
            None => *final(json_value) == *old(json_value) && (r matches Err(e) && e@
                == invalid_json_object_message()),
            Some(m) => r is Ok && *final(json_value) == Some(object_with_input(m, *input))
                && json_object_fields(object_with_input(m, *input)) == fields_with_input(
                json_object_fields(m),
                *input,
            ),
        },
{
    match json_value {
        Some(m) => {
            if input.mod_id.unicode_len() > 0 {
                insert_json_string(m, owned("modId"), owned(input.mod_id.as_str()));
            }
            if input.file_id.unicode_len() > 0 {
                insert_json_string(m, owned("fileId"), owned(input.file_id.as_str()));
            }
            if input.version.unicode_len() > 0 {
                insert_json_string(m, owned("version"), owned(input.version.as_str()));
            }
            insert_json_string(m, owned("installSource"), owned(input.install_source.as_str()));
            Ok(())
        },
        None => Err(invalid_json_object_error()),
    }
}

pub open spec fn mod_info_not_found_message(path: Seq<char>) -> Seq<char> {
    "mod_info.json not found for path '"@ + path + "'."@
}

/// What setting the id in the `mod_info.json` at `path` gives once it is
/// known whether the file exists: a missing file, an unreadable one, text
/// that is not JSON and a document that is not an object are each refused
/// with their message; otherwise the object with `id` set is written back
/// pretty-printed, and a failed write is refused with its message.
pub open spec fn update_id_in_file_outcome<R, W>(
    path: &str,
    new_mod_id: Seq<char>,
    exists: bool,
    read_to_string: R,
    write_file: W,
    r: Result<(), String>,
) -> bool
    where
        R: Fn(&str) -> Result<String, String>,
        W: Fn(&str, &str) -> Result<(), String>,
{
    if !exists {
        r matches Err(m) && m@ == mod_info_not_found_message(path@)
    } else {
        exists|got: Result<String, String>|
            #![trigger call_ensures(read_to_string, (path,), got)]
            call_ensures(read_to_string, (path,), got) && match got {
                Err(e) => (r matches Err(m) && m@ == "Failed to read mod_info.json: "@ + e@),
                Ok(content) => match json_parse(content@) {
                    Err(pe) => (r matches Err(m) && m@ == "Failed to parse mod_info.json: "@ + pe),
                    Ok(None) => (r matches Err(m) && m@ == invalid_json_object_message()),
                    Ok(Some(parsed)) => exists|text: &str, w: Result<(), String>|
                        #![trigger call_ensures(write_file, (path, text), w)]
                        text@ == json_object_pretty(json_inserted(parsed, "id"@, new_mod_id))
                            && call_ensures(write_file, (path, text), w) && match w {
                            Ok(()) => r is Ok,
                            Err(e) => (r matches Err(m) && m@ == "Failed to write updated mod_info.json: "@
                                + e@),
                        },
                },
            }
    }
}

/// Sets the field `id` of the `mod_info.json` at `mod_info_path` to
/// `new_mod_id` (see `update_id_in_file_outcome`).
pub fn update_mod_id_in_json_file<E, R, W>(
    mod_info_path: &str,
    new_mod_id: &str,
    path_exists: E,
    read_to_string: R,
    write_file: W,
) -> (r: Result<(), String>)
    where
        E: Fn(&str) -> bool,
        R: Fn(&str) -> Result<String, String>,
        W: Fn(&str, &str) -> Result<(), String>,
    requires
        call_requires(path_exists, (mod_info_path,)),
        call_requires(read_to_string, (mod_info_path,)),
        forall|t: &str| call_requires(write_file, (mod_info_path, t)),
    ensures
        exists|ex: bool|
            #![trigger call_ensures(path_exists, (mod_info_path,), ex)]
            call_ensures(path_exists, (mod_info_path,), ex) && update_id_in_file_outcome(
                mod_info_path,
                new_mod_id@,
                ex,
                read_to_string,
                write_file,
                r,
            ),
{
    let ex = path_exists(mod_info_path);
    assert(call_ensures(path_exists, (mod_info_path,), ex));
    if !ex {
        return Err(concat3("mod_info.json not found for path '", mod_info_path, "'."));
    }
    let got = read_to_string(mod_info_path);
    assert(call_ensures(read_to_string, (mod_info_path,), got));
    let content = match got {
        Err(e) => {
            return Err(concat2("Failed to read mod_info.json: ", e.as_str()));
        },
        Ok(c) => c,
    };
    let mut json_value = match parse_json_object(content.as_str()) {
        Err(e) => {
            return Err(concat2("Failed to parse mod_info.json: ", e.as_str()));
        },
        Ok(v) => v,
    };
    let ghost parsed = json_value;
    match set_mod_id_field(&mut json_value, new_mod_id) {
        Err(e) => {
            return Err(e);
        },
        Ok(()) => {},
    }
    let obj = match json_value {
        Some(o) => o,
        None => {
            return Err(invalid_json_object_error());
        },
    };
    let new_content = json_object_to_pretty_string(&obj);
    let text = new_content.as_str();
    let w = write_file(mod_info_path, text);
    assert(call_ensures(write_file, (mod_info_path, text), w));
    assert(obj == json_inserted(parsed.unwrap(), "id"@, new_mod_id@));
    match w {
        Ok(()) => Ok(()),
        Err(e) => Err(concat2("Failed to write updated mod_info.json: ", e.as_str())),
    }
}

/// The object `obj` was written pretty-printed to `path`, and `r` is what
/// the write gave.
pub open spec fn wrote_object<W>(path: &str, obj: JsonObject, write_file: W, r: Result<(), String>) -> bool
    where
        W: Fn(&str, &str) -> Result<(), String>,
{
    exists|text: &str|
        #![trigger call_ensures(write_file, (path, text), r)]
        text@ == json_object_pretty(obj) && call_ensures(write_file, (path, text), r)
}

/// What writing `input` into the `mod_info.json` at `path` gives once it is
/// known whether the file exists: a missing file starts from an object
/// without fields; an unreadable file, text that is not JSON and a document that is
/// not an object are refused with their message; the object with `input`
/// written into it is then written back pretty-printed.
pub open spec fn ensure_info_file_outcome<R, W>(
    path: &str,
    input: EnsureModInfoInput,
    exists: bool,
    read_to_string: R,
    write_file: W,
    r: Result<(), String>,
) -> bool
    where
        R: Fn(&str) -> Result<String, String>,
        W: Fn(&str, &str) -> Result<(), String>,
{
    if !exists {
        exists|empty: JsonObject|
            #![trigger object_with_input(empty, input)]
            json_object_fields(empty).is_empty() && wrote_object(
                path,
                object_with_input(empty, input),
                write_file,
                r,
            )
    } else {
        exists|got: Result<String, String>|
            #![trigger call_ensures(read_to_string, (path,), got)]
            call_ensures(read_to_string, (path,), got) && match got {
                Err(e) => (r matches Err(m) && m@ == e@),
                Ok(content) => match json_parse(content@) {
                    Err(pe) => (r matches Err(m) && m@ == pe),
                    Ok(None) => (r matches Err(m) && m@ == invalid_json_object_message()),
                    Ok(Some(parsed)) => wrote_object(path, object_with_input(parsed, input), write_file, r),
                },
            }
    }
}

/// Writes the given ids, version and install source into the
/// `mod_info.json` at `mod_info_path`, creating it when missing (see
/// `ensure_info_file_outcome`).
pub fn ensure_mod_info_file<E, R, W>(
    mod_info_path: &str,
    input: &EnsureModInfoInput,
    path_exists: E,
    read_to_string: R,
    write_file: W,
) -> (r: Result<(), String>)
    where
        E: Fn(&str) -> bool,
        R: Fn(&str) -> Result<String, String>,
        W: Fn(&str, &str) -> Result<(), String>,
    requires
        call_requires(path_exists, (mod_info_path,)),
        call_requires(read_to_string, (mod_info_path,)),
        forall|t: &str| call_requires(write_file, (mod_info_path, t)),
    ensures
        exists|ex: bool|
            #![trigger call_ensures(path_exists, (mod_info_path,), ex)]
            call_ensures(path_exists, (mod_info_path,), ex) && ensure_info_file_outcome(
                mod_info_path,
                *input,
                ex,
                read_to_string,
                write_file,
                r,
            ),
{
    let ex = path_exists(mod_info_path);
    assert(call_ensures(path_exists, (mod_info_path,), ex));
    let mut json_value = if ex {
        let got = read_to_string(mod_info_path);
        assert(call_ensures(read_to_string, (mod_info_path,), got));
        let content = match got {
            Err(e) => {
                return Err(e);
            },
            Ok(c) => c,
        };
        match parse_json_object(content.as_str()) {
            Err(e) => {
                return Err(e);
            },
            Ok(v) => v,
        }
    } else {
        Some(new_json_object())
    };
    let ghost start = json_value;
    match apply_mod_info_input(&mut json_value, input) {
        Err(e) => {
            return Err(e);
        },
        Ok(()) => {},
    }
    let obj = match json_value {
        Some(o) => o,
        None => {
            return Err(invalid_json_object_error());
        },
    };
    let new_content = json_object_to_pretty_string(&obj);
    let text = new_content.as_str();
    let w = write_file(mod_info_path, text);
    assert(call_ensures(write_file, (mod_info_path, text), w));
    proof {
        if !ex {
            assert(json_object_fields(start.unwrap()) =~= Map::<Seq<char>, Option<Seq<char>>>::empty());
        }
    }
    w
}

} // verus!
