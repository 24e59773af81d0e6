//! The project manifest (`package.json`): reading its `packageManager`
//! declaration and setting it, through serde_json.
use vstd::prelude::*;
use vstd::string::*;

verus! {

/// serde_json::Value, carried through opaquely: a JSON value.
#[verifier::external_type_specification]
#[verifier::external_body]
pub struct ExJsonValue(serde_json::Value);

/// serde_json::Map, the members of a JSON object; what it holds is `members`.
#[verifier::external_type_specification]
#[verifier::external_body]
#[verifier::reject_recursive_types(K)]
#[verifier::reject_recursive_types(V)]
pub struct ExJsonMap<K, V>(serde_json::Map<K, V>);

/// serde_json::Error, which the library maps to `ManifestError`.
#[verifier::external_type_specification]
#[verifier::external_body]
pub struct ExJsonError(serde_json::Error);

/// A JSON object: the members of a manifest.
pub type JsonObject = serde_json::Map<String, serde_json::Value>;

/// The members that a JSON object holds, by key.
pub uninterp spec fn members(m: JsonObject) -> Map<Seq<char>, serde_json::Value>;

/// The members of the JSON object that `text` holds, or `None` where `text`
/// is not one JSON object (or `null`).
pub uninterp spec fn parsed_object(text: Seq<char>) -> Option<Map<Seq<char>, serde_json::Value>>;

/// The JSON string value with content `s`.
pub uninterp spec fn json_string(s: Seq<char>) -> serde_json::Value;

/// Relies on serde_json::from_str, reading a `serde_json::Map<String, Value>`:
/// it succeeds exactly on the texts that hold one JSON object, and the result
/// depends on the text alone.
#[verifier::external_body]
fn parse_object(text: &str) -> (r: Result<JsonObject, serde_json::Error>)
    ensures
        match r {
            Ok(m) => parsed_object(text@) == Some(members(m)),
            Err(_) => parsed_object(text@) is None,
        },
{
    serde_json::from_str(text)
}

/// Relies on serde_json::Map::get: the value stored under `key`, if any.
#[verifier::external_body]
fn member<'a>(m: &'a JsonObject, key: &str) -> (r: Option<&'a serde_json::Value>)
    ensures
        match r {
            Some(v) => members(*m).contains_key(key@) && *v == members(*m)[key@],
            None => !members(*m).contains_key(key@),
        },
{
    m.get(key)
}

/// Relies on serde_json::Value::as_str: the content of a string value, and
/// `None` for any other value.
#[verifier::external_body]
fn string_content(v: &serde_json::Value) -> (r: Option<&str>)
    ensures
        r is Some ==> *v == json_string(r->0@),
        forall|s: Seq<char>| #[trigger] json_string(s) == *v ==> (r is Some && r->0@ == s),
{
    v.as_str()
}

/// Relies on the variant serde_json::Value::String: the string value of `s`.
#[verifier::external_body]
fn string_value(s: String) -> (r: serde_json::Value)
    ensures
        r == json_string(s@),
{
    serde_json::Value::String(s)
}

/// Relies on serde_json::Map::insert: `key` is bound to `v`, every other
/// member stays as it was.
#[verifier::external_body]
fn set_member(m: &mut JsonObject, key: String, v: serde_json::Value)
    ensures
        members(*final(m)) == members(*old(m)).insert(key@, v),
{
    m.insert(key, v);
}

/// The indented JSON text of an object with these members, or `None` where
/// serde_json refuses to write it.
pub uninterp spec fn rendered(ms: Map<Seq<char>, serde_json::Value>) -> Option<Seq<char>>;

/// Relies on serde_json::to_string_pretty: the object as indented JSON text;
/// without the `preserve_order` feature the members are written in key order,
/// so the text depends on the members alone.
#[verifier::external_body]
fn pretty_text(m: &JsonObject) -> (r: Result<String, serde_json::Error>)
    ensures
        match r {
            Ok(s) => rendered(members(*m)) == Some(s@),
            Err(_) => rendered(members(*m)) is None,
        },
{
    serde_json::to_string_pretty(m)
}

/// The key of the manifest member that declares the package manager.
pub open spec fn manager_key() -> Seq<char> {
    "packageManager"@
}

/// The string that the `packageManager` member of an object holds, if it is
/// present and a string.
pub open spec fn declared_in(ms: Map<Seq<char>, serde_json::Value>) -> Option<Seq<char>> {
    if ms.contains_key(manager_key()) && exists|s: Seq<char>|
        json_string(s) == ms[manager_key()] {
        Some(choose|s: Seq<char>| json_string(s) == ms[manager_key()])
    } else {
        None
    }
}

/// The `packageManager` declaration of a manifest text: present only where the
/// text is one JSON object whose `packageManager` member is a string.
pub open spec fn declaration(text: Seq<char>) -> Option<Seq<char>> {
    match parsed_object(text) {
        Some(ms) => declared_in(ms),
        None => None,
    }
}

/// The members of a manifest once its `packageManager` member is set to `value`.
pub open spec fn with_declaration(ms: Map<Seq<char>, serde_json::Value>, value: Seq<char>) -> Map<
    Seq<char>,
    serde_json::Value,
> {
    ms.insert(manager_key(), json_string(value))
}

/// Writing a manager into a manifest that is one JSON object touches the
/// `packageManager` member alone: the text written is serde_json's rendering
/// of the members read, where every other member keeps its key and its value,
/// no member is lost, and `packageManager` holds the string written.
pub proof fn lemma_rewrite_keeps_other_members(text: Seq<char>, value: Seq<char>)
    requires
        parsed_object(text) is Some,
    ensures
        with_declaration(parsed_object(text)->0, value).dom() == parsed_object(text)->0.dom().insert(
            manager_key(),
        ),
        with_declaration(parsed_object(text)->0, value)[manager_key()] == json_string(value),
        forall|k: Seq<char>|
            k != manager_key() && #[trigger] parsed_object(text)->0.contains_key(k)
                ==> with_declaration(parsed_object(text)->0, value)[k] == parsed_object(text)->0[k],
        rewritten(text, value) is Ok ==> rendered(with_declaration(parsed_object(text)->0, value))
            == Some(rewritten(text, value)->Ok_0),
{
    let ms = parsed_object(text)->0;
    assert(with_declaration(ms, value).dom() =~= ms.dom().insert(manager_key()));
}

/// Why a manifest could not be rewritten.
#[derive(Clone, Copy, Debug, PartialEq, Eq, Structural)]
pub enum ManifestError {
    /// There is no manifest.
    NotFound,
    /// The manifest is not one JSON object.
    Parse,
    /// The updated manifest could not be written out as JSON.
    Serialize,
}

/// The `packageManager` declaration of the manifest text `text`.
pub fn read_declaration(text: &str) -> (r: Option<String>)
    ensures
        match r {
            Some(d) => declaration(text@) == Some(d@),
            None => declaration(text@) is None,
        },
{
    let doc = match parse_object(text) {
        Ok(doc) => doc,
        Err(_) => return None,
    };
    let v = match member(&doc, "packageManager") {
        Some(v) => v,
        None => return None,
    };
    match string_content(v) {
        Some(s) => {
            proof {
                let c = choose|c: Seq<char>| json_string(c) == members(doc)[manager_key()];
                assert(json_string(c) == *v);
            }
            Some(String::from_str(s))
        },
        None => {
            assert(!exists|c: Seq<char>| json_string(c) == members(doc)[manager_key()]);
            None
        },
    }
}

/// Sets the `packageManager` member of `doc` to the string `value`, keeping
/// every other member.
pub fn set_package_manager(doc: &mut JsonObject, value: String)
    ensures
        members(*final(doc)) == with_declaration(members(*old(doc)), value@),
{
    let key = String::from_str("packageManager");
    let v = string_value(value);
    set_member(doc, key, v);
}

/// The manifest text `text` as a document whose `packageManager` member is
/// the string `value`; `Err(Parse)` exactly where `text` is not one JSON object.
pub fn updated_manifest(text: &str, value: String) -> (r: Result<JsonObject, ManifestError>)
    ensures
        match r {
            Ok(doc) => parsed_object(text@) is Some && members(doc) == with_declaration(
                parsed_object(text@)->0,
                value@,
            ),
            Err(e) => parsed_object(text@) is None && e == ManifestError::Parse,
        },
{
    let mut doc = match parse_object(text) {
        Ok(doc) => doc,
        Err(_) => return Err(ManifestError::Parse),
    };
    set_package_manager(&mut doc, value);
    Ok(doc)
}

/// The document as indented JSON text; `Err(Serialize)` where serde_json
/// refuses it.
pub fn render_manifest(doc: &JsonObject) -> (r: Result<String, ManifestError>)
    ensures
        match r {
            Ok(s) => rendered(members(*doc)) == Some(s@),
            Err(e) => rendered(members(*doc)) is None && e == ManifestError::Serialize,
        },
{
    match pretty_text(doc) {
        Ok(s) => Ok(s),
        Err(_) => Err(ManifestError::Serialize),
    }
}

/// The manifest text `text` rewritten so that its `packageManager` member is
/// the string `value`.
pub open spec fn rewritten(text: Seq<char>, value: Seq<char>) -> Result<Seq<char>, ManifestError> {
    match parsed_object(text) {
        Some(ms) => match rendered(with_declaration(ms, value)) {
            Some(out) => Ok(out),
            None => Err(ManifestError::Serialize),
        },
        None => Err(ManifestError::Parse),
    }
}

/// The manifest text `text` rewritten so that its `packageManager` member is
/// the string `value`: `Err(Parse)` where `text` is not one JSON object,
/// `Err(Serialize)` where serde_json refuses to write the result.
pub fn rewrite_manifest(text: &str, value: String) -> (r: Result<String, ManifestError>)
    ensures
        match r {
            Ok(out) => rewritten(text@, value@) == Ok::<Seq<char>, ManifestError>(out@),
            Err(e) => rewritten(text@, value@) == Err::<Seq<char>, ManifestError>(e),
        },
{
    let doc = match updated_manifest(text, value) {
        Ok(doc) => doc,
        Err(e) => return Err(e),
    };
    render_manifest(&doc)
}

} // verus!
