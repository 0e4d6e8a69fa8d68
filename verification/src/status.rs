//! Status documents: what the library reports about itself as JSON text.
//!
//! The documents are built and written by `serde_json`. What a document
//! holds is stated here exactly; how it is written is `serde_json`'s
//! business and goes by the name [`json_text`].

use vstd::prelude::*;

verus! {

/// A JSON document.
pub enum Json {
    Null,
    Bool(bool),
    /// A number, by the numeral that denotes it.
    Number(Seq<char>),
    Text(Seq<char>),
    /// An array: its elements in order.
    List(Seq<Json>),
    /// An object: its members by key.
    Object(Map<Seq<char>, Json>),
}

/// `serde_json::Value`, carried as it is; what it holds goes by the name
/// [`json_of`].
#[verifier::external_type_specification]
#[verifier::external_body]
pub struct ExValue(serde_json::Value);

/// `serde_json::Map`, carried as it is; what it holds goes by the name
/// [`members_of`].
#[verifier::external_type_specification]
#[verifier::external_body]
#[verifier::reject_recursive_types(K)]
#[verifier::reject_recursive_types(V)]
pub struct ExMap<K, V>(serde_json::Map<K, V>);

/// The document that a `serde_json::Value` holds.
pub uninterp spec fn json_of(value: serde_json::Value) -> Json;

/// The members that a `serde_json::Map` holds, by key.
pub uninterp spec fn members_of(object: serde_json::Map<String, serde_json::Value>) -> Map<
    Seq<char>,
    Json,
>;

/// The compact JSON text that `serde_json` writes for a document. With the
/// crate's default features an object keeps its members sorted by key, so
/// the text depends on nothing but the document.
pub uninterp spec fn json_text(document: Json) -> Seq<char>;

/// The members of an object that has none.
pub open spec fn no_entries() -> Map<Seq<char>, Json> {
    Map::empty()
}

/// `serde_json::Value::Null`: the value that holds the null document.
#[verifier::external_body]
pub(crate) fn null() -> (value: serde_json::Value)
    ensures
        json_of(value) == Json::Null,
{
    serde_json::Value::Null
}

/// `serde_json::Value::Bool`: the value that holds the given truth value.
#[verifier::external_body]
pub(crate) fn boolean(b: bool) -> (value: serde_json::Value)
    ensures
        json_of(value) == Json::Bool(b),
{
    serde_json::Value::Bool(b)
}

/// `serde_json::Value::String`: the value that holds a copy of the given
/// text.
#[verifier::external_body]
pub(crate) fn text(s: &str) -> (value: serde_json::Value)
    ensures
        json_of(value) == Json::Text(s@),
{
    serde_json::Value::String(s.to_owned())
}

/// `serde_json::Value::Object`: the value that holds an object with the
/// given members.
#[verifier::external_body]
pub(crate) fn object(members: serde_json::Map<String, serde_json::Value>) -> (value: serde_json::Value)
    ensures
        json_of(value) == Json::Object(members_of(members)),
{
    serde_json::Value::Object(members)
}

/// `serde_json::Map::new`: a map without members.
#[verifier::external_body]
pub(crate) fn no_members() -> (members: serde_json::Map<String, serde_json::Value>)
    ensures
        members_of(members) == no_entries(),
{
    serde_json::Map::new()
}

/// `serde_json::Map::insert`: afterwards the map holds the given value
/// under the given key, in place of what it held there before, and all its
/// other members as before.
#[verifier::external_body]
pub(crate) fn put(members: &mut serde_json::Map<String, serde_json::Value>, key: &str, value: serde_json::Value)
    ensures
        members_of(*final(members)) == members_of(*old(members)).insert(
            key@,
            json_of(value),
        ),
{
    members.insert(key.to_owned(), value);
}

/// `serde_json::Value`'s `to_string`: the compact JSON text of the
/// document that the value holds.
#[verifier::external_body]
pub(crate) fn render(value: &serde_json::Value) -> (written: String)
    ensures
        written@ == json_text(json_of(*value)),
{
    value.to_string()
}

/// An object whose members are all truth values: every key of `keys`,
/// each with the value `flag`.
pub open spec fn flags(keys: Seq<Seq<char>>, flag: bool) -> Map<Seq<char>, Json> {
    Map::new(|key: Seq<char>| keys.contains(key), |key: Seq<char>| Json::Bool(flag))
}

/// What the recorder can do, as it reports it.
pub open spec fn capability_keys() -> Seq<Seq<char>> {
    seq![
        "directAPI"@,
        "nativePerformance"@,
        "screenCapture"@,
        "audioCapture"@,
        "windowCapture"@,
        "realTimeStreaming"@,
        "realScreenCaptureKitAPIs"@,
        "scStreamInstances"@,
        "scStreamDelegate"@,
        "cvPixelBufferProcessing"@,
        "cmSampleBufferProcessing"@,
        "realFrameProcessing"@,
    ]
}

/// The features of the stream layer, as the recorder reports them.
pub open spec fn feature_keys() -> Seq<Seq<char>> {
    seq![
        "realSCStreamInstances"@,
        "properConfiguration"@,
        "realDelegate"@,
        "videoFrameProcessing"@,
        "audioFrameProcessing"@,
        "pixelBufferHandling"@,
        "sampleBufferHandling"@,
    ]
}

/// The recorder's status: not recording, no output path, a stream at
/// hand, the method and version of the implementation, and every
/// capability and feature switched on.
pub open spec fn recorder_status() -> Json {
    Json::Object(
        no_entries().insert("isRecording"@, Json::Bool(false)).insert(
            "outputPath"@,
            Json::Null,
        ).insert("hasStream"@, Json::Bool(true)).insert(
            "method"@,
            Json::Text("objc2-screencapturekit-phase2-real"@),
        ).insert("version"@, Json::Text("0.2.0"@)).insert(
            "capabilities"@,
            Json::Object(flags(capability_keys(), true)),
        ).insert("phase2Features"@, Json::Object(flags(feature_keys(), true))),
    )
}

/// The figures of a session that has no delegate.
pub open spec fn idle_session_status(is_recording: bool, stream_active: bool) -> Json {
    Json::Object(
        no_entries().insert("isRecording"@, Json::Bool(is_recording)).insert(
            "streamActive"@,
            Json::Bool(stream_active),
        ).insert("error"@, Json::Text("No active delegate"@)).insert(
            "method"@,
            Json::Text("real-screencapturekit-stream"@),
        ),
    )
}

pub(crate) fn all_set(keys: &Vec<&'static str>) -> (members: serde_json::Map<String, serde_json::Value>)
    ensures
        members_of(members) == flags(keys@.map_values(|key: &'static str| key@), true),
{
    let mut members = no_members();
    let ghost names = keys@.map_values(|key: &'static str| key@);
    let mut i: usize = 0;
    proof {
        assert(members_of(members) =~= flags(names.take(0), true));
    }
    while i < keys.len()
        invariant
            i <= keys.len(),
            names == keys@.map_values(|key: &'static str| key@),
            members_of(members) == flags(names.take(i as int), true),
        decreases keys.len() - i,
    {
        let ghost before = members_of(members);
        put(&mut members, keys[i], boolean(true));
        proof {
            let shorter = names.take(i as int);
            let longer = names.take(i + 1);
            assert(longer =~= shorter.push(names[i as int]));
            assert forall|key: Seq<char>| longer.contains(key) <==> (shorter.contains(key) || key
                == names[i as int]) by {
                if longer.contains(key) {
                    let at = choose|at: int| 0 <= at < longer.len() && longer[at] == key;
                    if at < i {
                        assert(shorter[at] == key);
                    }
                }
                if shorter.contains(key) {
                    let at = choose|at: int| 0 <= at < shorter.len() && shorter[at] == key;
                    assert(longer[at] == key);
                }
                if key == names[i as int] {
                    assert(longer[i as int] == key);
                }
            }
            assert(members_of(members) =~= flags(longer, true));
        }
        i = i + 1;
    }
    proof {
        assert(names.take(i as int) =~= names);
    }
    members
}

} // verus!
