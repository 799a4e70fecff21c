use vstd::prelude::*;
use vstd::string::StringExecFns;

verus! {

/// Metadata of an update offered by the update source. Immutable once built.
#[derive(Debug)]
pub struct UpdateInfo {
    /// Semantic version of the offered build.
    pub version: String,
    /// Publication time, already rendered as text, when the source gives one.
    pub release_date: Option<String>,
    pub release_notes: String,
    /// Size of the artifact in bytes, when the source gives one.
    pub download_size: Option<u64>,
}

/// What serde_json writes for a JSON string holding the characters `s`,
/// quotes and escapes included.
pub uninterp spec fn json_string_of(s: Seq<char>) -> Seq<char>;

/// Characters that serde_json writes as they are inside a JSON string: all but
/// the quote, the backslash and the control characters below U+0020.
pub open spec fn plain_json_text(s: Seq<char>) -> bool {
    forall|i: int| 0 <= i < s.len() ==> #[trigger] s[i] != '"' && s[i] != '\\' && s[i] >= ' '
}

/// `s` between double quotes.
pub open spec fn quoted(s: Seq<char>) -> Seq<char> {
    seq!['"'] + s + seq!['"']
}

/// Relies on serde_json's compact rendering of `Value::String`: the text is the
/// quoted, escaped JSON literal of `s`, a function of `s` alone; characters
/// outside serde_json's escape table are copied between the quotes unchanged.
#[verifier::external_body]
fn json_quote(s: &str) -> (r: String)
    ensures
        r@ == json_string_of(s@),
        plain_json_text(s@) ==> r@ == quoted(s@),
{
    serde_json::Value::String(s.to_string()).to_string()
}

/// The JSON object handed to the host when an update is found, given the
/// already-encoded JSON strings of its fields. Keys stand in sorted order.
pub open spec fn update_document(version_json: Seq<char>, date_json: Seq<char>, body_json: Seq<char>) -> Seq<char> {
    "{\"available\":true,\"body\":"@ + body_json + ",\"date\":"@ + date_json + ",\"version\":"@
        + version_json + "}"@
}

pub open spec fn date_text(date: Option<String>) -> Seq<char> {
    match date {
        Some(d) => d@,
        None => Seq::empty(),
    }
}

impl UpdateInfo {
    /// A field-by-field copy.
    pub fn snapshot(&self) -> (r: UpdateInfo)
        ensures
            r == *self,
    {
        let release_date = match &self.release_date {
            Some(d) => Some(d.clone()),
            None => None,
        };
        UpdateInfo {
            version: self.version.clone(),
            release_date,
            release_notes: self.release_notes.clone(),
            download_size: self.download_size,
        }
    }

    /// The description of this update as a JSON object: a missing date reads
    /// as the empty string.
    pub fn to_json(&self) -> (r: String)
        ensures
            r@ == update_document(
                json_string_of(self.version@),
                json_string_of(date_text(self.release_date)),
                json_string_of(self.release_notes@),
            ),
            plain_json_text(self.version@) && plain_json_text(date_text(self.release_date))
                && plain_json_text(self.release_notes@) ==> r@ == update_document(
                quoted(self.version@),
                quoted(date_text(self.release_date)),
                quoted(self.release_notes@),
            ),
    {
        let version_json = json_quote(self.version.as_str());
        let date_json = match &self.release_date {
            Some(d) => json_quote(d.as_str()),
            None => {
                proof {
                    reveal_strlit("");
                    assert(""@ =~= Seq::<char>::empty());
                }
                json_quote("")
            },
        };
        let body_json = json_quote(self.release_notes.as_str());
        frame_update_info(version_json.as_str(), date_json.as_str(), body_json.as_str())
    }
}

/// Assembles the update description from the JSON encodings of its fields.
pub fn frame_update_info(version_json: &str, date_json: &str, body_json: &str) -> (r: String)
    ensures
        r@ == update_document(version_json@, date_json@, body_json@),
{
    let mut out = String::from_str("{\"available\":true,\"body\":");
    out.append(body_json);
    out.append(",\"date\":");
    out.append(date_json);
    out.append(",\"version\":");
    out.append(version_json);
    out.append("}");
    out
}

} // verus!
