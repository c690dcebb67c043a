use vstd::prelude::*;

verus! {

#[verifier::external_type_specification]
#[verifier::external_body]
pub struct ExJsonValue(json::JsonValue);

/// The string-valued members of a JSON value, by member name: the members of
/// an object whose value is a JSON string; empty for anything but an object.
pub uninterp spec fn text_members(v: json::JsonValue) -> Map<Seq<char>, Seq<char>>;

/// Relies on json's `Index<&str> for JsonValue` (the member of that name of an
/// object, `Null` otherwise) and on `JsonValue::as_str` (the text of a string
/// value, `None` for any other kind).
#[verifier::external_body]
fn member_text(v: &json::JsonValue, key: &str) -> (r: Option<String>)
    ensures
        r is Some <==> text_members(*v).contains_key(key@),
        r matches Some(s) ==> s@ == text_members(*v)[key@],
{
    v[key].as_str().map(String::from)
}

/// The member of a release object that names its tag.
pub open spec fn tag_key() -> Seq<char> {
    "tag_name"@
}

/// Release metadata taken from a registry's release object.
#[derive(Clone, Debug, PartialEq, Eq)]
pub struct ReleaseInfo {
    version: String,
}

impl ReleaseInfo {
    /// The release's version: the tag it was published under.
    pub closed spec fn spec_version(&self) -> Seq<char> {
        self.version@
    }

    /// Builds the release described by a parsed release object; `None` when
    /// the value has no string member `tag_name`.
    pub fn new_from_json_object(value: &json::JsonValue) -> (r: Option<ReleaseInfo>)
        ensures
            r is Some <==> text_members(*value).contains_key(tag_key()),
            r matches Some(info) ==> info.spec_version() == text_members(*value)[tag_key()],
    {
        match member_text(value, "tag_name") {
            Some(tag) => Some(ReleaseInfo { version: tag }),
            None => None,
        }
    }

    /// The release's version string.
    pub fn version(&self) -> (r: &str)
        ensures
            r@ == self.spec_version(),
    {
        self.version.as_str()
    }
}

} // verus!
