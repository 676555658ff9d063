//! The firmware identity record, its default values and its JSON form.
//!
//! On disk the record is one JSON object with five members, all of them
//! strings:
//!
//! ```json
//! {"product_name":"..","manufacturer":"..","version":"..","sn":"..","sku":".."}
//! ```
//!
//! Writing puts the members in this order, with nothing between them. Reading
//! accepts them in any order, with any spacing, and passes over members with
//! other names.

use crate::error::ConfigError;
use crate::json::{
    json_object, json_string, members_view, read_object, write_string, Member, MemberView,
};
use vstd::prelude::*;

verus! {

/// The identity that a machine presents: five free-form text fields.
///
/// No field is optional and none is validated.
#[derive(Debug)]
pub struct Config {
    pub product_name: String,
    pub manufacturer: String,
    pub version: String,
    pub sn: String,
    pub sku: String,
}

/// A [`Config`] as mathematics: each field as its sequence of characters.
pub struct ConfigView {
    pub product_name: Seq<char>,
    pub manufacturer: Seq<char>,
    pub version: Seq<char>,
    pub sn: Seq<char>,
    pub sku: Seq<char>,
}

impl View for Config {
    type V = ConfigView;

    open spec fn view(&self) -> ConfigView {
        ConfigView {
            product_name: self.product_name@,
            manufacturer: self.manufacturer@,
            version: self.version@,
            sn: self.sn@,
            sku: self.sku@,
        }
    }
}

impl Config {
    /// The record that a first run starts from.
    pub open spec fn default_view() -> ConfigView {
        ConfigView {
            product_name: "KPL-W0X"@,
            manufacturer: "HONOR"@,
            version: "1.19"@,
            sn: "HPRPM18C25001070"@,
            sku: "C233"@,
        }
    }
}

impl Clone for Config {
    fn clone(&self) -> (copy: Config)
        ensures
            copy@ == self@,
    {
        Config {
            product_name: self.product_name.clone(),
            manufacturer: self.manufacturer.clone(),
            version: self.version.clone(),
            sn: self.sn.clone(),
            sku: self.sku.clone(),
        }
    }
}

impl Default for Config {
    fn default() -> (record: Config)
        ensures
            record@ == Config::default_view(),
    {
        Config {
            manufacturer: "HONOR".to_string(),
            product_name: "KPL-W0X".to_string(),
            version: "1.19".to_string(),
            sn: "HPRPM18C25001070".to_string(),
            sku: "C233".to_string(),
        }
    }
}

/// The first member named `key`, if there is one.
pub open spec fn find_member(members: Seq<MemberView>, key: Seq<char>) -> Option<MemberView>
    decreases members.len(),
{
    if members.len() == 0 {
        None
    } else if members[0].0 == key {
        Some(members[0])
    } else {
        find_member(members.drop_first(), key)
    }
}

/// The text of the field named `key`: there must be a member of that name, and
/// its value must be a string.
pub open spec fn field_text(members: Seq<MemberView>, key: Seq<char>) -> Result<
    Seq<char>,
    ConfigError,
> {
    match find_member(members, key) {
        Some((_, Some(text))) => Ok(text),
        _ => Err(ConfigError::Parse),
    }
}

/// The record that a JSON object denotes: all five fields or none.
pub open spec fn record_of_members(members: Seq<MemberView>) -> Result<ConfigView, ConfigError> {
    match (
        field_text(members, "product_name"@),
        field_text(members, "manufacturer"@),
        field_text(members, "version"@),
        field_text(members, "sn"@),
        field_text(members, "sku"@),
    ) {
        (Ok(product_name), Ok(manufacturer), Ok(version), Ok(sn), Ok(sku)) => Ok(
            ConfigView { product_name, manufacturer, version, sn, sku },
        ),
        _ => Err(ConfigError::Parse),
    }
}

/// The record that a text denotes.
pub open spec fn record_of_text(text: Seq<char>) -> Result<ConfigView, ConfigError> {
    match json_object(text) {
        Some(members) => record_of_members(members),
        None => Err(ConfigError::Parse),
    }
}

/// The text of a JSON object with the five fields as its members, given each
/// field's value as it is written in JSON: quotes, escapes and all.
pub open spec fn framed(
    product_name: Seq<char>,
    manufacturer: Seq<char>,
    version: Seq<char>,
    sn: Seq<char>,
    sku: Seq<char>,
) -> Seq<char> {
    "{\"product_name\":"@ + product_name + ",\"manufacturer\":"@ + manufacturer
        + ",\"version\":"@ + version + ",\"sn\":"@ + sn + ",\"sku\":"@ + sku + "}"@
}

/// The text that stands for a record.
pub open spec fn text_of_record(record: ConfigView) -> Seq<char> {
    framed(
        json_string(record.product_name),
        json_string(record.manufacturer),
        json_string(record.version),
        json_string(record.sn),
        json_string(record.sku),
    )
}

/// The record as the members of a JSON object: the five fields under their
/// names, each a string.
pub open spec fn members_of_record(record: ConfigView) -> Seq<MemberView> {
    seq![
        ("product_name"@, Some(record.product_name)),
        ("manufacturer"@, Some(record.manufacturer)),
        ("version"@, Some(record.version)),
        ("sn"@, Some(record.sn)),
        ("sku"@, Some(record.sku)),
    ]
}

/// The members hold the record: each of its five fields is among them, in
/// whatever place, and a member that has the name of a field is that field.
/// Members with other names may stand among them.
pub open spec fn holds_record(members: Seq<MemberView>, record: ConfigView) -> bool {
    let fields = members_of_record(record);
    &&& forall|i: int| 0 <= i < fields.len() ==> members.contains(#[trigger] fields[i])
    &&& forall|j: int, i: int|
        0 <= j < members.len() && 0 <= i < fields.len() && (#[trigger] members[j]).0
            == (#[trigger] fields[i]).0 ==> members[j] == fields[i]
}

/// A record is read back from members that hold it, in whatever order they
/// stand and whatever else stands among them.
pub proof fn law_record_is_read_back_from_its_members(record: ConfigView, members: Seq<MemberView>)
    requires
        holds_record(members, record),
    ensures
        record_of_members(members) == Ok::<ConfigView, ConfigError>(record),
{
    let fields = members_of_record(record);
    assert forall|i: int| 0 <= i < fields.len() implies find_member(members, fields[i].0) == Some(
        #[trigger] fields[i],
    ) by {
        assert(members.contains(fields[i]));
        assert forall|j: int| 0 <= j < members.len() && (#[trigger] members[j]).0
            == fields[i].0 implies members[j] == fields[i] by {
            assert(members[j].0 == fields[i].0);
        }
        lemma_find_the_only_one(members, fields[i]);
    }
    assert(find_member(members, fields[0].0) == Some(fields[0]));
    assert(find_member(members, fields[1].0) == Some(fields[1]));
    assert(find_member(members, fields[2].0) == Some(fields[2]));
    assert(find_member(members, fields[3].0) == Some(fields[3]));
    assert(find_member(members, fields[4].0) == Some(fields[4]));
}

/// A member that is among the members, and is what every member of its name
/// is, is the one that is found under that name.
proof fn lemma_find_the_only_one(members: Seq<MemberView>, member: MemberView)
    requires
        members.contains(member),
        forall|j: int|
            0 <= j < members.len() && (#[trigger] members[j]).0 == member.0 ==> members[j]
                == member,
    ensures
        find_member(members, member.0) == Some(member),
    decreases members.len(),
{
    if members[0].0 != member.0 {
        let rest = members.drop_first();
        let at = choose|i: int| 0 <= i < members.len() && members[i] == member;
        assert(rest[at - 1] == member);
        assert forall|j: int| 0 <= j < rest.len() && (#[trigger] rest[j]).0
            == member.0 implies rest[j] == member by {
            assert(rest[j] == members[j + 1]);
        }
        lemma_find_the_only_one(rest, member);
    }
}

/// Looks a field up by name.
fn find_field(members: &Vec<Member>, key: &str) -> (found: Result<String, ConfigError>)
    ensures
        match found {
            Ok(text) => field_text(members_view(members@), key@) == Ok::<Seq<char>, ConfigError>(
                text@,
            ),
            Err(error) => field_text(members_view(members@), key@) == Err::<
                Seq<char>,
                ConfigError,
            >(error),
        },
{
    let wanted = key.to_string();
    let ghost all = members_view(members@);
    let mut i: usize = 0;
    assert(all.subrange(0, all.len() as int) == all);
    while i < members.len()
        invariant
            i <= members.len(),
            wanted@ == key@,
            all == members_view(members@),
            find_member(all, key@) == find_member(all.subrange(i as int, all.len() as int), key@),
        decreases members.len() - i,
    {
        let ghost rest = all.subrange(i as int, all.len() as int);
        assert(rest[0] == members@[i as int]@);
        assert(rest.drop_first() == all.subrange(i + 1, all.len() as int));
        if members[i].key == wanted {
            return match &members[i].text {
                Some(text) => Ok(text.clone()),
                None => Err(ConfigError::Parse),
            };
        }
        i += 1;
    }
    Err(ConfigError::Parse)
}

impl Config {
    /// Picks the record out of the members of a JSON object.
    ///
    /// Each of the five fields must be there as a string. Members with other
    /// names are passed over; of two members with one name the first counts.
    pub fn from_members(members: &Vec<Member>) -> (record: Result<Config, ConfigError>)
        ensures
            match record {
                Ok(record) => record_of_members(members_view(members@)) == Ok::<
                    ConfigView,
                    ConfigError,
                >(record@),
                Err(error) => record_of_members(members_view(members@)) == Err::<
                    ConfigView,
                    ConfigError,
                >(error),
            },
    {
        let product_name = find_field(members, "product_name");
        let manufacturer = find_field(members, "manufacturer");
        let version = find_field(members, "version");
        let sn = find_field(members, "sn");
        let sku = find_field(members, "sku");
        match (product_name, manufacturer, version, sn, sku) {
            (Ok(product_name), Ok(manufacturer), Ok(version), Ok(sn), Ok(sku)) => Ok(
                Config { product_name, manufacturer, version, sn, sku },
            ),
            _ => Err(ConfigError::Parse),
        }
    }

    /// Reads a record from its JSON text.
    ///
    /// Fails with [`ConfigError::Parse`] where the text is not one JSON object
    /// or the object lacks a field or holds one that is not a string.
    ///
    /// The text is read as a whole before the fields are picked, which shows
    /// in two corners. Where a name stands twice in the object, the later
    /// value counts and the earlier is forgotten, whatever it was. And a
    /// member that is passed over must still be JSON that can be held: a
    /// number too large for any number type fails the whole text.
    pub fn from_json(text: &str) -> (record: Result<Config, ConfigError>)
        ensures
            match record {
                Ok(record) => record_of_text(text@) == Ok::<ConfigView, ConfigError>(record@),
                Err(error) => record_of_text(text@) == Err::<ConfigView, ConfigError>(error),
            },
    {
        match read_object(text) {
            Ok(members) => Config::from_members(&members),
            Err(_) => Err(ConfigError::Parse),
        }
    }

    /// Puts the five fields together as the members of one JSON object, given
    /// each field's value as it is written in JSON.
    pub fn frame(product_name: &str, manufacturer: &str, version: &str, sn: &str, sku: &str) -> (text:
        String)
        ensures
            text@ == framed(product_name@, manufacturer@, version@, sn@, sku@),
    {
        let mut text = "{\"product_name\":".to_string();
        text.append(product_name);
        text.append(",\"manufacturer\":");
        text.append(manufacturer);
        text.append(",\"version\":");
        text.append(version);
        text.append(",\"sn\":");
        text.append(sn);
        text.append(",\"sku\":");
        text.append(sku);
        text.append("}");
        text
    }

    /// Writes the record as JSON text: one object, the five fields in the
    /// order of their declaration, nothing between the members.
    pub fn to_json(&self) -> (text: String)
        ensures
            text@ == text_of_record(self@),
    {
        let product_name = Config::literal(self.product_name.as_str());
        let manufacturer = Config::literal(self.manufacturer.as_str());
        let version = Config::literal(self.version.as_str());
        let sn = Config::literal(self.sn.as_str());
        let sku = Config::literal(self.sku.as_str());
        Config::frame(
            product_name.as_str(),
            manufacturer.as_str(),
            version.as_str(),
            sn.as_str(),
            sku.as_str(),
        )
    }

    /// One field's value as a JSON string literal.
    fn literal(text: &str) -> (literal: String)
        ensures
            literal@ == json_string(text@),
    {
        match write_string(text) {
            Ok(literal) => literal,
            Err(_) => unreached(),
        }
    }
}

} // verus!
