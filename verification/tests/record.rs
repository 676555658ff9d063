use firmware_config::json::Member;
use firmware_config::{Config, ConfigError};

fn record(product_name: &str, manufacturer: &str, version: &str, sn: &str, sku: &str) -> Config {
    Config {
        product_name: product_name.to_string(),
        manufacturer: manufacturer.to_string(),
        version: version.to_string(),
        sn: sn.to_string(),
        sku: sku.to_string(),
    }
}

fn fields(record: &Config) -> [&str; 5] {
    [
        record.product_name.as_str(),
        record.manufacturer.as_str(),
        record.version.as_str(),
        record.sn.as_str(),
        record.sku.as_str(),
    ]
}

fn member(key: &str, text: Option<&str>) -> Member {
    Member { key: key.to_string(), text: text.map(|text| text.to_string()) }
}

#[test]
fn default_record_has_the_literal_values() {
    let record = Config::default();
    assert_eq!(record.product_name, "KPL-W0X");
    assert_eq!(record.manufacturer, "HONOR");
    assert_eq!(record.version, "1.19");
    assert_eq!(record.sn, "HPRPM18C25001070");
    assert_eq!(record.sku, "C233");
}

#[test]
fn clone_copies_every_field() {
    let source = record("a", "b", "c", "d", "e");
    let copy = source.clone();
    assert_eq!(fields(&copy), ["a", "b", "c", "d", "e"]);
    assert_eq!(fields(&source), fields(&copy));
}

#[test]
fn default_record_is_written_as_one_compact_object() {
    let text = Config::default().to_json();
    assert_eq!(
        text,
        "{\"product_name\":\"KPL-W0X\",\"manufacturer\":\"HONOR\",\"version\":\"1.19\",\
         \"sn\":\"HPRPM18C25001070\",\"sku\":\"C233\"}"
    );
}

#[test]
fn to_json_escapes_what_json_cannot_hold_as_it_is() {
    let text = record("say \"hi\"", "back\\slash", "line\nbreak", "tab\there", "bell\u{7}")
        .to_json();
    assert_eq!(
        text,
        "{\"product_name\":\"say \\\"hi\\\"\",\"manufacturer\":\"back\\\\slash\",\
         \"version\":\"line\\nbreak\",\"sn\":\"tab\\there\",\"sku\":\"bell\\u0007\"}"
    );
}

#[test]
fn to_json_keeps_text_beyond_ascii() {
    let text = record("Ünïcödé", "华为", "", "🦀", "/").to_json();
    assert_eq!(
        text,
        "{\"product_name\":\"Ünïcödé\",\"manufacturer\":\"华为\",\"version\":\"\",\
         \"sn\":\"🦀\",\"sku\":\"/\"}"
    );
}

#[test]
fn to_json_agrees_with_the_json_layer_on_every_field() {
    let written = record("p\"n", "m\\f", "v\u{1}", "s n", "s/k").to_json();
    let read: serde_json::Value = serde_json::from_str(&written).unwrap();
    assert_eq!(read["product_name"], serde_json::Value::String("p\"n".to_string()));
    assert_eq!(read["manufacturer"], serde_json::Value::String("m\\f".to_string()));
    assert_eq!(read["version"], serde_json::Value::String("v\u{1}".to_string()));
    assert_eq!(read["sn"], serde_json::Value::String("s n".to_string()));
    assert_eq!(read["sku"], serde_json::Value::String("s/k".to_string()));
    assert_eq!(read.as_object().unwrap().len(), 5);
}

#[test]
fn from_json_reads_the_documented_shape() {
    let read = Config::from_json(
        "{\n  \"product_name\": \"P\",\n  \"manufacturer\": \"M\",\n  \"version\": \"V\",\n  \
         \"sn\": \"S\",\n  \"sku\": \"K\"\n}",
    )
    .unwrap();
    assert_eq!(fields(&read), ["P", "M", "V", "S", "K"]);
}

#[test]
fn from_json_reads_members_in_any_order() {
    let read = Config::from_json(
        "{\"sku\":\"K\",\"sn\":\"S\",\"version\":\"V\",\"manufacturer\":\"M\",\"product_name\":\"P\"}",
    )
    .unwrap();
    assert_eq!(fields(&read), ["P", "M", "V", "S", "K"]);
}

#[test]
fn from_json_undoes_escapes() {
    let read = Config::from_json(
        "{\"product_name\":\"a\\\"b\",\"manufacturer\":\"c\\\\d\",\"version\":\"e\\nf\",\
         \"sn\":\"\\u0041\",\"sku\":\"\\u00e9\"}",
    )
    .unwrap();
    assert_eq!(fields(&read), ["a\"b", "c\\d", "e\nf", "A", "é"]);
}

#[test]
fn from_json_passes_over_members_with_other_names() {
    let read = Config::from_json(
        "{\"product_name\":\"P\",\"extra\":[1,{\"sn\":\"no\"}],\"manufacturer\":\"M\",\
         \"version\":\"V\",\"sn\":\"S\",\"sku\":\"K\",\"Sku\":7,\"note\":null}",
    )
    .unwrap();
    assert_eq!(fields(&read), ["P", "M", "V", "S", "K"]);
}

#[test]
fn from_json_fails_where_a_field_is_missing() {
    let all = [
        ("product_name", "\"product_name\":\"P\""),
        ("manufacturer", "\"manufacturer\":\"M\""),
        ("version", "\"version\":\"V\""),
        ("sn", "\"sn\":\"S\""),
        ("sku", "\"sku\":\"K\""),
    ];
    for (missing, _) in all.iter() {
        let members: Vec<&str> =
            all.iter().filter(|(key, _)| key != missing).map(|(_, member)| *member).collect();
        let text = format!("{{{}}}", members.join(","));
        assert_eq!(Config::from_json(&text).err(), Some(ConfigError::Parse), "{}", text);
    }
    assert_eq!(Config::from_json("{}").err(), Some(ConfigError::Parse));
}

#[test]
fn from_json_fails_where_a_field_is_not_a_string() {
    for value in ["7", "1.5", "true", "null", "[\"S\"]", "{\"sn\":\"S\"}"] {
        let text = format!(
            "{{\"product_name\":\"P\",\"manufacturer\":\"M\",\"version\":\"V\",\"sn\":{},\"sku\":\"K\"}}",
            value
        );
        assert_eq!(Config::from_json(&text).err(), Some(ConfigError::Parse), "{}", text);
    }
}

#[test]
fn from_json_takes_field_names_as_they_are_spelled() {
    let text = "{\"Product_Name\":\"P\",\"manufacturer\":\"M\",\"version\":\"V\",\"sn\":\"S\",\"sku\":\"K\"}";
    assert_eq!(Config::from_json(text).err(), Some(ConfigError::Parse));
}

#[test]
fn from_json_fails_on_text_that_is_not_json() {
    for text in [
        "",
        " ",
        "not json at all",
        "{",
        "{\"product_name\":\"P\"",
        "{product_name:\"P\"}",
        "{'sn':'S'}",
        "KPL-W0X",
    ] {
        assert_eq!(Config::from_json(text).err(), Some(ConfigError::Parse), "{:?}", text);
    }
}

#[test]
fn from_json_fails_on_json_that_is_not_one_object() {
    let object =
        "{\"product_name\":\"P\",\"manufacturer\":\"M\",\"version\":\"V\",\"sn\":\"S\",\"sku\":\"K\"}";
    assert!(Config::from_json(object).is_ok());
    for text in [
        "null".to_string(),
        "42".to_string(),
        "\"text\"".to_string(),
        "[\"P\",\"M\",\"V\",\"S\",\"K\"]".to_string(),
        format!("[{}]", object),
        format!("{} {}", object, object),
        format!("{}x", object),
    ] {
        assert_eq!(Config::from_json(&text).err(), Some(ConfigError::Parse), "{:?}", text);
    }
}

#[test]
fn record_is_read_back_from_what_was_written() {
    let records = [
        Config::default(),
        record("", "", "", "", ""),
        record("a", "b", "c", "d", "e"),
        record("say \"hi\"", "back\\slash", "line\nbreak\r\n", "tab\there", "\u{0}\u{1f}\u{7f}"),
        record("Ünïcödé", "华为", "🦀", "{\"sn\":\"x\"}", "  spaced  "),
        record("sku", "sn", "version", "manufacturer", "product_name"),
    ];
    for source in records.iter() {
        let text = source.to_json();
        let read = Config::from_json(&text).unwrap();
        assert_eq!(fields(&read), fields(source), "{}", text);
    }
}

#[test]
fn from_members_reads_the_five_fields() {
    let members = vec![
        member("sku", Some("K")),
        member("other", None),
        member("sn", Some("S")),
        member("version", Some("V")),
        member("manufacturer", Some("M")),
        member("more", Some("x")),
        member("product_name", Some("P")),
    ];
    let read = Config::from_members(&members).unwrap();
    assert_eq!(fields(&read), ["P", "M", "V", "S", "K"]);
}

#[test]
fn from_members_takes_the_first_of_two_members_with_one_name() {
    let mut members = vec![
        member("product_name", Some("P")),
        member("manufacturer", Some("M")),
        member("version", Some("V")),
        member("sn", Some("first")),
        member("sku", Some("K")),
        member("sn", Some("second")),
    ];
    let read = Config::from_members(&members).unwrap();
    assert_eq!(read.sn, "first");
    members[3] = member("sn", None);
    assert_eq!(Config::from_members(&members).err(), Some(ConfigError::Parse));
}

#[test]
fn from_members_fails_without_all_five_fields() {
    assert_eq!(Config::from_members(&Vec::new()).err(), Some(ConfigError::Parse));
    let four = vec![
        member("product_name", Some("P")),
        member("manufacturer", Some("M")),
        member("version", Some("V")),
        member("sn", Some("S")),
    ];
    assert_eq!(Config::from_members(&four).err(), Some(ConfigError::Parse));
    let not_text = vec![
        member("product_name", Some("P")),
        member("manufacturer", Some("M")),
        member("version", Some("V")),
        member("sn", Some("S")),
        member("sku", None),
    ];
    assert_eq!(Config::from_members(&not_text).err(), Some(ConfigError::Parse));
}

#[test]
fn each_error_has_its_message() {
    assert_eq!(ConfigError::DirectoryResolution.message(), "No project dir");
    assert_eq!(ConfigError::Io.message(), "File system request failed");
    assert_eq!(ConfigError::Parse.message(), "Not a valid config record");
}

#[test]
fn frame_puts_five_written_values_into_one_object() {
    let text = Config::frame("\"P\"", "\"M\"", "\"V\"", "\"S\"", "\"K\"");
    assert_eq!(
        text,
        "{\"product_name\":\"P\",\"manufacturer\":\"M\",\"version\":\"V\",\"sn\":\"S\",\"sku\":\"K\"}"
    );
    assert_eq!(
        Config::frame("", "", "", "", ""),
        "{\"product_name\":,\"manufacturer\":,\"version\":,\"sn\":,\"sku\":}"
    );
}

#[test]
fn to_json_escapes_every_control_character_and_nothing_above() {
    let written = record(
        "\u{0}\u{1}\u{2}\u{3}\u{4}\u{5}\u{6}\u{7}",
        "\u{8}\u{9}\u{a}\u{b}\u{c}\u{d}\u{e}\u{f}",
        "\u{10}\u{11}\u{12}\u{13}\u{14}\u{15}\u{16}\u{17}",
        "\u{18}\u{19}\u{1a}\u{1b}\u{1c}\u{1d}\u{1e}\u{1f}",
        " !#[]~\u{7f}\u{80}\u{ff}\u{2028}",
    )
    .to_json();
    assert_eq!(
        written,
        "{\"product_name\":\"\\u0000\\u0001\\u0002\\u0003\\u0004\\u0005\\u0006\\u0007\",\
         \"manufacturer\":\"\\b\\t\\n\\u000b\\f\\r\\u000e\\u000f\",\
         \"version\":\"\\u0010\\u0011\\u0012\\u0013\\u0014\\u0015\\u0016\\u0017\",\
         \"sn\":\"\\u0018\\u0019\\u001a\\u001b\\u001c\\u001d\\u001e\\u001f\",\
         \"sku\":\" !#[]~\u{7f}\u{80}\u{ff}\u{2028}\"}"
    );
}

#[test]
fn from_json_takes_the_later_of_two_values_under_one_name() {
    let read = Config::from_json(
        "{\"product_name\":\"P\",\"manufacturer\":\"M\",\"version\":\"V\",\"sn\":\"first\",\
         \"sku\":\"K\",\"sn\":\"second\"}",
    )
    .unwrap();
    assert_eq!(read.sn, "second");
    let read = Config::from_json(
        "{\"product_name\":\"P\",\"manufacturer\":\"M\",\"version\":\"V\",\"sn\":7,\
         \"sku\":\"K\",\"sn\":\"second\"}",
    )
    .unwrap();
    assert_eq!(read.sn, "second");
    let text = "{\"product_name\":\"P\",\"manufacturer\":\"M\",\"version\":\"V\",\
                \"sn\":\"first\",\"sku\":\"K\",\"sn\":7}";
    assert_eq!(Config::from_json(text).err(), Some(ConfigError::Parse));
}

#[test]
fn from_json_fails_on_a_number_that_cannot_be_held_even_where_it_is_passed_over() {
    let text = "{\"product_name\":\"P\",\"manufacturer\":\"M\",\"version\":\"V\",\
                \"sn\":\"S\",\"sku\":\"K\",\"extra\":1e999}";
    assert_eq!(Config::from_json(text).err(), Some(ConfigError::Parse));
    let text = "{\"product_name\":\"P\",\"manufacturer\":\"M\",\"version\":\"V\",\
                \"sn\":\"S\",\"sku\":\"K\",\"extra\":1e99}";
    assert!(Config::from_json(text).is_ok());
}

#[test]
fn record_is_read_back_from_its_members_in_any_order() {
    let orders: [[usize; 5]; 4] = [[0, 1, 2, 3, 4], [4, 3, 2, 1, 0], [1, 0, 4, 3, 2], [2, 4, 0, 1, 3]];
    let pairs = [
        ("product_name", "P"),
        ("manufacturer", "M"),
        ("version", "V"),
        ("sn", "S"),
        ("sku", "K"),
    ];
    for order in orders.iter() {
        let mut members = vec![member("before", None)];
        for at in order.iter() {
            members.push(member(pairs[*at].0, Some(pairs[*at].1)));
            members.push(member("between", Some("x")));
        }
        let read = Config::from_members(&members).unwrap();
        assert_eq!(fields(&read), ["P", "M", "V", "S", "K"]);
    }
}
