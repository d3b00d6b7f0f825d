use mammut::bundle::{frame_bundle, lookup};
use mammut::{Data, Error};

fn bundle() -> Data {
    Data {
        base: "https://example.social".to_string(),
        client_id: "ci".to_string(),
        client_secret: "c\"s\\".to_string(),
        redirect: "urn:ietf:wg:oauth:2.0:oob".to_string(),
        token: "tok\n".to_string(),
    }
}

#[test]
fn bundle_is_a_json_object_of_five_fields() {
    let text = bundle().to_json().unwrap();
    assert_eq!(
        text,
        "{\"base\":\"https://example.social\",\"client_id\":\"ci\",\"client_secret\":\"c\\\"s\\\\\",\"redirect\":\"urn:ietf:wg:oauth:2.0:oob\",\"token\":\"tok\\n\"}"
    );
    let value: serde_json::Value = serde_json::from_str(&text).unwrap();
    let object = value.as_object().unwrap();
    assert_eq!(object.len(), 5);
    assert_eq!(object["base"].as_str(), Some("https://example.social"));
    assert_eq!(object["client_id"].as_str(), Some("ci"));
    assert_eq!(object["client_secret"].as_str(), Some("c\"s\\"));
    assert_eq!(object["redirect"].as_str(), Some("urn:ietf:wg:oauth:2.0:oob"));
    assert_eq!(object["token"].as_str(), Some("tok\n"));
}

#[test]
fn bundle_round_trips_through_json() {
    let text = bundle().to_json().unwrap();
    let back = Data::from_json(&text).unwrap();
    assert_eq!(back, bundle());
    assert_eq!(back.to_json().unwrap(), text);

    let empty = Data {
        base: String::new(),
        client_id: String::new(),
        client_secret: String::new(),
        redirect: String::new(),
        token: String::new(),
    };
    assert_eq!(Data::from_json(&empty.to_json().unwrap()).unwrap(), empty);
}

#[test]
fn bundle_reads_members_in_any_order() {
    let text = "{\"token\":\"t\",\"redirect\":\"r\",\"extra\":\"x\",\"client_secret\":\"s\",\"client_id\":\"i\",\"base\":\"b\"}";
    let back = Data::from_json(text).unwrap();
    assert_eq!(back.base, "b");
    assert_eq!(back.client_id, "i");
    assert_eq!(back.client_secret, "s");
    assert_eq!(back.redirect, "r");
    assert_eq!(back.token, "t");
}

#[test]
fn bundle_rejects_what_is_incomplete_or_no_object() {
    assert_eq!(
        Data::from_json("{\"base\":\"b\",\"client_id\":\"i\",\"client_secret\":\"s\",\"redirect\":\"r\"}"),
        Err(Error::Serde("missing field `token`".to_string()))
    );
    assert_eq!(Data::from_json("{}"), Err(Error::Serde("missing field `base`".to_string())));
    assert!(matches!(Data::from_json("[1]"), Err(Error::Serde(_))));
    assert!(matches!(Data::from_json("not json"), Err(Error::Serde(_))));
    assert!(matches!(Data::from_json("{\"base\":1}"), Err(Error::Serde(_))));
}

#[test]
fn members_are_found_by_name() {
    let members = vec![
        ("a".to_string(), "1".to_string()),
        ("b".to_string(), "2".to_string()),
        ("a".to_string(), "3".to_string()),
    ];
    assert_eq!(lookup(&members, "a"), Some("1".to_string()));
    assert_eq!(lookup(&members, "b"), Some("2".to_string()));
    assert_eq!(lookup(&members, "c"), None);
    assert_eq!(Data::from_members(&members).map(|d| d.base), Err(Error::Serde("missing field `base`".to_string())));
}

#[test]
fn frame_puts_the_literals_in_declaration_order() {
    assert_eq!(
        frame_bundle("1", "2", "3", "4", "5"),
        "{\"base\":1,\"client_id\":2,\"client_secret\":3,\"redirect\":4,\"token\":5}"
    );
}

#[test]
fn url_errors_convert() {
    let parse = url::Url::parse("nope").unwrap_err();
    assert_eq!(Error::from(parse), Error::Url(parse));
}
