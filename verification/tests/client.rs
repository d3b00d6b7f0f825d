use mammut::request::{push_array, push_flag, push_pair, render_array_query};
use mammut::status_builder::Visibility;
use mammut::{Body, Data, Error, Mastodon, Method, Request, StatusBuilder};

fn data(token: &str) -> Data {
    Data {
        base: "https://example.social".to_string(),
        client_id: "ci".to_string(),
        client_secret: "cs".to_string(),
        redirect: "urn:ietf:wg:oauth:2.0:oob".to_string(),
        token: token.to_string(),
    }
}

fn client() -> Mastodon {
    Mastodon::from_data(data("tok")).unwrap()
}

fn get(url: &str) -> Request {
    Request {
        method: Method::Get,
        url: url.to_string(),
        authorization: Some("Bearer tok".to_string()),
        body: Body::Empty,
    }
}

fn post(url: &str, body: Body) -> Request {
    Request {
        method: Method::Post,
        url: url.to_string(),
        authorization: Some("Bearer tok".to_string()),
        body,
    }
}

#[test]
fn from_data_keeps_the_bundle() {
    let c = Mastodon::from_data(data("tok")).unwrap();
    assert_eq!(c.data, data("tok"));
    let empty = Mastodon::from_data(data("")).unwrap();
    assert_eq!(empty.data.token, "");
}

#[test]
fn from_registration_fills_the_bundle() {
    let c = Mastodon::from_registration(
        "https://example.social".to_string(),
        "ci".to_string(),
        "cs".to_string(),
        "urn:ietf:wg:oauth:2.0:oob".to_string(),
        "tok".to_string(),
    );
    assert_eq!(c.data, data("tok"));
}

#[test]
fn route_and_endpoint_prefix_the_base() {
    let c = client();
    assert_eq!(c.route("/oauth/token"), "https://example.social/oauth/token");
    assert_eq!(c.endpoint("blocks"), "https://example.social/api/v1/blocks");
    assert_eq!(c.authorization(), "Bearer tok");
}

#[test]
fn calls_without_parameters() {
    let c = client();
    let b = "https://example.social/api/v1/";
    assert_eq!(c.verify().unwrap(), get(&format!("{}accounts/verify_credentials", b)));
    assert_eq!(c.blocks().unwrap(), get(&format!("{}blocks", b)));
    assert_eq!(c.follow_requests().unwrap(), get(&format!("{}follow_requests", b)));
    assert_eq!(c.mutes().unwrap(), get(&format!("{}mutes", b)));
    assert_eq!(c.notifications().unwrap(), get(&format!("{}notifications", b)));
    assert_eq!(c.reports().unwrap(), get(&format!("{}reports", b)));
    assert_eq!(c.get_home_timeline().unwrap(), get(&format!("{}timelines/home", b)));
    assert_eq!(c.instance().unwrap(), get(&format!("{}instance", b)));
    assert_eq!(
        c.clear_notifications().unwrap(),
        post(&format!("{}notifications/clear", b), Body::Empty)
    );
}

#[test]
fn calls_with_an_id_in_the_path() {
    let c = client();
    let b = "https://example.social/api/v1/";
    assert_eq!(c.get_account(7).unwrap(), get(&format!("{}accounts/7", b)));
    assert_eq!(c.followers(7).unwrap(), get(&format!("{}accounts/7/followers", b)));
    assert_eq!(c.following(23901).unwrap(), get(&format!("{}accounts/23901/following", b)));
    assert_eq!(c.follow(1).unwrap(), get(&format!("{}accounts/1/follow", b)));
    assert_eq!(c.unfollow(1).unwrap(), get(&format!("{}accounts/1/unfollow", b)));
    assert_eq!(c.block(1).unwrap(), get(&format!("{}accounts/1/block", b)));
    assert_eq!(c.unblock(1).unwrap(), get(&format!("{}accounts/1/unblock", b)));
    assert_eq!(c.mute(1).unwrap(), get(&format!("{}accounts/1/mute", b)));
    assert_eq!(c.unmute(1).unwrap(), get(&format!("{}accounts/1/unmute", b)));
    assert_eq!(c.get_notification(10).unwrap(), get(&format!("{}notifications/10", b)));
    assert_eq!(c.get_status(0).unwrap(), get(&format!("{}statuses/0", b)));
    assert_eq!(c.get_context(99).unwrap(), get(&format!("{}statuses/99/context", b)));
    assert_eq!(c.get_card(100).unwrap(), get(&format!("{}statuses/100/card", b)));
    assert_eq!(c.reblogged_by(5).unwrap(), get(&format!("{}statuses/5/reblogged_by", b)));
    assert_eq!(c.favourited_by(5).unwrap(), get(&format!("{}statuses/5/favourited_by", b)));
    assert_eq!(c.reblog(5).unwrap(), post(&format!("{}statuses/5/reblog", b), Body::Empty));
    assert_eq!(c.unreblog(5).unwrap(), post(&format!("{}statuses/5/unreblog", b), Body::Empty));
    assert_eq!(c.favourite(5).unwrap(), post(&format!("{}statuses/5/favourite", b), Body::Empty));
    assert_eq!(
        c.unfavourite(5).unwrap(),
        post(&format!("{}statuses/5/unfavourite", b), Body::Empty)
    );
    let deleted = c.delete_status(18446744073709551615).unwrap();
    assert_eq!(deleted.method, Method::Delete);
    assert_eq!(deleted.url, format!("{}statuses/18446744073709551615", b));
    assert_eq!(deleted.body, Body::Empty);
}

#[test]
fn every_call_needs_a_token() {
    let c = Mastodon::from_data(data("")).unwrap();
    assert_eq!(c.verify(), Err(Error::AccessTokenRequired));
    assert_eq!(c.get_account(1), Err(Error::AccessTokenRequired));
    assert_eq!(c.follows("a@b".to_string()), Err(Error::AccessTokenRequired));
    assert_eq!(c.media(vec![1, 2]), Err(Error::AccessTokenRequired));
    assert_eq!(c.statuses(1, true, true, None), Err(Error::AccessTokenRequired));
    assert_eq!(c.relationships(&vec![1]), Err(Error::AccessTokenRequired));
    assert_eq!(c.search_accounts("a", None), Err(Error::AccessTokenRequired));
    assert_eq!(c.get_public_timeline(true), Err(Error::AccessTokenRequired));
    assert_eq!(
        c.new_status(StatusBuilder::new("a".to_string())),
        Err(Error::AccessTokenRequired)
    );
}

#[test]
fn search_posts_a_form() {
    let c = client();
    assert_eq!(
        c.search("alice".to_string(), true).unwrap(),
        post(
            "https://example.social/api/v1/search",
            Body::Form("q=alice&resolve=true".to_string())
        )
    );
    assert_eq!(
        c.search("a b&c".to_string(), false).unwrap().body,
        Body::Form("q=a+b%26c&resolve=false".to_string())
    );
}

#[test]
fn account_statuses_omits_clear_flags() {
    let c = client();
    assert_eq!(
        c.statuses(7, false, true, Some(42)).unwrap(),
        get("https://example.social/api/v1/accounts/7/statuses?exclude_replies=1&since_id=42")
    );
    assert_eq!(
        c.statuses(7, true, false, None).unwrap().url,
        "https://example.social/api/v1/accounts/7/statuses?only_media=1"
    );
    assert_eq!(
        c.statuses(7, false, false, None).unwrap(),
        get("https://example.social/api/v1/accounts/7/statuses")
    );
    assert_eq!(
        c.statuses(7, true, true, Some(-3)).unwrap().url,
        "https://example.social/api/v1/accounts/7/statuses?only_media=1&exclude_replies=1&since_id=-3"
    );
}

#[test]
fn queries_send_the_address_as_it_stands() {
    let mut bundle = data("tok");
    bundle.base = "https://EXAMPLE.social:443".to_string();
    let c = Mastodon::from_data(bundle).unwrap();
    assert_eq!(
        c.statuses(7, true, false, None).unwrap().url,
        "https://EXAMPLE.social:443/api/v1/accounts/7/statuses?only_media=1"
    );
    assert_eq!(
        c.search_accounts("a", None).unwrap().url,
        "https://EXAMPLE.social:443/api/v1/accounts/search?q=a"
    );
    let plain = client();
    assert_eq!(
        plain.query("https://example.social/api/v1/x", &vec![]).unwrap().url,
        "https://example.social/api/v1/x"
    );
    assert_eq!(
        plain
            .query("https://example.social/api/v1/x", &vec![("a b".to_string(), "&".to_string())])
            .unwrap()
            .url,
        "https://example.social/api/v1/x?a+b=%26"
    );
    assert!(matches!(plain.query("/api/v1/x", &vec![]), Err(Error::Url(_))));
}

#[test]
fn account_statuses_rejects_a_malformed_base() {
    let mut bundle = data("tok");
    bundle.base = "example.social".to_string();
    let c = Mastodon::from_data(bundle).unwrap();
    assert!(matches!(c.statuses(7, false, true, None), Err(Error::Url(_))));
    assert!(matches!(c.search_accounts("a", None), Err(Error::Url(_))));
}

#[test]
fn relationships_of_one_and_of_several() {
    let c = client();
    let b = "https://example.social/api/v1/accounts/relationships";
    assert_eq!(c.relationships(&vec![3]).unwrap(), get(&format!("{}?id=3", b)));
    assert_eq!(c.relationships(&vec![3, 4]).unwrap(), get(&format!("{}?id[]=3&id[]=4", b)));
    assert_eq!(
        c.relationships(&vec![3, 4, 50]).unwrap().url,
        format!("{}?id[]=3&id[]=4&id[]=50", b)
    );
    assert_eq!(c.relationships(&vec![]).unwrap().url, b);
}

#[test]
fn array_parameters_in_both_forms() {
    assert_eq!(render_array_query("id", &vec![3]), "id=3");
    assert_eq!(render_array_query("id", &vec![3, 4]), "id[]=3&id[]=4");
    assert_eq!(render_array_query("id", &vec![]), "");

    let mut one: Vec<(String, String)> = Vec::new();
    push_array(&mut one, "status_ids", &vec![9]);
    assert_eq!(one, vec![("status_ids".to_string(), "9".to_string())]);

    let mut two: Vec<(String, String)> = vec![("a".to_string(), "b".to_string())];
    push_array(&mut two, "status_ids", &vec![9, 10]);
    assert_eq!(
        two,
        vec![
            ("a".to_string(), "b".to_string()),
            ("status_ids[]".to_string(), "9".to_string()),
            ("status_ids[]".to_string(), "10".to_string()),
        ]
    );

    let mut none: Vec<(String, String)> = Vec::new();
    push_array(&mut none, "status_ids", &vec![]);
    assert!(none.is_empty());
}

#[test]
fn boolean_parameters_are_one_or_absent() {
    let mut params: Vec<(String, String)> = Vec::new();
    push_flag(&mut params, "only_media", false);
    assert!(params.is_empty());
    push_flag(&mut params, "exclude_replies", true);
    assert_eq!(params, vec![("exclude_replies".to_string(), "1".to_string())]);
    push_pair(&mut params, "since_id", "42");
    assert_eq!(params.len(), 2);
    assert_eq!(params[1], ("since_id".to_string(), "42".to_string()));
}

#[test]
fn timelines_restrict_to_local_on_demand() {
    let c = client();
    let b = "https://example.social/api/v1/timelines/";
    assert_eq!(c.get_public_timeline(false).unwrap(), get(&format!("{}public", b)));
    assert_eq!(c.get_public_timeline(true).unwrap(), get(&format!("{}public?local=1", b)));
    assert_eq!(
        c.get_tagged_timeline("rust".to_string(), false).unwrap(),
        get(&format!("{}tag/rust", b))
    );
    assert_eq!(
        c.get_tagged_timeline("rust".to_string(), true).unwrap(),
        get(&format!("{}tag/rust?local=1", b))
    );
}

#[test]
fn search_accounts_encodes_the_query() {
    let c = client();
    let b = "https://example.social/api/v1/accounts/search";
    assert_eq!(c.search_accounts("alice", None).unwrap(), get(&format!("{}?q=alice", b)));
    assert_eq!(
        c.search_accounts("alice b&c", Some(5)).unwrap().url,
        format!("{}?q=alice+b%26c&limit=5", b)
    );
}

#[test]
fn forms_of_the_other_posts() {
    let c = client();
    let b = "https://example.social/api/v1/";
    assert_eq!(
        c.allow_follow_request(12).unwrap(),
        post(
            &format!("{}accounts/follow_requests/authorize", b),
            Body::Form("id=12".to_string())
        )
    );
    assert_eq!(
        c.reject_follow_request(12).unwrap(),
        post(&format!("{}accounts/follow_requests/reject", b), Body::Form("id=12".to_string()))
    );
    assert_eq!(
        c.follows("alice@example.org".to_string()).unwrap(),
        post(&format!("{}follows", b), Body::Form("uri=alice%40example.org".to_string()))
    );
    assert_eq!(
        c.report(1, vec![2, 3], "spam here".to_string()).unwrap(),
        post(
            &format!("{}reports", b),
            Body::Form(
                "account_id=1&status_ids%5B%5D=2&status_ids%5B%5D=3&comment=spam+here".to_string()
            )
        )
    );
    assert_eq!(
        c.report(1, vec![2], "x".to_string()).unwrap().body,
        Body::Form("account_id=1&status_ids=2&comment=x".to_string())
    );
    assert_eq!(
        c.media(vec![0, 255, 7]).unwrap(),
        post(&format!("{}media", b), Body::Multipart(vec![0, 255, 7]))
    );
}

#[test]
fn new_status_posts_json() {
    let c = client();
    let plain = c.new_status(StatusBuilder::new("hello".to_string())).unwrap();
    assert_eq!(
        plain,
        post(
            "https://example.social/api/v1/statuses",
            Body::Json("{\"status\":\"hello\"}".to_string())
        )
    );

    let full = StatusBuilder {
        status: "say \"hi\"\n".to_string(),
        in_reply_to_id: Some(5),
        media_ids: Some(vec![1, 22, 3]),
        sensitive: Some(true),
        spoiler_text: Some("cw".to_string()),
        visibility: Some(Visibility::Unlisted),
    };
    let text = full.to_json().unwrap();
    assert_eq!(
        text,
        "{\"status\":\"say \\\"hi\\\"\\n\",\"in_reply_to_id\":5,\"media_ids\":[1,22,3],\"sensitive\":true,\"spoiler_text\":\"cw\",\"visibility\":\"unlisted\"}"
    );
    let value: serde_json::Value = serde_json::from_str(&text).unwrap();
    assert_eq!(value["status"].as_str(), Some("say \"hi\"\n"));
    assert_eq!(value["in_reply_to_id"].as_u64(), Some(5));
    assert_eq!(value["media_ids"].as_array().map(|a| a.len()), Some(3));
    assert_eq!(value["sensitive"].as_bool(), Some(true));
    assert_eq!(value["visibility"].as_str(), Some("unlisted"));
    assert_eq!(value.as_object().map(|o| o.len()), Some(6));
}

#[test]
fn status_payload_leaves_absent_fields_out() {
    let mut payload = StatusBuilder::new("a".to_string());
    payload.sensitive = Some(false);
    payload.media_ids = Some(vec![]);
    assert_eq!(
        payload.to_json().unwrap(),
        "{\"status\":\"a\",\"media_ids\":[],\"sensitive\":false}"
    );
    payload.media_ids = Some(vec![8]);
    payload.sensitive = None;
    payload.visibility = Some(Visibility::Direct);
    assert_eq!(
        payload.to_json().unwrap(),
        "{\"status\":\"a\",\"media_ids\":[8],\"visibility\":\"direct\"}"
    );
    assert_eq!(payload.frame("\"x\"", None), "{\"status\":\"x\",\"media_ids\":[8],\"visibility\":\"direct\"}");
}

#[test]
fn visibilities_on_the_wire() {
    assert_eq!(Visibility::Direct.as_str(), "direct");
    assert_eq!(Visibility::Private.as_str(), "private");
    assert_eq!(Visibility::Unlisted.as_str(), "unlisted");
    assert_eq!(Visibility::Public.as_str(), "public");
}
