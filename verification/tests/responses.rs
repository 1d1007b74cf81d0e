use nacos_responses::response::{
    ConfigChangeBatchListenServerResponse, ConfigPublishServerResponse, ConfigQueryServerResponse,
    ConfigRemoveServerResponse, Response,
};
use nacos_responses::schema::{ConfigContext, ResponseCode};
use nacos_responses::Error;

fn s(text: &str) -> String {
    text.to_string()
}

#[test]
fn query_example_payload_decodes() {
    let text = "{\"requestId\":\"1\",\"resultCode\":\"OK\",\"errorCode\":0,\"message\":null,\"contentType\":\"text\",\"content\":\"a=b\",\"md5\":\"abc123\",\"encryptedDataKey\":null,\"tag\":null,\"lastModified\":1690000000000,\"beta\":false}";
    let r = ConfigQueryServerResponse::from_json_text(text).unwrap();
    assert!(r.is_success());
    assert_eq!(r.request_id().unwrap(), "1");
    assert!(r.message().is_none());
    assert_eq!(r.error_code(), 0);
    assert_eq!(r.content_type().unwrap(), "text");
    assert_eq!(r.content().unwrap(), "a=b");
    assert_eq!(r.md5().unwrap(), "abc123");
    assert!(r.encrypted_data_key().is_none());
    assert_eq!(r.last_modified(), 1690000000000);
    assert!(!r.is_not_found());
    assert!(!r.is_query_conflict());
}

#[test]
fn query_success_needs_ok_result_code() {
    let ok = "{\"resultCode\":\"OK\",\"errorCode\":0,\"lastModified\":0,\"beta\":false}";
    let fail = "{\"resultCode\":\"FAIL\",\"errorCode\":500,\"lastModified\":0,\"beta\":false}";
    assert!(ConfigQueryServerResponse::from_json_text(ok).unwrap().is_success());
    assert!(!ConfigQueryServerResponse::from_json_text(fail).unwrap().is_success());
}

#[test]
fn query_not_found_code_is_recognized() {
    let text =
        "{\"resultCode\":\"FAIL\",\"errorCode\":300,\"message\":\"config data not exist\",\"lastModified\":0,\"beta\":false}";
    let r = ConfigQueryServerResponse::from_json_text(text).unwrap();
    assert!(!r.is_success());
    assert!(r.is_not_found());
    assert!(!r.is_query_conflict());
    // The reserved code keeps its meaning whatever the result code says.
    let ok_text = "{\"resultCode\":\"OK\",\"errorCode\":300,\"lastModified\":0,\"beta\":false}";
    assert!(ConfigQueryServerResponse::from_json_text(ok_text).unwrap().is_not_found());
}

#[test]
fn query_conflict_code_is_recognized() {
    let text =
        "{\"resultCode\":\"FAIL\",\"errorCode\":400,\"lastModified\":0,\"beta\":false}";
    let r = ConfigQueryServerResponse::from_json_text(text).unwrap();
    assert!(r.is_query_conflict());
    assert!(!r.is_not_found());
}

#[test]
fn query_round_trip_is_identity() {
    let r = ConfigQueryServerResponse::new(
        Some(s("req-7")),
        ResponseCode::Success,
        0,
        None,
        Some(s("properties")),
        Some(s("user=alice\npass=\"secret\\path\"")),
        Some(s("0123abcd")),
        None,
        Some(s("tagged")),
        -62135596800000,
        true,
    );
    let text = r.to_json_text();
    let back = ConfigQueryServerResponse::from_json_text(&text).unwrap();
    assert_eq!(back, r);
}

#[test]
fn query_round_trip_failure_reply() {
    let r = ConfigQueryServerResponse::new(
        None,
        ResponseCode::Failure,
        300,
        Some(s("config data not exist")),
        None,
        None,
        None,
        None,
        None,
        i64::MIN,
        false,
    );
    let back = ConfigQueryServerResponse::from_json_text(&r.to_json_text()).unwrap();
    assert_eq!(back, r);
    assert!(back.is_not_found());
}

#[test]
fn query_round_trip_extreme_timestamps() {
    for lm in [i64::MIN, i64::MIN + 1, -1, 0, 1, i64::MAX - 1, i64::MAX] {
        let r = ConfigQueryServerResponse::new(
            None,
            ResponseCode::Success,
            0,
            None,
            None,
            None,
            None,
            None,
            None,
            lm,
            false,
        );
        let back = ConfigQueryServerResponse::from_json_text(&r.to_json_text()).unwrap();
        assert_eq!(back.last_modified(), lm);
    }
}

#[test]
fn publish_round_trip_is_identity() {
    let r = ConfigPublishServerResponse::new(
        Some(s("42")),
        ResponseCode::Failure,
        503,
        Some(s("over limit")),
    );
    let back = ConfigPublishServerResponse::from_json_text(&r.to_json_text()).unwrap();
    assert_eq!(back, r);
    assert!(!back.is_success());
    assert_eq!(back.error_code(), 503);
    assert_eq!(back.message().unwrap(), "over limit");
}

#[test]
fn remove_round_trip_is_identity() {
    let r = ConfigRemoveServerResponse::new(Some(s("9")), ResponseCode::Success, 0, None);
    let back = ConfigRemoveServerResponse::from_json_text(&r.to_json_text()).unwrap();
    assert_eq!(back, r);
    assert!(back.is_success());
}

#[test]
fn batch_round_trip_is_identity() {
    let ctxs = vec![
        ConfigContext { data_id: s("app.yaml"), group: s("DEFAULT_GROUP"), tenant: s("") },
        ConfigContext { data_id: s("db.conf"), group: s("ops"), tenant: s("tenant-1") },
    ];
    let r = ConfigChangeBatchListenServerResponse::new(
        Some(s("3")),
        ResponseCode::Success,
        0,
        None,
        Some(ctxs.clone()),
    );
    let back = ConfigChangeBatchListenServerResponse::from_json_text(&r.to_json_text()).unwrap();
    assert_eq!(back, r);
    assert_eq!(back.changed_configs().unwrap(), &ctxs);
}

#[test]
fn malformed_payloads_yield_serialization() {
    let cases = [
        "",
        "   ",
        "{",
        "{\"requestId\":",
        "{\"resultCode\":\"OK\",\"errorCode\":0,\"lastModified\":0,\"beta\":false",
        "[1,2,3]",
        "\"just a string\"",
        "{\"resultCode\":\"OK\",\"errorCode\":\"zero\",\"lastModified\":0,\"beta\":false}",
        "{\"resultCode\":200,\"errorCode\":0,\"lastModified\":0,\"beta\":false}",
        "{\"resultCode\":\"OK\",\"errorCode\":0,\"lastModified\":0,\"beta\":\"no\"}",
        "{\"resultCode\":\"OK\",\"errorCode\":0,\"lastModified\":1.5,\"beta\":false}",
        "{\"resultCode\":\"OK\",\"errorCode\":-1,\"lastModified\":0,\"beta\":false}",
        "{\"resultCode\":\"OK\",\"errorCode\":4294967296,\"lastModified\":0,\"beta\":false}",
        "{\"resultCode\":\"OK\",\"errorCode\":0,\"lastModified\":99999999999999999999,\"beta\":false}",
        "{\"resultCode\":\"OK\",\"errorCode\":0,\"lastModified\":0,\"beta\":false} trailing",
        "{\"resultCode\":\"OK\",\"errorCode\":0,\"beta\":false}",
        "{\"errorCode\":0,\"lastModified\":0,\"beta\":false}",
        "{\"resultCode\":\"OK\",\"errorCode\":0,\"lastModified\":0,\"beta\":false,}",
        "{\"content\":\"broken \\u0041 escape\",\"resultCode\":\"OK\",\"errorCode\":0,\"lastModified\":0,\"beta\":false}",
    ];
    for text in cases {
        match ConfigQueryServerResponse::from_json_text(text) {
            Err(Error::Serialization(_)) => {},
            other => panic!("expected a serialization failure for {:?}, got {:?}", text, other),
        }
    }
}

#[test]
fn batch_absent_changed_configs_is_not_an_error() {
    let text = "{\"requestId\":\"5\",\"resultCode\":\"OK\",\"errorCode\":0}";
    let r = ConfigChangeBatchListenServerResponse::from_json_text(text).unwrap();
    assert!(r.is_success());
    assert!(r.changed_configs().is_none());
    let null_text = "{\"resultCode\":\"OK\",\"errorCode\":0,\"changedConfigs\":null}";
    let rn = ConfigChangeBatchListenServerResponse::from_json_text(null_text).unwrap();
    assert!(rn.changed_configs().is_none());
}

#[test]
fn batch_empty_and_filled_changed_configs() {
    let empty = "{\"resultCode\":\"OK\",\"errorCode\":0,\"changedConfigs\":[]}";
    let r = ConfigChangeBatchListenServerResponse::from_json_text(empty).unwrap();
    assert_eq!(r.changed_configs().unwrap().len(), 0);
    let filled = "{\"resultCode\":\"OK\",\"errorCode\":0,\"changedConfigs\":[{\"dataId\":\"app.yaml\",\"group\":\"g1\",\"tenant\":\"t\"},{\"dataId\":\"web.xml\",\"group\":\"g2\",\"tenant\":\"\"}]}";
    let r2 = ConfigChangeBatchListenServerResponse::from_json_text(filled).unwrap();
    let cs = r2.changed_configs().unwrap();
    assert_eq!(cs.len(), 2);
    assert_eq!(cs[0].data_id, "app.yaml");
    assert_eq!(cs[0].group, "g1");
    assert_eq!(cs[0].tenant, "t");
    assert_eq!(cs[1].data_id, "web.xml");
    // A malformed entry poisons the whole list.
    let bad = "{\"resultCode\":\"OK\",\"errorCode\":0,\"changedConfigs\":[{\"dataId\":\"x\"}]}";
    assert!(matches!(
        ConfigChangeBatchListenServerResponse::from_json_text(bad),
        Err(Error::Serialization(_))
    ));
}

#[test]
fn query_replies_classify_deterministically() {
    let ok = "{\"resultCode\":\"OK\",\"errorCode\":0,\"lastModified\":0,\"beta\":false}";
    let r = ConfigQueryServerResponse::from_json_text(ok).unwrap();
    assert!(r.to_result().is_ok());
    let not_found =
        "{\"resultCode\":\"FAIL\",\"errorCode\":300,\"message\":\"config data not exist\",\"lastModified\":0,\"beta\":false}";
    match ConfigQueryServerResponse::from_json_text(not_found).unwrap().to_result() {
        Err(Error::ConfigNotFound(m)) => assert_eq!(m, "config data not exist"),
        other => panic!("expected not-found, got {:?}", other),
    }
    let conflict = "{\"resultCode\":\"OK\",\"errorCode\":400,\"lastModified\":0,\"beta\":false}";
    assert!(matches!(
        ConfigQueryServerResponse::from_json_text(conflict).unwrap().to_result(),
        Err(Error::ConfigQueryConflict(_))
    ));
    let failed = "{\"resultCode\":\"FAIL\",\"errorCode\":500,\"lastModified\":0,\"beta\":false}";
    assert!(matches!(
        ConfigQueryServerResponse::from_json_text(failed).unwrap().to_result(),
        Err(Error::ErrResult(_))
    ));
}

#[test]
fn type_urls_are_fixed_per_variant() {
    let q = ConfigQueryServerResponse::new(
        None,
        ResponseCode::Success,
        0,
        None,
        None,
        None,
        None,
        None,
        None,
        0,
        false,
    );
    let p = ConfigPublishServerResponse::new(None, ResponseCode::Success, 0, None);
    let d = ConfigRemoveServerResponse::new(None, ResponseCode::Success, 0, None);
    let b = ConfigChangeBatchListenServerResponse::new(None, ResponseCode::Success, 0, None, None);
    assert_eq!(q.type_url(), "ConfigQueryResponse");
    assert_eq!(p.type_url(), "ConfigPublishResponse");
    assert_eq!(d.type_url(), "ConfigRemoveResponse");
    assert_eq!(b.type_url(), "ConfigChangeBatchListenResponse");
}

#[test]
fn whitespace_and_unknown_fields_are_tolerated() {
    let text = " {\n \"resultCode\" : \"OK\" ,\t\"errorCode\" : 0 ,\r\n \"lastModified\" : 7 , \"beta\" : true , \"extra\" : null } ";
    let r = ConfigQueryServerResponse::from_json_text(text).unwrap();
    assert!(r.is_success());
    assert_eq!(r.last_modified(), 7);
}

#[test]
fn publish_encodes_to_exact_text() {
    let r = ConfigPublishServerResponse::new(Some(s("1")), ResponseCode::Success, 0, None);
    assert_eq!(
        r.to_json_text(),
        "{\"requestId\":\"1\",\"resultCode\":\"OK\",\"errorCode\":0,\"message\":null}"
    );
}

#[test]
fn non_ascii_content_round_trips() {
    let r = ConfigQueryServerResponse::new(
        None,
        ResponseCode::Success,
        0,
        None,
        None,
        Some(s("héllo → 世界 \u{1F600}")),
        None,
        None,
        None,
        0,
        false,
    );
    let back = ConfigQueryServerResponse::from_json_text(&r.to_json_text()).unwrap();
    assert_eq!(back.content().unwrap(), "héllo → 世界 \u{1F600}");
}

#[test]
fn string_escapes_decode() {
    let text = "{\"resultCode\":\"OK\",\"errorCode\":0,\"lastModified\":0,\"beta\":false,\"content\":\"a\\n\\tb \\\"q\\\" c\\\\d \\/e\"}";
    let r = ConfigQueryServerResponse::from_json_text(text).unwrap();
    assert_eq!(r.content().unwrap(), "a\n\tb \"q\" c\\d /e");
}
