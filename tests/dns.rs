use doapi::builder::HttpMethod;
use doapi::json::AbsentFields;
use doapi::dns::{record_json_object, DnsRecType, DnsRecord, DnsRecordRequest, DnsRecordsRequest};
use doapi::text::decimal_string;

fn www_record() -> DnsRecord {
    DnsRecord {
        rec_type: "A".to_owned(),
        name: Some("www".to_owned()),
        priority: None,
        port: None,
        data: Some("1.2.3.4".to_owned()),
        weight: None,
    }
}

fn srv_record() -> DnsRecord {
    DnsRecord {
        rec_type: DnsRecType::SRV.to_string(),
        name: Some("_sip._tcp".to_owned()),
        priority: Some(10),
        port: Some(5060),
        data: Some("sip.example.com.".to_owned()),
        weight: Some(0),
    }
}

fn bare_record(rec_type: &str) -> DnsRecord {
    DnsRecord {
        rec_type: rec_type.to_owned(),
        name: None,
        priority: None,
        port: None,
        data: None,
        weight: None,
    }
}

#[test]
fn record_types_read_as_their_tags() {
    assert_eq!(DnsRecType::A.to_string(), "A");
    assert_eq!(DnsRecType::AAAA.to_string(), "AAAA");
    assert_eq!(DnsRecType::CNAME.to_string(), "CNAME");
    assert_eq!(DnsRecType::MX.to_string(), "MX");
    assert_eq!(DnsRecType::NS.to_string(), "NS");
    assert_eq!(DnsRecType::SRV.to_string(), "SRV");
    assert_eq!(DnsRecType::TXT.to_string(), "TXT");
}

#[test]
fn bare_record_shows_none_and_null() {
    let rec = bare_record("NS");
    assert_eq!(
        rec.to_string(),
        "Record Type: NS\nName: None\nData: None\nPriority: None\nPort: None\nWeight: None\n"
    );
    assert_eq!(
        rec.to_json().unwrap(),
        "{\"type\":\"NS\",\"name\":null,\"priority\":null,\"port\":null,\"data\":null,\"weight\":null}"
    );
}

#[test]
fn full_record_report() {
    assert_eq!(
        srv_record().to_string(),
        "Record Type: SRV\nName: _sip._tcp\nData: sip.example.com.\nPriority: 10\nPort: 5060\nWeight: 0\n"
    );
}

#[test]
fn full_record_json() {
    assert_eq!(
        srv_record().to_json().unwrap(),
        "{\"type\":\"SRV\",\"name\":\"_sip._tcp\",\"priority\":10,\"port\":5060,\"data\":\"sip.example.com.\",\"weight\":0}"
    );
}

#[test]
fn json_escapes_strings() {
    let mut rec = bare_record("TXT");
    rec.data = Some("say \"hi\"\\".to_owned());
    assert_eq!(
        rec.to_json().unwrap(),
        "{\"type\":\"TXT\",\"name\":null,\"priority\":null,\"port\":null,\"data\":\"say \\\"hi\\\"\\\\\",\"weight\":null}"
    );
    rec.data = Some("a\tb\n\u{1}\u{1f}\u{8}\u{c}\r/é".to_owned());
    let body = rec.to_json().unwrap();
    assert!(body.contains("\"data\":\"a\\tb\\n\\u0001\\u001f\\b\\f\\r/é\""));
}

#[test]
fn json_object_layout() {
    let body = record_json_object(AbsentFields::Null, "\"MX\"", None, Some(u64::MAX), Some(0), Some("\"mail\""), None);
    assert_eq!(
        body,
        "{\"type\":\"MX\",\"name\":null,\"priority\":18446744073709551615,\"port\":0,\"data\":\"mail\",\"weight\":null}"
    );
}

#[test]
fn decimal_forms() {
    assert_eq!(decimal_string(0), "0");
    assert_eq!(decimal_string(7), "7");
    assert_eq!(decimal_string(10), "10");
    assert_eq!(decimal_string(5060), "5060");
    assert_eq!(decimal_string(u64::MAX), "18446744073709551615");
}

#[test]
fn create_posts_record_json() {
    let auth = "SECRET-REDACTED".to_owned();
    let url = "https://api.digitalocean.com/v2/domains/super.com/records".to_owned();
    let scope = DnsRecordsRequest::new(HttpMethod::Get, &auth, url.clone(), None);
    let record = www_record();
    let req = scope.create(&record).unwrap();
    assert_eq!(req.method(), HttpMethod::Post);
    assert_eq!(req.url(), url);
    assert!(std::ptr::eq(req.auth(), &auth));
    let body = req.body().unwrap();
    assert_eq!(body, record.to_json().unwrap());
    let value: serde_json::Value = serde_json::from_str(body).unwrap();
    assert_eq!(value["type"], "A");
    assert_eq!(value["name"], "www");
    assert_eq!(value["data"], "1.2.3.4");
    assert!(value["priority"].is_null());
    assert!(value["port"].is_null());
    assert!(value["weight"].is_null());
    assert_eq!(value.as_object().unwrap().len(), 6);
}

#[test]
fn update_puts_record_json() {
    let auth = "SECRET-REDACTED".to_owned();
    let url = "https://api.digitalocean.com/v2/domains/super.com/records/1234".to_owned();
    let scope = DnsRecordRequest::new(HttpMethod::Get, &auth, url.clone(), None);
    let record = srv_record();
    let req = scope.update(&record).unwrap();
    assert_eq!(req.method(), HttpMethod::Put);
    assert_eq!(req.url(), url);
    assert!(std::ptr::eq(req.auth(), &auth));
    assert_eq!(req.body(), Some(record.to_json().unwrap().as_str()));
}

#[test]
fn delete_has_no_body() {
    let auth = "SECRET-REDACTED".to_owned();
    let url = "https://api.digitalocean.com/v2/domains/super.com/records/1234".to_owned();
    let scope = DnsRecordRequest::new(HttpMethod::Get, &auth, url.clone(), None);
    let req = scope.delete();
    assert_eq!(req.method(), HttpMethod::Delete);
    assert_eq!(req.url(), url);
    assert!(std::ptr::eq(req.auth(), &auth));
    assert_eq!(req.body(), None);
}

#[test]
fn delete_ignores_prior_state() {
    let auth = "SECRET-REDACTED".to_owned();
    let url = "https://api.digitalocean.com/v2/domains/super.com/records/77".to_owned();
    let scope = DnsRecordRequest::new(HttpMethod::Put, &auth, url.clone(), Some("{}".to_owned()));
    let req = scope.delete();
    assert_eq!(req.method(), HttpMethod::Delete);
    assert_eq!(req.body(), None);
    assert_eq!(req.url(), url);

    let scope = DnsRecordRequest::new(HttpMethod::Get, &auth, url.clone(), None);
    let updated = scope.update(&www_record()).unwrap();
    let req = updated.delete();
    assert_eq!(req.method(), HttpMethod::Delete);
    assert_eq!(req.body(), None);
    assert_eq!(req.url(), url);
    assert!(std::ptr::eq(req.auth(), &auth));
}

#[test]
fn transitions_keep_url_and_auth() {
    let auth = "SECRET-REDACTED".to_owned();
    let url = "https://api.digitalocean.com/v2/domains/super.com/records".to_owned();
    let scope = DnsRecordsRequest::new(HttpMethod::Get, &auth, url.clone(), None);
    let created = scope.create(&bare_record("TXT")).unwrap();
    let updated = created.update(&srv_record()).unwrap();
    let deleted = updated.delete();
    assert_eq!(deleted.url(), url);
    assert!(std::ptr::eq(deleted.auth(), &auth));
}

#[test]
fn omitted_absent_fields() {
    let rec = bare_record("NS");
    assert_eq!(rec.to_json_with(AbsentFields::Omit).unwrap(), "{\"type\":\"NS\"}");
    assert_eq!(rec.to_json_with(AbsentFields::Null).unwrap(), rec.to_json().unwrap());
    let mut rec = www_record();
    rec.weight = Some(3);
    assert_eq!(
        rec.to_json_with(AbsentFields::Omit).unwrap(),
        "{\"type\":\"A\",\"name\":\"www\",\"data\":\"1.2.3.4\",\"weight\":3}"
    );
}

#[test]
fn update_aaaa_record() {
    let auth = "SECRET-REDACTED".to_owned();
    let url = "https://api.digitalocean.com/v2/domains/super.com/records/9".to_owned();
    let scope = DnsRecordRequest::new(HttpMethod::Get, &auth, url, None);
    let record = DnsRecord {
        rec_type: DnsRecType::AAAA.to_string(),
        name: Some("www".to_owned()),
        priority: None,
        port: None,
        data: Some("::1".to_owned()),
        weight: None,
    };
    let req = scope.update(&record).unwrap();
    assert_eq!(req.method(), HttpMethod::Put);
    let value: serde_json::Value = serde_json::from_str(req.body().unwrap()).unwrap();
    assert_eq!(value["type"], "AAAA");
    assert_eq!(value["name"], "www");
    assert_eq!(value["data"], "::1");
}

#[test]
fn create_writes_largest_priority() {
    let auth = "SECRET-REDACTED".to_owned();
    let url = "https://api.digitalocean.com/v2/domains/super.com/records".to_owned();
    let scope = DnsRecordsRequest::new(HttpMethod::Get, &auth, url, None);
    let record = DnsRecord {
        rec_type: "MX".to_owned(),
        name: None,
        priority: Some(u64::MAX),
        port: None,
        data: Some("mx.example.com".to_owned()),
        weight: None,
    };
    let req = scope.create(&record).unwrap();
    let body = req.body().unwrap();
    assert!(body.contains("\"priority\":18446744073709551615,"));
    let value: serde_json::Value = serde_json::from_str(body).unwrap();
    assert_eq!(value["priority"].as_u64(), Some(u64::MAX));
}

#[test]
fn create_keeps_unusual_field_mixes() {
    let auth = "SECRET-REDACTED".to_owned();
    let url = "https://api.digitalocean.com/v2/domains/super.com/records".to_owned();
    let scope = DnsRecordsRequest::new(HttpMethod::Get, &auth, url, None);
    let mut record = bare_record("");
    record.priority = Some(5);
    record.port = Some(80);
    let req = scope.create(&record).unwrap();
    assert_eq!(req.method(), HttpMethod::Post);
    assert_eq!(
        req.body().unwrap(),
        "{\"type\":\"\",\"name\":null,\"priority\":5,\"port\":80,\"data\":null,\"weight\":null}"
    );
}
