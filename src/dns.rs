//! DNS records: the record types, the record payload with its JSON body and its
//! text report, and the requests that create, update and delete records.

use vstd::prelude::*;
use crate::builder::{HttpMethod, RequestBuilder, RequestError, RequestSpec};
use crate::json::{
    json_str_of, json_string, member, number_json, push_member, push_number_member, AbsentFields,
};
use crate::response;
use crate::text::{
    as_opt_str, number_or_none, opt_str_view, opt_string_view, push_number_or_none,
    push_text_or_none, text_or_none,
};

verus! {

/// The types of DNS record that can be managed.
#[derive(Clone, Copy, Debug, PartialEq, Eq, Structural)]
pub enum DnsRecType {
    A,
    AAAA,
    CNAME,
    MX,
    NS,
    SRV,
    TXT,
}

impl DnsRecType {
    /// The tag of the record type, as the API writes it: its name in upper case.
    pub open spec fn tag(self) -> Seq<char> {
        match self {
            DnsRecType::A => "A"@,
            DnsRecType::AAAA => "AAAA"@,
            DnsRecType::CNAME => "CNAME"@,
            DnsRecType::MX => "MX"@,
            DnsRecType::NS => "NS"@,
            DnsRecType::SRV => "SRV"@,
            DnsRecType::TXT => "TXT"@,
        }
    }

    /// The textual form of the record type, which is its tag.
    pub fn to_string(&self) -> (r: String)
        ensures
            r@ == self.tag(),
    {
        match self {
            DnsRecType::A => String::from_str("A"),
            DnsRecType::AAAA => String::from_str("AAAA"),
            DnsRecType::CNAME => String::from_str("CNAME"),
            DnsRecType::MX => String::from_str("MX"),
            DnsRecType::NS => String::from_str("NS"),
            DnsRecType::SRV => String::from_str("SRV"),
            DnsRecType::TXT => String::from_str("TXT"),
        }
    }
}

/// A DNS record to create or update.
///
/// Which optional fields a record type needs is checked by the API, not here.
#[derive(Clone, Debug, PartialEq, Eq)]
pub struct DnsRecord {
    /// The record type (`A`, `AAAA`, `MX`, `NS`, ...); see `DnsRecType::to_string`.
    pub rec_type: String,
    /// The host name, alias or service (A, AAAA, CNAME, TXT and SRV records).
    pub name: Option<String>,
    /// The priority (MX and SRV records).
    pub priority: Option<u64>,
    /// The port of the service (SRV records).
    pub port: Option<u64>,
    /// The data of the record, which depends on its type.
    pub data: Option<String>,
    /// The weight among records of equal priority (SRV records).
    pub weight: Option<u64>,
}

/// The JSON object of a record, from its type and optional strings already
/// encoded as JSON values, with the keys in this order and absent values written
/// as `policy` says.
pub open spec fn record_frame(
    policy: AbsentFields,
    type_json: Seq<char>,
    name_json: Option<Seq<char>>,
    priority: Option<u64>,
    port: Option<u64>,
    data_json: Option<Seq<char>>,
    weight: Option<u64>,
) -> Seq<char> {
    "{\"type\":"@ + type_json
        + member(policy, ",\"name\":"@, name_json)
        + member(policy, ",\"priority\":"@, number_json(priority))
        + member(policy, ",\"port\":"@, number_json(port))
        + member(policy, ",\"data\":"@, data_json)
        + member(policy, ",\"weight\":"@, number_json(weight))
        + "}"@
}

/// The JSON string literal of an optional string.
pub open spec fn json_opt(o: Option<String>) -> Option<Seq<char>> {
    match o {
        Some(s) => Some(json_str_of(s@)),
        None => None,
    }
}

impl DnsRecord {
    /// The JSON body of the record, absent fields written as `policy` says.
    pub open spec fn json_with(self, policy: AbsentFields) -> Seq<char> {
        record_frame(
            policy,
            json_str_of(self.rec_type@),
            json_opt(self.name),
            self.priority,
            self.port,
            json_opt(self.data),
            self.weight,
        )
    }

    /// The JSON body of the record: absent fields are `null`.
    pub open spec fn json(self) -> Seq<char> {
        self.json_with(AbsentFields::Null)
    }

    /// The text report of the record: absent fields read `None`.
    pub open spec fn text(self) -> Seq<char> {
        "Record Type: "@ + self.rec_type@
            + "\nName: "@ + text_or_none(opt_string_view(self.name))
            + "\nData: "@ + text_or_none(opt_string_view(self.data))
            + "\nPriority: "@ + number_or_none(self.priority)
            + "\nPort: "@ + number_or_none(self.port)
            + "\nWeight: "@ + number_or_none(self.weight)
            + "\n"@
    }

    /// Encodes the record as the JSON body of a request, absent fields written
    /// as `policy` says.
    pub fn to_json_with(&self, policy: AbsentFields) -> (r: Result<String, RequestError>)
        ensures
            r is Ok,
            r matches Ok(b) ==> b@ == self.json_with(policy),
    {
        let type_json = match json_string(self.rec_type.as_str()) {
            Ok(t) => t,
            Err(_) => {
                return Err(RequestError::Serialization);
            },
        };
        let name_json = match encode_opt(&self.name) {
            Ok(n) => n,
            Err(e) => {
                return Err(e);
            },
        };
        let data_json = match encode_opt(&self.data) {
            Ok(d) => d,
            Err(e) => {
                return Err(e);
            },
        };
        Ok(record_json_object(
            policy,
            type_json.as_str(),
            as_opt_str(&name_json),
            self.priority,
            self.port,
            as_opt_str(&data_json),
            self.weight,
        ))
    }

    /// Encodes the record as the JSON body of a request, absent fields as `null`.
    pub fn to_json(&self) -> (r: Result<String, RequestError>)
        ensures
            r is Ok,
            r matches Ok(b) ==> b@ == self.json(),
    {
        self.to_json_with(AbsentFields::Null)
    }

    /// The text report of the record, one field per line.
    pub fn to_string(&self) -> (r: String)
        ensures
            r@ == self.text(),
    {
        let mut out = String::from_str("Record Type: ");
        out.append(self.rec_type.as_str());
        out.append("\nName: ");
        push_text_or_none(&mut out, as_opt_str(&self.name));
        out.append("\nData: ");
        push_text_or_none(&mut out, as_opt_str(&self.data));
        out.append("\nPriority: ");
        push_number_or_none(&mut out, self.priority);
        out.append("\nPort: ");
        push_number_or_none(&mut out, self.port);
        out.append("\nWeight: ");
        push_number_or_none(&mut out, self.weight);
        out.append("\n");
        out
    }
}

/// A record whose optional fields are all absent encodes each of them as `null`,
/// and its text report reads `None` on every line but the type's.
pub proof fn absent_fields_read_none(record: DnsRecord)
    requires
        record.name is None,
        record.priority is None,
        record.port is None,
        record.data is None,
        record.weight is None,
    ensures
        record.json() == "{\"type\":"@ + json_str_of(record.rec_type@)
            + ",\"name\":null,\"priority\":null,\"port\":null,\"data\":null,\"weight\":null}"@,
        record.text() == "Record Type: "@ + record.rec_type@
            + "\nName: None\nData: None\nPriority: None\nPort: None\nWeight: None\n"@,
{
    reveal_strlit("{\"type\":");
    reveal_strlit(",\"name\":");
    reveal_strlit(",\"priority\":");
    reveal_strlit(",\"port\":");
    reveal_strlit(",\"data\":");
    reveal_strlit(",\"weight\":");
    reveal_strlit("}");
    reveal_strlit("null");
    reveal_strlit(",\"name\":null,\"priority\":null,\"port\":null,\"data\":null,\"weight\":null}");
    reveal_strlit("Record Type: ");
    reveal_strlit("\nName: ");
    reveal_strlit("\nData: ");
    reveal_strlit("\nPriority: ");
    reveal_strlit("\nPort: ");
    reveal_strlit("\nWeight: ");
    reveal_strlit("\n");
    reveal_strlit("None");
    reveal_strlit("\nName: None\nData: None\nPriority: None\nPort: None\nWeight: None\n");
    assert(record.json() =~= "{\"type\":"@ + json_str_of(record.rec_type@)
        + ",\"name\":null,\"priority\":null,\"port\":null,\"data\":null,\"weight\":null}"@);
    assert(record.text() =~= "Record Type: "@ + record.rec_type@
        + "\nName: None\nData: None\nPriority: None\nPort: None\nWeight: None\n"@);
}

/// Encodes an optional string as a JSON string literal.
fn encode_opt(o: &Option<String>) -> (r: Result<Option<String>, RequestError>)
    ensures
        r is Ok,
        r matches Ok(v) ==> opt_string_view(v) == json_opt(*o),
{
    match o {
        Some(s) => match json_string(s.as_str()) {
            Ok(j) => Ok(Some(j)),
            Err(_) => Err(RequestError::Serialization),
        },
        None => Ok(None),
    }
}

/// Lays out the JSON object of a record from its type and optional strings,
/// each already encoded as a JSON value, and its numbers, absent values written
/// as `policy` says.
pub fn record_json_object(
    policy: AbsentFields,
    type_json: &str,
    name_json: Option<&str>,
    priority: Option<u64>,
    port: Option<u64>,
    data_json: Option<&str>,
    weight: Option<u64>,
) -> (r: String)
    ensures
        r@ == record_frame(
            policy,
            type_json@,
            opt_str_view(name_json),
            priority,
            port,
            opt_str_view(data_json),
            weight,
        ),
{
    let mut out = String::from_str("{\"type\":");
    out.append(type_json);
    push_member(&mut out, policy, ",\"name\":", name_json);
    push_number_member(&mut out, policy, ",\"priority\":", priority);
    push_number_member(&mut out, policy, ",\"port\":", port);
    push_member(&mut out, policy, ",\"data\":", data_json);
    push_number_member(&mut out, policy, ",\"weight\":", weight);
    out.append("}");
    out
}

/// A builder for requests on the DNS records of a domain as a whole.
pub type DnsRecordsRequest<'t> = RequestBuilder<'t, response::DnsRecords>;

/// A builder for requests on one DNS record.
pub type DnsRecordRequest<'t> = RequestBuilder<'t, response::DnsRecord>;

impl<'t> RequestBuilder<'t, response::DnsRecords> {
    /// A request that creates `record`: a POST to the same URL, with the same
    /// credential, whose body is the record's JSON.
    pub fn create(self, record: &DnsRecord) -> (r: Result<DnsRecordRequest<'t>, RequestError>)
        ensures
            r is Ok,
            r matches Ok(b) ==> b@ == (RequestSpec {
                method: HttpMethod::Post,
                auth: self@.auth,
                url: self@.url,
                body: Some(record.json()),
            }),
    {
        match record.to_json() {
            Ok(body) => Ok(self.transition(HttpMethod::Post, Some(body))),
            Err(e) => Err(e),
        }
    }
}

impl<'t> RequestBuilder<'t, response::DnsRecord> {
    /// A request that replaces this record by `record`: a PUT to the same URL,
    /// with the same credential, whose body is the record's JSON.
    pub fn update(self, record: &DnsRecord) -> (r: Result<DnsRecordRequest<'t>, RequestError>)
        ensures
            r is Ok,
            r matches Ok(b) ==> b@ == (RequestSpec {
                method: HttpMethod::Put,
                auth: self@.auth,
                url: self@.url,
                body: Some(record.json()),
            }),
    {
        match record.to_json() {
            Ok(body) => Ok(self.transition(HttpMethod::Put, Some(body))),
            Err(e) => Err(e),
        }
    }

    /// A request that deletes this record: a DELETE to the same URL, with the
    /// same credential and no body, answered by headers only.
    pub fn delete(self) -> (r: RequestBuilder<'t, response::HeaderOnly>)
        ensures
            r@ == (RequestSpec {
                method: HttpMethod::Delete,
                auth: self@.auth,
                url: self@.url,
                body: None,
            }),
    {
        self.transition(HttpMethod::Delete, None)
    }
}

} // verus!
