//! Cloudflare DNS and cache: the requests this service sends and how it reads
//! the answers.
use vstd::prelude::*;
use vstd::string::*;
use crate::error::{AppError, CloudflareError, Result};
use crate::config::CloudflareConfig;
use crate::validation::{validate_not_empty, not_empty_outcome};
use crate::deployment::pipeline::{bytes, first_error};
use crate::providers::github::{url_encode, percent_encoded};
use crate::text::str_eq;

verus! {

pub const CLOUDFLARE_API_BASE: &'static str = "https://api.cloudflare.com/client/v4";
pub const TIMEOUT_SECONDS: u64 = 30;

#[derive(Debug, Clone)]
pub struct DnsRecord {
    pub id: String,
    pub name: String,
    pub type_: String,
    pub content: String,
    pub ttl: u32,
    pub proxied: bool,
}

#[derive(Debug, Clone)]
pub struct CreateDnsRecord {
    pub type_: String,
    pub name: String,
    pub content: String,
    pub ttl: u32,
    pub proxied: bool,
}

/// The body of a cache purge: the files given, or everything when none are.
pub struct PurgeRequest {
    pub files: Option<Vec<String>>,
    pub purge_everything: bool,
}

/// The record types that may be created.
pub open spec fn is_valid_record_type(t: Seq<char>) -> bool {
    t == "A"@ || t == "AAAA"@ || t == "CNAME"@ || t == "TXT"@ || t == "MX"@ || t == "NS"@
}

pub struct CloudflareProvider {
    token: String,
    zone_id: String,
}

/// `r` is the record-type error for `t`.
pub open spec fn is_invalid_record_type(r: Result<()>, t: Seq<char>) -> bool {
    match r {
        Err(AppError::Cloudflare(CloudflareError::InvalidRecordType { type_ })) => type_@ == t,
        _ => false,
    }
}

impl CloudflareProvider {
    pub closed spec fn spec_token(&self) -> String {
        self.token
    }

    pub closed spec fn spec_zone_id(&self) -> String {
        self.zone_id
    }

    /// The URL of the zone's DNS records.
    pub open spec fn records_path(&self) -> Seq<char> {
        "https://api.cloudflare.com/client/v4/zones/"@ + self.spec_zone_id()@ + "/dns_records"@
    }

    pub fn new(config: &CloudflareConfig) -> (p: CloudflareProvider)
        ensures
            p.spec_token() == config.api_token,
            p.spec_zone_id() == config.zone_id,
    {
        CloudflareProvider { token: config.api_token.clone(), zone_id: config.zone_id.clone() }
    }

    /// The value of the `Authorization` header of every request.
    pub fn authorization(&self) -> (h: String)
        ensures
            h@ == "Bearer "@ + self.spec_token()@,
    {
        let mut h = "Bearer ".to_owned();
        h.append(self.token.as_str());
        h
    }

    fn records_base(&self) -> (url: String)
        ensures
            url@ == self.records_path(),
    {
        let mut url = "https://api.cloudflare.com/client/v4/zones/".to_owned();
        url.append(self.zone_id.as_str());
        url.append("/dns_records");
        url
    }

    /// The URL that lists the zone's records, filtered by name when one is given.
    pub fn list_records_url(&self, name_filter: Option<&str>) -> (url: String)
        ensures
            url@ == match name_filter {
                Some(name) => self.records_path() + "?name="@ + percent_encoded(name.spec_bytes()),
                None => self.records_path(),
            },
    {
        let mut url = self.records_base();
        if let Some(name) = name_filter {
            url.append("?name=");
            let n = url_encode(name);
            url.append(n.as_str());
        }
        url
    }

    /// The URL that creates a record in the zone.
    pub fn create_record_url(&self) -> (url: String)
        ensures
            url@ == self.records_path(),
    {
        self.records_base()
    }

    /// The URL of one record, once its identifier is not empty.
    pub fn record_url(&self, record_id: &str) -> (r: Result<String>)
        ensures
            match not_empty_outcome(record_id.spec_bytes(), "record_id") {
                Err(e) => r == Err::<String, AppError>(e),
                Ok(()) => r matches Ok(url) && url@ == self.records_path() + "/"@ + percent_encoded(record_id.spec_bytes()),
            },
    {
        if let Err(e) = validate_not_empty(record_id, "record_id") {
            return Err(e);
        }
        let mut url = self.records_base();
        url.append("/");
        let id = url_encode(record_id);
        url.append(id.as_str());
        Ok(url)
    }

    /// The URL that purges the zone's cache.
    pub fn purge_url(&self) -> (url: String)
        ensures
            url@ == "https://api.cloudflare.com/client/v4/zones/"@ + self.spec_zone_id()@ + "/purge_cache"@,
    {
        let mut url = "https://api.cloudflare.com/client/v4/zones/".to_owned();
        url.append(self.zone_id.as_str());
        url.append("/purge_cache");
        url
    }

    /// The body of a purge: the files given, or everything.
    pub fn purge_request(files: Option<Vec<String>>) -> (p: PurgeRequest)
        ensures
            p.files == files,
            p.purge_everything == (files is None),
    {
        let purge_everything = files.is_none();
        PurgeRequest { files, purge_everything }
    }

    /// Checks a record before it is created: a name, a content and a known type.
    pub fn validate_new_record(record: &CreateDnsRecord) -> (r: Result<()>)
        ensures
            not_empty_outcome(bytes(record.name), "name") is Err ==> r == not_empty_outcome(bytes(record.name), "name"),
            not_empty_outcome(bytes(record.name), "name") is Ok && not_empty_outcome(bytes(record.content), "content") is Err
                ==> r == not_empty_outcome(bytes(record.content), "content"),
            bytes(record.name).len() > 0 && bytes(record.content).len() > 0 ==> {
                &&& (r is Ok <==> is_valid_record_type(record.type_@))
                &&& r is Err ==> is_invalid_record_type(r, record.type_@)
            },
    {
        if let Err(e) = validate_not_empty(record.name.as_str(), "name") {
            return Err(e);
        }
        if let Err(e) = validate_not_empty(record.content.as_str(), "content") {
            return Err(e);
        }
        let t = record.type_.as_str();
        if !(str_eq(t, "A") || str_eq(t, "AAAA") || str_eq(t, "CNAME") || str_eq(t, "TXT") || str_eq(t, "MX")
            || str_eq(t, "NS")) {
            return Err(AppError::Cloudflare(CloudflareError::InvalidRecordType { type_: record.type_.clone() }));
        }
        Ok(())
    }

    /// Checks an update: a record identifier and a name.
    pub fn validate_update(record_id: &str, record: &CreateDnsRecord) -> (r: Result<()>)
        ensures
            r == first_error(not_empty_outcome(record_id.spec_bytes(), "record_id"),
                not_empty_outcome(bytes(record.name), "name")),
    {
        if let Err(e) = validate_not_empty(record_id, "record_id") {
            return Err(e);
        }
        validate_not_empty(record.name.as_str(), "name")
    }

    /// The error for an unsuccessful HTTP status, with the answer's body.
    pub fn status_error(status: u16, body: String) -> (e: AppError)
        ensures
            e == AppError::Cloudflare(CloudflareError::ApiError { code: status as u32, message: body }),
    {
        AppError::Cloudflare(CloudflareError::ApiError { code: status as u32, message: body })
    }

    /// Reads the envelope of an answer that carries one record: the record when
    /// the API reports success and sends one, and otherwise the API's first error
    /// (code 0 and message `unknown` when it lists none) or the missing result.
    pub fn record_from_envelope(
        operation: &'static str,
        success: bool,
        result: Option<DnsRecord>,
        first_error: Option<(u32, String)>,
    ) -> (r: Result<DnsRecord>)
        ensures
            !success ==> match first_error {
                Some((code, message)) => r == Err::<DnsRecord, AppError>(
                    AppError::Cloudflare(CloudflareError::ApiError { code, message })),
                None => r matches Err(AppError::Cloudflare(CloudflareError::ApiError { code, message }))
                    && code == 0 && message@ == "unknown"@,
            },
            success && result is None ==> (r matches Err(AppError::Cloudflare(CloudflareError::RequestFailed { operation: op, reason }))
                && op == operation && reason@ == "no result in response"@),
            success && result is Some ==> r == Ok::<DnsRecord, AppError>(result.unwrap()),
    {
        if !success {
            return match first_error {
                Some((code, message)) => Err(AppError::Cloudflare(CloudflareError::ApiError { code, message })),
                None => Err(AppError::Cloudflare(CloudflareError::ApiError { code: 0, message: "unknown".to_owned() })),
            };
        }
        match result {
            Some(record) => Ok(record),
            None => Err(AppError::Cloudflare(CloudflareError::RequestFailed {
                operation,
                reason: "no result in response".to_owned(),
            })),
        }
    }
}

} // verus!
