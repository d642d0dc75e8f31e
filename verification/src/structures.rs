//! Structures corresponding to various API elements

use vstd::prelude::*;

use crate::json::{
    append_json_str, arr_field_ok, arr_rel, as_str_opt, bool_field, bool_field_ok,
    get_arr_field, get_bool_field, get_field, get_i32_field, get_opt_bool_field, get_opt_i32_field,
    get_opt_i8_field, get_opt_str_field, get_str_field, get_struct_field, get_u16_field,
    get_u32_field, get_u8_field, int_field, int_field_ok, json_str_lit, jval_of, obj_entries,
    obj_has_key, obj_key, opt_bool_field, opt_bool_field_ok, opt_int_field, opt_int_field_ok,
    opt_str_field, opt_str_field_ok, str_field, str_field_ok, str_is, struct_field_ok, FromJson,
    JVal,
};

verus! {

/// An HTTP request error
#[derive(Debug, Clone, Copy, PartialEq, Eq)]
pub struct RequestError {
    /// HTTP status code as defined in RFC 9110.
    pub status_code: u16,
}

/// One outcome of a dispatched call that did not yield a decoded reply.
#[derive(Debug, Clone, Copy, PartialEq, Eq)]
pub enum DispatchError {
    /// The exchange failed below the HTTP layer: connection, name
    /// resolution, or a timeout of the transport itself.
    TransportFailure,
    /// The remote service answered with a status other than 200; the body
    /// is discarded, only the code is carried.
    RemoteStatusFailure(RequestError),
    /// A 200 reply whose body is not JSON of the expected shape.
    DecodeFailure,
    /// An authenticated call was attempted on a handle without a
    /// credential; the typed handles make this unreachable.
    PreconditionViolation,
}

/// A JSON string decodes to the text it holds.
impl FromJson for String {
    open spec fn json_ok(j: JVal) -> bool {
        j is Str
    }

    open spec fn json_rel(j: JVal, t: Self) -> bool {
        t@ == j->Str_0
    }

    fn from_json(v: &serde_json::Value) -> (r: Option<Self>) {
        match as_str_opt(v) {
            Some(s) => Some(s.to_owned()),
            None => None,
        }
    }
}

/// Status of a request
#[derive(Debug, PartialEq)]
pub struct RequestStatus {
    /// HTTP status code of the request response
    pub status_code: u16,
    /// `true` if request completed successfully, `false` otherwise.
    pub success: bool,
}

impl FromJson for RequestStatus {
    open spec fn json_ok(j: JVal) -> bool {
        &&& int_field_ok(j, "status_code"@, 0, u16::MAX as int)
        &&& bool_field_ok(j, "success"@)
    }

    open spec fn json_rel(j: JVal, t: Self) -> bool {
        &&& t.status_code as int == int_field(j, "status_code"@)
        &&& t.success == bool_field(j, "success"@)
    }

    fn from_json(v: &serde_json::Value) -> (r: Option<Self>) {
        let status_code = match get_u16_field(v, "status_code") {
            Some(x) => x,
            None => return None,
        };
        let success = match get_bool_field(v, "success") {
            Some(x) => x,
            None => return None,
        };
        Some(RequestStatus { status_code, success })
    }
}

/// Response to a REST API request.
#[derive(Debug, PartialEq)]
pub struct RequestResponse<T> {
    pub request: RequestStatus,
    pub response: T,
}

impl<T: FromJson> FromJson for RequestResponse<T> {
    open spec fn json_ok(j: JVal) -> bool {
        &&& struct_field_ok::<RequestStatus>(j, "request"@)
        &&& struct_field_ok::<T>(j, "response"@)
    }

    open spec fn json_rel(j: JVal, t: Self) -> bool {
        &&& RequestStatus::json_rel(obj_key(j, "request"@), t.request)
        &&& T::json_rel(obj_key(j, "response"@), t.response)
    }

    fn from_json(v: &serde_json::Value) -> (r: Option<Self>) {
        let request = match get_struct_field::<RequestStatus>(v, "request") {
            Some(x) => x,
            None => return None,
        };
        let response = match get_struct_field::<T>(v, "response") {
            Some(x) => x,
            None => return None,
        };
        Some(RequestResponse { request, response })
    }
}

/// Struct for when the server returns a String message
#[derive(Debug, PartialEq)]
pub struct MessageResponse {
    /// Status message returned by the API
    pub message: String,
}

impl FromJson for MessageResponse {
    open spec fn json_ok(j: JVal) -> bool {
        str_field_ok(j, "message"@)
    }

    open spec fn json_rel(j: JVal, t: Self) -> bool {
        t.message@ == str_field(j, "message"@)
    }

    fn from_json(v: &serde_json::Value) -> (r: Option<Self>) {
        let message = match get_str_field(v, "message") {
            Some(x) => x,
            None => return None,
        };
        Some(MessageResponse { message })
    }
}

/// DNS record types supported by omg.lol DNS routing.
#[derive(Debug, PartialEq, Eq, Clone, Copy)]
pub enum DNStype {
    A,
    AAA,
    CAA,
    CNAME,
    MX,
    NS,
    SRV,
    TXT,
}

/// The record type written as text, as the DNS record JSON writes it.
pub open spec fn dnstype_text(t: DNStype) -> Seq<char> {
    match t {
        DNStype::A => "A"@,
        DNStype::AAA => "AAA"@,
        DNStype::CAA => "CAA"@,
        DNStype::CNAME => "CNAME"@,
        DNStype::MX => "MX"@,
        DNStype::NS => "NS"@,
        DNStype::SRV => "SRV"@,
        DNStype::TXT => "TXT"@,
    }
}

/// The record type a text names, or `None` for any other text.
pub open spec fn dnstype_of(s: Seq<char>) -> Option<DNStype> {
    if s == "A"@ {
        Some(DNStype::A)
    } else if s == "AAA"@ {
        Some(DNStype::AAA)
    } else if s == "CAA"@ {
        Some(DNStype::CAA)
    } else if s == "CNAME"@ {
        Some(DNStype::CNAME)
    } else if s == "MX"@ {
        Some(DNStype::MX)
    } else if s == "NS"@ {
        Some(DNStype::NS)
    } else if s == "SRV"@ {
        Some(DNStype::SRV)
    } else if s == "TXT"@ {
        Some(DNStype::TXT)
    } else {
        None
    }
}

impl DNStype {
    /// The record type as text.
    pub fn as_string(&self) -> (r: String)
        ensures
            r@ == dnstype_text(*self),
    {
        match self {
            DNStype::A => "A".to_owned(),
            DNStype::AAA => "AAA".to_owned(),
            DNStype::CAA => "CAA".to_owned(),
            DNStype::CNAME => "CNAME".to_owned(),
            DNStype::MX => "MX".to_owned(),
            DNStype::NS => "NS".to_owned(),
            DNStype::SRV => "SRV".to_owned(),
            DNStype::TXT => "TXT".to_owned(),
        }
    }
}

impl FromJson for DNStype {
    open spec fn json_ok(j: JVal) -> bool {
        j is Str && dnstype_of(j->Str_0) is Some
    }

    open spec fn json_rel(j: JVal, t: Self) -> bool {
        dnstype_of(j->Str_0) == Some(t)
    }

    fn from_json(v: &serde_json::Value) -> (r: Option<Self>) {
        let s = match as_str_opt(v) {
            Some(s) => s,
            None => return None,
        };
        if str_is(s, "A") {
            Some(DNStype::A)
        } else if str_is(s, "AAA") {
            Some(DNStype::AAA)
        } else if str_is(s, "CAA") {
            Some(DNStype::CAA)
        } else if str_is(s, "CNAME") {
            Some(DNStype::CNAME)
        } else if str_is(s, "MX") {
            Some(DNStype::MX)
        } else if str_is(s, "NS") {
            Some(DNStype::NS)
        } else if str_is(s, "SRV") {
            Some(DNStype::SRV)
        } else if str_is(s, "TXT") {
            Some(DNStype::TXT)
        } else {
            None
        }
    }
}

/// DNS record
#[derive(Debug, PartialEq)]
pub struct DNSrecord {
    /// Record ID
    pub id: i32,
    /// Domain relative to omg.lol zone
    pub name: String,
    /// Entry data/target
    pub data: String,
    /// Record priority, if applicable
    pub priority: Option<i32>,
    /// Record TTL (time to live)
    pub ttl: i32,
    /// Creation timestamp in ISO 8601 format, if applicable
    pub created_at: Option<String>,
    /// Last update timestamp in ISO 8601 format, if applicable
    pub updated_at: Option<String>,
    /// DNS record type
    pub record_type: DNStype,
}

impl FromJson for DNSrecord {
    open spec fn json_ok(j: JVal) -> bool {
        &&& int_field_ok(j, "id"@, i32::MIN as int, i32::MAX as int)
        &&& str_field_ok(j, "name"@)
        &&& str_field_ok(j, "data"@)
        &&& opt_int_field_ok(j, "priority"@, i32::MIN as int, i32::MAX as int)
        &&& int_field_ok(j, "ttl"@, i32::MIN as int, i32::MAX as int)
        &&& opt_str_field_ok(j, "created_at"@)
        &&& opt_str_field_ok(j, "updated_at"@)
        &&& struct_field_ok::<DNStype>(j, "type"@)
    }

    open spec fn json_rel(j: JVal, t: Self) -> bool {
        &&& t.id as int == int_field(j, "id"@)
        &&& t.name@ == str_field(j, "name"@)
        &&& t.data@ == str_field(j, "data"@)
        &&& (t.priority is Some <==> opt_int_field(j, "priority"@) is Some)
        &&& (t.priority matches Some(p) ==> Some(p as int) == opt_int_field(j, "priority"@))
        &&& t.ttl as int == int_field(j, "ttl"@)
        &&& (t.created_at is Some <==> opt_str_field(j, "created_at"@) is Some)
        &&& (t.created_at matches Some(s) ==> Some(s@) == opt_str_field(j, "created_at"@))
        &&& (t.updated_at is Some <==> opt_str_field(j, "updated_at"@) is Some)
        &&& (t.updated_at matches Some(s) ==> Some(s@) == opt_str_field(j, "updated_at"@))
        &&& DNStype::json_rel(obj_key(j, "type"@), t.record_type)
    }

    fn from_json(v: &serde_json::Value) -> (r: Option<Self>) {
        let id = match get_i32_field(v, "id") {
            Some(x) => x,
            None => return None,
        };
        let name = match get_str_field(v, "name") {
            Some(x) => x,
            None => return None,
        };
        let data = match get_str_field(v, "data") {
            Some(x) => x,
            None => return None,
        };
        let priority = match get_opt_i32_field(v, "priority") {
            Some(x) => x,
            None => return None,
        };
        let ttl = match get_i32_field(v, "ttl") {
            Some(x) => x,
            None => return None,
        };
        let created_at = match get_opt_str_field(v, "created_at") {
            Some(x) => x,
            None => return None,
        };
        let updated_at = match get_opt_str_field(v, "updated_at") {
            Some(x) => x,
            None => return None,
        };
        let record_type = match get_struct_field::<DNStype>(v, "type") {
            Some(x) => x,
            None => return None,
        };
        Some(DNSrecord { id, name, data, priority, ttl, created_at, updated_at, record_type })
    }
}

/// Successful DNS records request response
#[derive(Debug, PartialEq)]
pub struct DNSrecords {
    /// Status message returned by the API
    pub message: String,
    /// Vector of DNS records
    pub dns: Vec<DNSrecord>,
}

impl FromJson for DNSrecords {
    open spec fn json_ok(j: JVal) -> bool {
        &&& str_field_ok(j, "message"@)
        &&& arr_field_ok::<DNSrecord>(j, "dns"@)
    }

    open spec fn json_rel(j: JVal, t: Self) -> bool {
        &&& t.message@ == str_field(j, "message"@)
        &&& arr_rel::<DNSrecord>(obj_key(j, "dns"@), t.dns@)
    }

    fn from_json(v: &serde_json::Value) -> (r: Option<Self>) {
        let message = match get_str_field(v, "message") {
            Some(x) => x,
            None => return None,
        };
        let dns = match get_arr_field::<DNSrecord>(v, "dns") {
            Some(x) => x,
            None => return None,
        };
        Some(DNSrecords { message, dns })
    }
}

/// String representations of a moment in time according to different protocols.
#[derive(Debug, PartialEq)]
pub struct TimeStrings {
    /// String of seconds elapsed since the UNIX epoch (1970-01-01 00:00:00 UTC)
    pub unix_epoch_time: String,
    /// Time in ISO 8601 format.
    pub iso_8601_time: String,
    /// Time in RFC 2822 format.
    pub rfc_2822_time: String,
    /// Relative time string, e.g. "20 minutes ago".
    pub relative_time: String,
    /// Message provided by the API server in response to some requests.
    pub message: Option<String>,
}

impl FromJson for TimeStrings {
    open spec fn json_ok(j: JVal) -> bool {
        &&& str_field_ok(j, "unix_epoch_time"@)
        &&& str_field_ok(j, "iso_8601_time"@)
        &&& str_field_ok(j, "rfc_2822_time"@)
        &&& str_field_ok(j, "relative_time"@)
        &&& opt_str_field_ok(j, "message"@)
    }

    open spec fn json_rel(j: JVal, t: Self) -> bool {
        &&& t.unix_epoch_time@ == str_field(j, "unix_epoch_time"@)
        &&& t.iso_8601_time@ == str_field(j, "iso_8601_time"@)
        &&& t.rfc_2822_time@ == str_field(j, "rfc_2822_time"@)
        &&& t.relative_time@ == str_field(j, "relative_time"@)
        &&& (t.message is Some <==> opt_str_field(j, "message"@) is Some)
        &&& (t.message matches Some(s) ==> Some(s@) == opt_str_field(j, "message"@))
    }

    fn from_json(v: &serde_json::Value) -> (r: Option<Self>) {
        let unix_epoch_time = match get_str_field(v, "unix_epoch_time") {
            Some(x) => x,
            None => return None,
        };
        let iso_8601_time = match get_str_field(v, "iso_8601_time") {
            Some(x) => x,
            None => return None,
        };
        let rfc_2822_time = match get_str_field(v, "rfc_2822_time") {
            Some(x) => x,
            None => return None,
        };
        let relative_time = match get_str_field(v, "relative_time") {
            Some(x) => x,
            None => return None,
        };
        let message = match get_opt_str_field(v, "message") {
            Some(x) => x,
            None => return None,
        };
        Some(TimeStrings { unix_epoch_time, iso_8601_time, rfc_2822_time, relative_time, message })
    }
}

/// User-defined account settings
#[derive(Debug, PartialEq)]
pub struct AccountSettings {
    /// Email address of account owner
    pub owner: String,
    /// Opt-in for email communications
    pub communication: Option<String>,
    /// Date format the account chose
    pub date_format: Option<String>,
    /// Which web editor the user chose to use
    pub web_editor: String,
}

impl FromJson for AccountSettings {
    open spec fn json_ok(j: JVal) -> bool {
        &&& str_field_ok(j, "owner"@)
        &&& opt_str_field_ok(j, "communication"@)
        &&& opt_str_field_ok(j, "date_format"@)
        &&& str_field_ok(j, "web_editor"@)
    }

    open spec fn json_rel(j: JVal, t: Self) -> bool {
        &&& t.owner@ == str_field(j, "owner"@)
        &&& (t.communication is Some <==> opt_str_field(j, "communication"@) is Some)
        &&& (t.communication matches Some(s) ==> Some(s@) == opt_str_field(j, "communication"@))
        &&& (t.date_format is Some <==> opt_str_field(j, "date_format"@) is Some)
        &&& (t.date_format matches Some(s) ==> Some(s@) == opt_str_field(j, "date_format"@))
        &&& t.web_editor@ == str_field(j, "web_editor"@)
    }

    fn from_json(v: &serde_json::Value) -> (r: Option<Self>) {
        let owner = match get_str_field(v, "owner") {
            Some(x) => x,
            None => return None,
        };
        let communication = match get_opt_str_field(v, "communication") {
            Some(x) => x,
            None => return None,
        };
        let date_format = match get_opt_str_field(v, "date_format") {
            Some(x) => x,
            None => return None,
        };
        let web_editor = match get_str_field(v, "web_editor") {
            Some(x) => x,
            None => return None,
        };
        Some(AccountSettings { owner, communication, date_format, web_editor })
    }
}

/// Information about the account that owns an API key.
#[derive(Debug, PartialEq)]
pub struct AccountResponse {
    /// Status message returned by the API
    pub message: String,
    /// Email associated with the account
    pub email: String,
    /// Name associated with the account
    pub name: String,
    /// API key
    pub api_key: String,
    /// Timestamp of account creation
    pub created: TimeStrings,
    /// User-defined account settings
    pub settings: AccountSettings,
}

impl FromJson for AccountResponse {
    open spec fn json_ok(j: JVal) -> bool {
        &&& str_field_ok(j, "message"@)
        &&& str_field_ok(j, "email"@)
        &&& str_field_ok(j, "name"@)
        &&& str_field_ok(j, "api_key"@)
        &&& struct_field_ok::<TimeStrings>(j, "created"@)
        &&& struct_field_ok::<AccountSettings>(j, "settings"@)
    }

    open spec fn json_rel(j: JVal, t: Self) -> bool {
        &&& t.message@ == str_field(j, "message"@)
        &&& t.email@ == str_field(j, "email"@)
        &&& t.name@ == str_field(j, "name"@)
        &&& t.api_key@ == str_field(j, "api_key"@)
        &&& TimeStrings::json_rel(obj_key(j, "created"@), t.created)
        &&& AccountSettings::json_rel(obj_key(j, "settings"@), t.settings)
    }

    fn from_json(v: &serde_json::Value) -> (r: Option<Self>) {
        let message = match get_str_field(v, "message") {
            Some(x) => x,
            None => return None,
        };
        let email = match get_str_field(v, "email") {
            Some(x) => x,
            None => return None,
        };
        let name = match get_str_field(v, "name") {
            Some(x) => x,
            None => return None,
        };
        let api_key = match get_str_field(v, "api_key") {
            Some(x) => x,
            None => return None,
        };
        let created = match get_struct_field::<TimeStrings>(v, "created") {
            Some(x) => x,
            None => return None,
        };
        let settings = match get_struct_field::<AccountSettings>(v, "settings") {
            Some(x) => x,
            None => return None,
        };
        Some(AccountResponse { message, email, name, api_key, created, settings })
    }
}

/// Response to a request to determine if an account is verified
#[derive(Debug, PartialEq)]
pub struct Verification {
    /// Status message returned by the API
    pub message: String,
    /// True if the account is verified, false otherwise
    pub verified: bool,
}

impl FromJson for Verification {
    open spec fn json_ok(j: JVal) -> bool {
        &&& str_field_ok(j, "message"@)
        &&& bool_field_ok(j, "verified"@)
    }

    open spec fn json_rel(j: JVal, t: Self) -> bool {
        &&& t.message@ == str_field(j, "message"@)
        &&& t.verified == bool_field(j, "verified"@)
    }

    fn from_json(v: &serde_json::Value) -> (r: Option<Self>) {
        let message = match get_str_field(v, "message") {
            Some(x) => x,
            None => return None,
        };
        let verified = match get_bool_field(v, "verified") {
            Some(x) => x,
            None => return None,
        };
        Some(Verification { message, verified })
    }
}

/// Address expiration time in different string formats
#[derive(Debug, PartialEq)]
pub struct Expiration {
    /// Status message returned by the API
    pub message: String,
    /// True if the domain has expired, false otherwise
    pub expired: bool,
    /// False if the domain has a lifetime registration, true otherwise
    pub will_expire: Option<bool>,
    /// Unix time
    pub unix_epoch_time: Option<String>,
    /// Time in ISO 8601 format
    pub iso_8601_time: Option<String>,
    /// Time in RFC 2822 format
    pub rfc_2822_time: Option<String>,
    /// Relative time in English
    pub relative_time: Option<String>,
}

impl FromJson for Expiration {
    open spec fn json_ok(j: JVal) -> bool {
        &&& str_field_ok(j, "message"@)
        &&& bool_field_ok(j, "expired"@)
        &&& opt_bool_field_ok(j, "will_expire"@)
        &&& opt_str_field_ok(j, "unix_epoch_time"@)
        &&& opt_str_field_ok(j, "iso_8601_time"@)
        &&& opt_str_field_ok(j, "rfc_2822_time"@)
        &&& opt_str_field_ok(j, "relative_time"@)
    }

    open spec fn json_rel(j: JVal, t: Self) -> bool {
        &&& t.message@ == str_field(j, "message"@)
        &&& t.expired == bool_field(j, "expired"@)
        &&& t.will_expire == opt_bool_field(j, "will_expire"@)
        &&& (t.unix_epoch_time is Some <==> opt_str_field(j, "unix_epoch_time"@) is Some)
        &&& (t.unix_epoch_time matches Some(s) ==> Some(s@) == opt_str_field(j, "unix_epoch_time"@))
        &&& (t.iso_8601_time is Some <==> opt_str_field(j, "iso_8601_time"@) is Some)
        &&& (t.iso_8601_time matches Some(s) ==> Some(s@) == opt_str_field(j, "iso_8601_time"@))
        &&& (t.rfc_2822_time is Some <==> opt_str_field(j, "rfc_2822_time"@) is Some)
        &&& (t.rfc_2822_time matches Some(s) ==> Some(s@) == opt_str_field(j, "rfc_2822_time"@))
        &&& (t.relative_time is Some <==> opt_str_field(j, "relative_time"@) is Some)
        &&& (t.relative_time matches Some(s) ==> Some(s@) == opt_str_field(j, "relative_time"@))
    }

    fn from_json(v: &serde_json::Value) -> (r: Option<Self>) {
        let message = match get_str_field(v, "message") {
            Some(x) => x,
            None => return None,
        };
        let expired = match get_bool_field(v, "expired") {
            Some(x) => x,
            None => return None,
        };
        let will_expire = match get_opt_bool_field(v, "will_expire") {
            Some(x) => x,
            None => return None,
        };
        let unix_epoch_time = match get_opt_str_field(v, "unix_epoch_time") {
            Some(x) => x,
            None => return None,
        };
        let iso_8601_time = match get_opt_str_field(v, "iso_8601_time") {
            Some(x) => x,
            None => return None,
        };
        let rfc_2822_time = match get_opt_str_field(v, "rfc_2822_time") {
            Some(x) => x,
            None => return None,
        };
        let relative_time = match get_opt_str_field(v, "relative_time") {
            Some(x) => x,
            None => return None,
        };
        Some(
            Expiration {
                message,
                expired,
                will_expire,
                unix_epoch_time,
                iso_8601_time,
                rfc_2822_time,
                relative_time,
            },
        )
    }
}

/// Address registered with omg.lol
#[derive(Debug, PartialEq)]
pub struct Address {
    /// String of address, without ".omg.lol"
    pub address: String,
    /// Status message returned by the API
    pub message: String,
    /// Time of address registration
    pub registration: TimeStrings,
    /// Time of address expiration
    pub expiration: Expiration,
    /// Verification status of address
    pub verification: Verification,
    /// Email of the address' owner, if it exists
    pub owner: Option<String>,
}

impl FromJson for Address {
    open spec fn json_ok(j: JVal) -> bool {
        &&& str_field_ok(j, "address"@)
        &&& str_field_ok(j, "message"@)
        &&& struct_field_ok::<TimeStrings>(j, "registration"@)
        &&& struct_field_ok::<Expiration>(j, "expiration"@)
        &&& struct_field_ok::<Verification>(j, "verification"@)
        &&& opt_str_field_ok(j, "owner"@)
    }

    open spec fn json_rel(j: JVal, t: Self) -> bool {
        &&& t.address@ == str_field(j, "address"@)
        &&& t.message@ == str_field(j, "message"@)
        &&& TimeStrings::json_rel(obj_key(j, "registration"@), t.registration)
        &&& Expiration::json_rel(obj_key(j, "expiration"@), t.expiration)
        &&& Verification::json_rel(obj_key(j, "verification"@), t.verification)
        &&& (t.owner is Some <==> opt_str_field(j, "owner"@) is Some)
        &&& (t.owner matches Some(s) ==> Some(s@) == opt_str_field(j, "owner"@))
    }

    fn from_json(v: &serde_json::Value) -> (r: Option<Self>) {
        let address = match get_str_field(v, "address") {
            Some(x) => x,
            None => return None,
        };
        let message = match get_str_field(v, "message") {
            Some(x) => x,
            None => return None,
        };
        let registration = match get_struct_field::<TimeStrings>(v, "registration") {
            Some(x) => x,
            None => return None,
        };
        let expiration = match get_struct_field::<Expiration>(v, "expiration") {
            Some(x) => x,
            None => return None,
        };
        let verification = match get_struct_field::<Verification>(v, "verification") {
            Some(x) => x,
            None => return None,
        };
        let owner = match get_opt_str_field(v, "owner") {
            Some(x) => x,
            None => return None,
        };
        Some(Address { address, message, registration, expiration, verification, owner })
    }
}

/// Forwarding addresses for your @omg.lol email address
#[derive(Debug, PartialEq)]
pub struct ForwardingAddresses {
    /// Status message returned by the API
    pub message: String,
    pub destination_string: String,
    pub destination_array: Vec<String>,
    pub address: String,
    pub email_address: String,
}

impl FromJson for ForwardingAddresses {
    open spec fn json_ok(j: JVal) -> bool {
        &&& str_field_ok(j, "message"@)
        &&& str_field_ok(j, "destination_string"@)
        &&& arr_field_ok::<String>(j, "destination_array"@)
        &&& str_field_ok(j, "address"@)
        &&& str_field_ok(j, "email_address"@)
    }

    open spec fn json_rel(j: JVal, t: Self) -> bool {
        &&& t.message@ == str_field(j, "message"@)
        &&& t.destination_string@ == str_field(j, "destination_string"@)
        &&& arr_rel::<String>(obj_key(j, "destination_array"@), t.destination_array@)
        &&& t.address@ == str_field(j, "address"@)
        &&& t.email_address@ == str_field(j, "email_address"@)
    }

    fn from_json(v: &serde_json::Value) -> (r: Option<Self>) {
        let message = match get_str_field(v, "message") {
            Some(x) => x,
            None => return None,
        };
        let destination_string = match get_str_field(v, "destination_string") {
            Some(x) => x,
            None => return None,
        };
        let destination_array = match get_arr_field::<String>(v, "destination_array") {
            Some(x) => x,
            None => return None,
        };
        let address = match get_str_field(v, "address") {
            Some(x) => x,
            None => return None,
        };
        let email_address = match get_str_field(v, "email_address") {
            Some(x) => x,
            None => return None,
        };
        Some(
            ForwardingAddresses {
                message,
                destination_string,
                destination_array,
                address,
                email_address,
            },
        )
    }
}

/// Now page
#[derive(Debug, PartialEq)]
pub struct NowPage {
    pub content: String,
    pub updated: u32,
    pub listed: u8,
    pub nudge: u8,
    pub metadata: String,
}

impl FromJson for NowPage {
    open spec fn json_ok(j: JVal) -> bool {
        &&& str_field_ok(j, "content"@)
        &&& int_field_ok(j, "updated"@, 0, u32::MAX as int)
        &&& int_field_ok(j, "listed"@, 0, u8::MAX as int)
        &&& int_field_ok(j, "nudge"@, 0, u8::MAX as int)
        &&& str_field_ok(j, "metadata"@)
    }

    open spec fn json_rel(j: JVal, t: Self) -> bool {
        &&& t.content@ == str_field(j, "content"@)
        &&& t.updated as int == int_field(j, "updated"@)
        &&& t.listed as int == int_field(j, "listed"@)
        &&& t.nudge as int == int_field(j, "nudge"@)
        &&& t.metadata@ == str_field(j, "metadata"@)
    }

    fn from_json(v: &serde_json::Value) -> (r: Option<Self>) {
        let content = match get_str_field(v, "content") {
            Some(x) => x,
            None => return None,
        };
        let updated = match get_u32_field(v, "updated") {
            Some(x) => x,
            None => return None,
        };
        let listed = match get_u8_field(v, "listed") {
            Some(x) => x,
            None => return None,
        };
        let nudge = match get_u8_field(v, "nudge") {
            Some(x) => x,
            None => return None,
        };
        let metadata = match get_str_field(v, "metadata") {
            Some(x) => x,
            None => return None,
        };
        Some(NowPage { content, updated, listed, nudge, metadata })
    }
}

/// Response to a query to a Now page endpoint
#[derive(Debug, PartialEq)]
pub struct NowResponse {
    pub message: String,
    pub now: Vec<NowPage>,
}

impl FromJson for NowResponse {
    open spec fn json_ok(j: JVal) -> bool {
        &&& str_field_ok(j, "message"@)
        &&& arr_field_ok::<NowPage>(j, "now"@)
    }

    open spec fn json_rel(j: JVal, t: Self) -> bool {
        &&& t.message@ == str_field(j, "message"@)
        &&& arr_rel::<NowPage>(obj_key(j, "now"@), t.now@)
    }

    fn from_json(v: &serde_json::Value) -> (r: Option<Self>) {
        let message = match get_str_field(v, "message") {
            Some(x) => x,
            None => return None,
        };
        let now = match get_arr_field::<NowPage>(v, "now") {
            Some(x) => x,
            None => return None,
        };
        Some(NowResponse { message, now })
    }
}

/// A Now Garden
#[derive(Debug, PartialEq)]
pub struct NowGarden {
    pub address: String,
    pub url: String,
    pub updated: TimeStrings,
}

impl FromJson for NowGarden {
    open spec fn json_ok(j: JVal) -> bool {
        &&& str_field_ok(j, "address"@)
        &&& str_field_ok(j, "url"@)
        &&& struct_field_ok::<TimeStrings>(j, "updated"@)
    }

    open spec fn json_rel(j: JVal, t: Self) -> bool {
        &&& t.address@ == str_field(j, "address"@)
        &&& t.url@ == str_field(j, "url"@)
        &&& TimeStrings::json_rel(obj_key(j, "updated"@), t.updated)
    }

    fn from_json(v: &serde_json::Value) -> (r: Option<Self>) {
        let address = match get_str_field(v, "address") {
            Some(x) => x,
            None => return None,
        };
        let url = match get_str_field(v, "url") {
            Some(x) => x,
            None => return None,
        };
        let updated = match get_struct_field::<TimeStrings>(v, "updated") {
            Some(x) => x,
            None => return None,
        };
        Some(NowGarden { address, url, updated })
    }
}

/// Response to a Now Garden endpoint
#[derive(Debug, PartialEq)]
pub struct NowGardenResponse {
    pub message: String,
    pub garden: Vec<NowGarden>,
}

impl FromJson for NowGardenResponse {
    open spec fn json_ok(j: JVal) -> bool {
        &&& str_field_ok(j, "message"@)
        &&& arr_field_ok::<NowGarden>(j, "garden"@)
    }

    open spec fn json_rel(j: JVal, t: Self) -> bool {
        &&& t.message@ == str_field(j, "message"@)
        &&& arr_rel::<NowGarden>(obj_key(j, "garden"@), t.garden@)
    }

    fn from_json(v: &serde_json::Value) -> (r: Option<Self>) {
        let message = match get_str_field(v, "message") {
            Some(x) => x,
            None => return None,
        };
        let garden = match get_arr_field::<NowGarden>(v, "garden") {
            Some(x) => x,
            None => return None,
        };
        Some(NowGardenResponse { message, garden })
    }
}

/// An OAuth access token handed out by the service.
#[derive(Debug, PartialEq)]
pub struct Token {
    pub access_token: String,
    pub token_type: String,
    pub scope: String,
}

impl FromJson for Token {
    open spec fn json_ok(j: JVal) -> bool {
        &&& str_field_ok(j, "access_token"@)
        &&& str_field_ok(j, "token_type"@)
        &&& str_field_ok(j, "scope"@)
    }

    open spec fn json_rel(j: JVal, t: Self) -> bool {
        &&& t.access_token@ == str_field(j, "access_token"@)
        &&& t.token_type@ == str_field(j, "token_type"@)
        &&& t.scope@ == str_field(j, "scope"@)
    }

    fn from_json(v: &serde_json::Value) -> (r: Option<Self>) {
        let access_token = match get_str_field(v, "access_token") {
            Some(x) => x,
            None => return None,
        };
        let token_type = match get_str_field(v, "token_type") {
            Some(x) => x,
            None => return None,
        };
        let scope = match get_str_field(v, "scope") {
            Some(x) => x,
            None => return None,
        };
        Some(Token { access_token, token_type, scope })
    }
}

/// Pastebin paste
#[derive(Debug, PartialEq)]
pub struct Paste {
    pub title: String,
    pub content: String,
    pub modified_on: Option<String>,
}

impl Paste {
    /// New instance of `Paste`
    pub fn new(title: String, content: String) -> (r: Paste)
        ensures
            r.title == title,
            r.content == content,
            r.modified_on is None,
    {
        Paste { title, content, modified_on: None }
    }

    /// The request body that uploads this paste: the title and the content,
    /// written as a JSON object.
    pub open spec fn json_body(self) -> Seq<char> {
        "{\"title\":"@ + json_str_lit(self.title@) + ",\"content\":"@ + json_str_lit(self.content@)
            + "}"@
    }

    /// Write the upload body of this paste.
    pub fn to_json_string(&self) -> (r: String)
        ensures
            r@ == self.json_body(),
    {
        let mut out = "{\"title\":".to_owned();
        append_json_str(&mut out, self.title.as_str());
        out.append(",\"content\":");
        append_json_str(&mut out, self.content.as_str());
        out.append("}");
        proof {
            assert(out@ =~= self.json_body());
        }
        out
    }
}

impl FromJson for Paste {
    open spec fn json_ok(j: JVal) -> bool {
        &&& str_field_ok(j, "title"@)
        &&& str_field_ok(j, "content"@)
        &&& opt_str_field_ok(j, "modified_on"@)
    }

    open spec fn json_rel(j: JVal, t: Self) -> bool {
        &&& t.title@ == str_field(j, "title"@)
        &&& t.content@ == str_field(j, "content"@)
        &&& (t.modified_on is Some <==> opt_str_field(j, "modified_on"@) is Some)
        &&& (t.modified_on matches Some(s) ==> Some(s@) == opt_str_field(j, "modified_on"@))
    }

    fn from_json(v: &serde_json::Value) -> (r: Option<Self>) {
        let title = match get_str_field(v, "title") {
            Some(x) => x,
            None => return None,
        };
        let content = match get_str_field(v, "content") {
            Some(x) => x,
            None => return None,
        };
        let modified_on = match get_opt_str_field(v, "modified_on") {
            Some(x) => x,
            None => return None,
        };
        Some(Paste { title, content, modified_on })
    }
}

/// Response for a Paste request
#[derive(Debug, PartialEq)]
pub struct PasteResponse {
    /// Status message returned by the API
    pub message: String,
    pub pastebin: Paste,
}

impl FromJson for PasteResponse {
    open spec fn json_ok(j: JVal) -> bool {
        &&& str_field_ok(j, "message"@)
        &&& struct_field_ok::<Paste>(j, "pastebin"@)
    }

    open spec fn json_rel(j: JVal, t: Self) -> bool {
        &&& t.message@ == str_field(j, "message"@)
        &&& Paste::json_rel(obj_key(j, "pastebin"@), t.pastebin)
    }

    fn from_json(v: &serde_json::Value) -> (r: Option<Self>) {
        let message = match get_str_field(v, "message") {
            Some(x) => x,
            None => return None,
        };
        let pastebin = match get_struct_field::<Paste>(v, "pastebin") {
            Some(x) => x,
            None => return None,
        };
        Some(PasteResponse { message, pastebin })
    }
}

/// Response for a Pastebin request
#[derive(Debug, PartialEq)]
pub struct PastebinResponse {
    /// Status message returned by the API
    pub message: String,
    pub success: Vec<Paste>,
}

impl FromJson for PastebinResponse {
    open spec fn json_ok(j: JVal) -> bool {
        &&& str_field_ok(j, "message"@)
        &&& arr_field_ok::<Paste>(j, "success"@)
    }

    open spec fn json_rel(j: JVal, t: Self) -> bool {
        &&& t.message@ == str_field(j, "message"@)
        &&& arr_rel::<Paste>(obj_key(j, "success"@), t.success@)
    }

    fn from_json(v: &serde_json::Value) -> (r: Option<Self>) {
        let message = match get_str_field(v, "message") {
            Some(x) => x,
            None => return None,
        };
        let success = match get_arr_field::<Paste>(v, "success") {
            Some(x) => x,
            None => return None,
        };
        Some(PastebinResponse { message, success })
    }
}

/// A persistent uniform resource locator.
#[derive(Debug, PartialEq)]
pub struct Purl {
    pub name: String,
    pub url: String,
    pub counter: Option<i32>,
}

impl FromJson for Purl {
    open spec fn json_ok(j: JVal) -> bool {
        &&& str_field_ok(j, "name"@)
        &&& str_field_ok(j, "url"@)
        &&& opt_int_field_ok(j, "counter"@, i32::MIN as int, i32::MAX as int)
    }

    open spec fn json_rel(j: JVal, t: Self) -> bool {
        &&& t.name@ == str_field(j, "name"@)
        &&& t.url@ == str_field(j, "url"@)
        &&& (t.counter is Some <==> opt_int_field(j, "counter"@) is Some)
        &&& (t.counter matches Some(c) ==> Some(c as int) == opt_int_field(j, "counter"@))
    }

    fn from_json(v: &serde_json::Value) -> (r: Option<Self>) {
        let name = match get_str_field(v, "name") {
            Some(x) => x,
            None => return None,
        };
        let url = match get_str_field(v, "url") {
            Some(x) => x,
            None => return None,
        };
        let counter = match get_opt_i32_field(v, "counter") {
            Some(x) => x,
            None => return None,
        };
        Some(Purl { name, url, counter })
    }
}

/// Reply to a request for one persistent URL.
#[derive(Debug, PartialEq)]
pub struct PurlResponse {
    /// Status message returned by the API
    pub message: String,
    pub purl: Purl,
}

impl FromJson for PurlResponse {
    open spec fn json_ok(j: JVal) -> bool {
        &&& str_field_ok(j, "message"@)
        &&& struct_field_ok::<Purl>(j, "purl"@)
    }

    open spec fn json_rel(j: JVal, t: Self) -> bool {
        &&& t.message@ == str_field(j, "message"@)
        &&& Purl::json_rel(obj_key(j, "purl"@), t.purl)
    }

    fn from_json(v: &serde_json::Value) -> (r: Option<Self>) {
        let message = match get_str_field(v, "message") {
            Some(x) => x,
            None => return None,
        };
        let purl = match get_struct_field::<Purl>(v, "purl") {
            Some(x) => x,
            None => return None,
        };
        Some(PurlResponse { message, purl })
    }
}

/// Reply to a request for all persistent URLs of an address.
#[derive(Debug, PartialEq)]
pub struct PurlsResponse {
    /// Status message returned by the API
    pub message: String,
    pub purls: Vec<Purl>,
}

impl FromJson for PurlsResponse {
    open spec fn json_ok(j: JVal) -> bool {
        &&& str_field_ok(j, "message"@)
        &&& arr_field_ok::<Purl>(j, "purls"@)
    }

    open spec fn json_rel(j: JVal, t: Self) -> bool {
        &&& t.message@ == str_field(j, "message"@)
        &&& arr_rel::<Purl>(obj_key(j, "purls"@), t.purls@)
    }

    fn from_json(v: &serde_json::Value) -> (r: Option<Self>) {
        let message = match get_str_field(v, "message") {
            Some(x) => x,
            None => return None,
        };
        let purls = match get_arr_field::<Purl>(v, "purls") {
            Some(x) => x,
            None => return None,
        };
        Some(PurlsResponse { message, purls })
    }
}

/// Headline numbers about the service as a whole.
#[derive(Debug, PartialEq)]
pub struct ServiceStatus {
    /// Status message returned by the API
    pub message: String,
    pub members: i32,
    pub addresses: i32,
    pub profiles: i32,
}

impl FromJson for ServiceStatus {
    open spec fn json_ok(j: JVal) -> bool {
        &&& str_field_ok(j, "message"@)
        &&& int_field_ok(j, "members"@, i32::MIN as int, i32::MAX as int)
        &&& int_field_ok(j, "addresses"@, i32::MIN as int, i32::MAX as int)
        &&& int_field_ok(j, "profiles"@, i32::MIN as int, i32::MAX as int)
    }

    open spec fn json_rel(j: JVal, t: Self) -> bool {
        &&& t.message@ == str_field(j, "message"@)
        &&& t.members as int == int_field(j, "members"@)
        &&& t.addresses as int == int_field(j, "addresses"@)
        &&& t.profiles as int == int_field(j, "profiles"@)
    }

    fn from_json(v: &serde_json::Value) -> (r: Option<Self>) {
        let message = match get_str_field(v, "message") {
            Some(x) => x,
            None => return None,
        };
        let members = match get_i32_field(v, "members") {
            Some(x) => x,
            None => return None,
        };
        let addresses = match get_i32_field(v, "addresses") {
            Some(x) => x,
            None => return None,
        };
        let profiles = match get_i32_field(v, "profiles") {
            Some(x) => x,
            None => return None,
        };
        Some(ServiceStatus { message, members, addresses, profiles })
    }
}

/// Content that is sent to the service wrapped in a small JSON object.
pub trait ContentAsJSON {
    /// The request body this content is wrapped in.
    spec fn json_content_spec(&self) -> Seq<char>;

    /// Write the request body.
    fn json_content(&self) -> (r: String)
        ensures
            r@ == self.json_content_spec(),
    ;
}

/// A plain text is wrapped as it stands, without escaping.
impl ContentAsJSON for String {
    open spec fn json_content_spec(&self) -> Seq<char> {
        "{\"content\": \""@ + self@ + "\"}"@
    }

    fn json_content(&self) -> (r: String) {
        let mut out = "{\"content\": \"".to_owned();
        out.append(self.as_str());
        out.append("\"}");
        proof {
            assert(out@ =~= self.json_content_spec());
        }
        out
    }
}

/// A status log entry.
#[derive(Debug, PartialEq)]
pub struct Status {
    /// The status' emoji
    pub emoji: String,
    /// The text content of the status
    pub content: String,
    /// An optional external URL for the status
    pub external_url: Option<String>,
    pub id: String,
    pub address: String,
    pub created: String,
    pub relative_time: String,
}

impl Status {
    /// Create a new instance of `Status`
    ///
    /// Arguments:
    /// * `emoji`, your status' emoji
    /// * `content`, The text content of your status
    /// * `external_url`, An optional external URL for your status
    pub fn new(emoji: String, content: String, external_url: Option<String>) -> (r: Status)
        ensures
            r.emoji == emoji,
            r.content == content,
            r.external_url == external_url,
            r.id@ == Seq::<char>::empty(),
            r.address@ == Seq::<char>::empty(),
            r.created@ == Seq::<char>::empty(),
            r.relative_time@ == Seq::<char>::empty(),
    {
        Status {
            emoji,
            content,
            external_url,
            id: String::new(),
            address: String::new(),
            created: String::new(),
            relative_time: String::new(),
        }
    }

    /// The request body that posts this status: the emoji, the content and
    /// the external URL, written as a JSON object; the server-assigned
    /// fields are not sent.
    pub open spec fn json_body(self) -> Seq<char> {
        "{\"emoji\":"@ + json_str_lit(self.emoji@) + ",\"content\":"@ + json_str_lit(self.content@)
            + ",\"external_url\":"@ + (match self.external_url {
            Some(u) => json_str_lit(u@),
            None => "null"@,
        }) + "}"@
    }

    /// Write the post body of this status.
    pub fn to_json_string(&self) -> (r: String)
        ensures
            r@ == self.json_body(),
    {
        let mut out = "{\"emoji\":".to_owned();
        append_json_str(&mut out, self.emoji.as_str());
        out.append(",\"content\":");
        append_json_str(&mut out, self.content.as_str());
        out.append(",\"external_url\":");
        match &self.external_url {
            Some(u) => append_json_str(&mut out, u.as_str()),
            None => out.append("null"),
        }
        out.append("}");
        proof {
            assert(out@ =~= self.json_body());
        }
        out
    }
}

impl FromJson for Status {
    open spec fn json_ok(j: JVal) -> bool {
        &&& str_field_ok(j, "emoji"@)
        &&& str_field_ok(j, "content"@)
        &&& opt_str_field_ok(j, "external_url"@)
        &&& str_field_ok(j, "id"@)
        &&& str_field_ok(j, "address"@)
        &&& str_field_ok(j, "created"@)
        &&& str_field_ok(j, "relative_time"@)
    }

    open spec fn json_rel(j: JVal, t: Self) -> bool {
        &&& t.emoji@ == str_field(j, "emoji"@)
        &&& t.content@ == str_field(j, "content"@)
        &&& (t.external_url is Some <==> opt_str_field(j, "external_url"@) is Some)
        &&& (t.external_url matches Some(s) ==> Some(s@) == opt_str_field(j, "external_url"@))
        &&& t.id@ == str_field(j, "id"@)
        &&& t.address@ == str_field(j, "address"@)
        &&& t.created@ == str_field(j, "created"@)
        &&& t.relative_time@ == str_field(j, "relative_time"@)
    }

    fn from_json(v: &serde_json::Value) -> (r: Option<Self>) {
        let emoji = match get_str_field(v, "emoji") {
            Some(x) => x,
            None => return None,
        };
        let content = match get_str_field(v, "content") {
            Some(x) => x,
            None => return None,
        };
        let external_url = match get_opt_str_field(v, "external_url") {
            Some(x) => x,
            None => return None,
        };
        let id = match get_str_field(v, "id") {
            Some(x) => x,
            None => return None,
        };
        let address = match get_str_field(v, "address") {
            Some(x) => x,
            None => return None,
        };
        let created = match get_str_field(v, "created") {
            Some(x) => x,
            None => return None,
        };
        let relative_time = match get_str_field(v, "relative_time") {
            Some(x) => x,
            None => return None,
        };
        Some(Status { emoji, content, external_url, id, address, created, relative_time })
    }
}

/// Reply to a request for one status log entry.
#[derive(Debug, PartialEq)]
pub struct StatuslogResponseArray {
    /// Status message returned by the API
    pub message: String,
    pub id: String,
    pub status: Status,
}

impl FromJson for StatuslogResponseArray {
    open spec fn json_ok(j: JVal) -> bool {
        &&& str_field_ok(j, "message"@)
        &&& str_field_ok(j, "id"@)
        &&& struct_field_ok::<Status>(j, "status"@)
    }

    open spec fn json_rel(j: JVal, t: Self) -> bool {
        &&& t.message@ == str_field(j, "message"@)
        &&& t.id@ == str_field(j, "id"@)
        &&& Status::json_rel(obj_key(j, "status"@), t.status)
    }

    fn from_json(v: &serde_json::Value) -> (r: Option<Self>) {
        let message = match get_str_field(v, "message") {
            Some(x) => x,
            None => return None,
        };
        let id = match get_str_field(v, "id") {
            Some(x) => x,
            None => return None,
        };
        let status = match get_struct_field::<Status>(v, "status") {
            Some(x) => x,
            None => return None,
        };
        Some(StatuslogResponseArray { message, id, status })
    }
}

/// Reply to an update of the single status log entry.
#[derive(Debug, PartialEq)]
pub struct StatuslogUpdateResponse {
    /// Status message returned by the API
    pub message: String,
    pub id: String,
    pub url: String,
}

impl FromJson for StatuslogUpdateResponse {
    open spec fn json_ok(j: JVal) -> bool {
        &&& str_field_ok(j, "message"@)
        &&& str_field_ok(j, "id"@)
        &&& str_field_ok(j, "url"@)
    }

    open spec fn json_rel(j: JVal, t: Self) -> bool {
        &&& t.message@ == str_field(j, "message"@)
        &&& t.id@ == str_field(j, "id"@)
        &&& t.url@ == str_field(j, "url"@)
    }

    fn from_json(v: &serde_json::Value) -> (r: Option<Self>) {
        let message = match get_str_field(v, "message") {
            Some(x) => x,
            None => return None,
        };
        let id = match get_str_field(v, "id") {
            Some(x) => x,
            None => return None,
        };
        let url = match get_str_field(v, "url") {
            Some(x) => x,
            None => return None,
        };
        Some(StatuslogUpdateResponse { message, id, url })
    }
}

/// Response struct for a successful statuslog query all statuses request
#[derive(Debug, PartialEq)]
pub struct StatuslogAllStatuses {
    /// Status message returned by the API
    pub message: String,
    pub statuses: Vec<Status>,
}

impl FromJson for StatuslogAllStatuses {
    open spec fn json_ok(j: JVal) -> bool {
        &&& str_field_ok(j, "message"@)
        &&& arr_field_ok::<Status>(j, "statuses"@)
    }

    open spec fn json_rel(j: JVal, t: Self) -> bool {
        &&& t.message@ == str_field(j, "message"@)
        &&& arr_rel::<Status>(obj_key(j, "statuses"@), t.statuses@)
    }

    fn from_json(v: &serde_json::Value) -> (r: Option<Self>) {
        let message = match get_str_field(v, "message") {
            Some(x) => x,
            None => return None,
        };
        let statuses = match get_arr_field::<Status>(v, "statuses") {
            Some(x) => x,
            None => return None,
        };
        Some(StatuslogAllStatuses { message, statuses })
    }
}

/// Your statuslog's bio.
#[derive(Debug, PartialEq)]
pub struct StatuslogBio {
    pub bio: String,
    pub css: String,
    pub message: String,
}

impl StatuslogBio {
    /// Create a new `StatuslogBio` struct.
    ///
    /// Arguments:
    /// * `bio: String` the text content of your bio
    pub fn new(bio: String) -> (r: StatuslogBio)
        ensures
            r.bio == bio,
            r.css@ == Seq::<char>::empty(),
            r.message@ == Seq::<char>::empty(),
    {
        StatuslogBio { bio, css: String::new(), message: String::new() }
    }
}

impl FromJson for StatuslogBio {
    open spec fn json_ok(j: JVal) -> bool {
        &&& str_field_ok(j, "bio"@)
        &&& str_field_ok(j, "css"@)
        &&& str_field_ok(j, "message"@)
    }

    open spec fn json_rel(j: JVal, t: Self) -> bool {
        &&& t.bio@ == str_field(j, "bio"@)
        &&& t.css@ == str_field(j, "css"@)
        &&& t.message@ == str_field(j, "message"@)
    }

    fn from_json(v: &serde_json::Value) -> (r: Option<Self>) {
        let bio = match get_str_field(v, "bio") {
            Some(x) => x,
            None => return None,
        };
        let css = match get_str_field(v, "css") {
            Some(x) => x,
            None => return None,
        };
        let message = match get_str_field(v, "message") {
            Some(x) => x,
            None => return None,
        };
        Some(StatuslogBio { bio, css, message })
    }
}

/// The bio update sends the message field wrapped as content.
impl ContentAsJSON for StatuslogBio {
    open spec fn json_content_spec(&self) -> Seq<char> {
        "{\"content\": \""@ + self.message@ + "\"}"@
    }

    fn json_content(&self) -> (r: String) {
        let mut out = "{\"content\": \"".to_owned();
        out.append(self.message.as_str());
        out.append("\"}");
        proof {
            assert(out@ =~= self.json_content_spec());
        }
        out
    }
}

/// Reply to posting a new status log entry.
#[derive(Debug, PartialEq)]
pub struct StatusPostResponse {
    pub message: String,
    pub id: String,
    pub status: String,
    pub url: String,
    pub external_url: String,
}

impl FromJson for StatusPostResponse {
    open spec fn json_ok(j: JVal) -> bool {
        &&& str_field_ok(j, "message"@)
        &&& str_field_ok(j, "id"@)
        &&& str_field_ok(j, "status"@)
        &&& str_field_ok(j, "url"@)
        &&& str_field_ok(j, "external_url"@)
    }

    open spec fn json_rel(j: JVal, t: Self) -> bool {
        &&& t.message@ == str_field(j, "message"@)
        &&& t.id@ == str_field(j, "id"@)
        &&& t.status@ == str_field(j, "status"@)
        &&& t.url@ == str_field(j, "url"@)
        &&& t.external_url@ == str_field(j, "external_url"@)
    }

    fn from_json(v: &serde_json::Value) -> (r: Option<Self>) {
        let message = match get_str_field(v, "message") {
            Some(x) => x,
            None => return None,
        };
        let id = match get_str_field(v, "id") {
            Some(x) => x,
            None => return None,
        };
        let status = match get_str_field(v, "status") {
            Some(x) => x,
            None => return None,
        };
        let url = match get_str_field(v, "url") {
            Some(x) => x,
            None => return None,
        };
        let external_url = match get_str_field(v, "external_url") {
            Some(x) => x,
            None => return None,
        };
        Some(StatusPostResponse { message, id, status, url, external_url })
    }
}

/// The content of a profile page.
#[derive(Debug, PartialEq)]
pub struct Web {
    pub content: String,
    /// Status message provided by the API
    pub message: String,
    /// CSS profile code
    pub css: String,
    /// Additional `<head>` elements
    pub head: String,
    /// Whether the profile has been verified.
    pub verified: Option<i8>,
    /// Profile picture, `Some` with a URL `String` or `None` if not defined.
    pub pfp: Option<String>,
    pub metadata: String,
    pub branding: String,
    pub page_type: String,
}

impl Web {
    /// Create a new `Web` struct.
    ///
    /// Arguments:
    /// * `content: String` with the web page content.
    pub fn new(content: String) -> (r: Web)
        ensures
            r.content == content,
            r.message@ == " "@,
            r.css@ == Seq::<char>::empty(),
            r.head@ == Seq::<char>::empty(),
            r.verified is None,
            r.pfp is None,
            r.metadata@ == Seq::<char>::empty(),
            r.branding@ == Seq::<char>::empty(),
            r.page_type@ == Seq::<char>::empty(),
    {
        Web {
            content,
            message: " ".to_owned(),
            css: String::new(),
            head: String::new(),
            verified: None,
            pfp: None,
            metadata: String::new(),
            branding: String::new(),
            page_type: String::new(),
        }
    }

    /// The request body that updates a page: only the content is sent.
    pub open spec fn json_body(self) -> Seq<char> {
        "{\"content\":"@ + json_str_lit(self.content@) + "}"@
    }

    /// Write the update body of this page.
    pub fn to_json_string(&self) -> (r: String)
        ensures
            r@ == self.json_body(),
    {
        let mut out = "{\"content\":".to_owned();
        append_json_str(&mut out, self.content.as_str());
        out.append("}");
        proof {
            assert(out@ =~= self.json_body());
        }
        out
    }
}

impl FromJson for Web {
    open spec fn json_ok(j: JVal) -> bool {
        &&& str_field_ok(j, "content"@)
        &&& str_field_ok(j, "message"@)
        &&& str_field_ok(j, "css"@)
        &&& str_field_ok(j, "head"@)
        &&& opt_int_field_ok(j, "verified"@, i8::MIN as int, i8::MAX as int)
        &&& opt_str_field_ok(j, "pfp"@)
        &&& str_field_ok(j, "metadata"@)
        &&& str_field_ok(j, "branding"@)
        &&& str_field_ok(j, "type"@)
    }

    open spec fn json_rel(j: JVal, t: Self) -> bool {
        &&& t.content@ == str_field(j, "content"@)
        &&& t.message@ == str_field(j, "message"@)
        &&& t.css@ == str_field(j, "css"@)
        &&& t.head@ == str_field(j, "head"@)
        &&& (t.verified is Some <==> opt_int_field(j, "verified"@) is Some)
        &&& (t.verified matches Some(x) ==> Some(x as int) == opt_int_field(j, "verified"@))
        &&& (t.pfp is Some <==> opt_str_field(j, "pfp"@) is Some)
        &&& (t.pfp matches Some(s) ==> Some(s@) == opt_str_field(j, "pfp"@))
        &&& t.metadata@ == str_field(j, "metadata"@)
        &&& t.branding@ == str_field(j, "branding"@)
        &&& t.page_type@ == str_field(j, "type"@)
    }

    fn from_json(v: &serde_json::Value) -> (r: Option<Self>) {
        let content = match get_str_field(v, "content") {
            Some(x) => x,
            None => return None,
        };
        let message = match get_str_field(v, "message") {
            Some(x) => x,
            None => return None,
        };
        let css = match get_str_field(v, "css") {
            Some(x) => x,
            None => return None,
        };
        let head = match get_str_field(v, "head") {
            Some(x) => x,
            None => return None,
        };
        let verified = match get_opt_i8_field(v, "verified") {
            Some(x) => x,
            None => return None,
        };
        let pfp = match get_opt_str_field(v, "pfp") {
            Some(x) => x,
            None => return None,
        };
        let metadata = match get_str_field(v, "metadata") {
            Some(x) => x,
            None => return None,
        };
        let branding = match get_str_field(v, "branding") {
            Some(x) => x,
            None => return None,
        };
        let page_type = match get_str_field(v, "type") {
            Some(x) => x,
            None => return None,
        };
        Some(Web { content, message, css, head, verified, pfp, metadata, branding, page_type })
    }
}

/// A profile page theme.
#[derive(Debug, PartialEq)]
pub struct Theme {
    pub id: String,
    pub name: String,
    pub created: String,
    pub updated: String,
    pub author: String,
    pub author_url: String,
    pub version: String,
    pub license: String,
    pub description: String,
    pub preview_css: String,
    pub sample_profile: String,
}

impl FromJson for Theme {
    open spec fn json_ok(j: JVal) -> bool {
        &&& str_field_ok(j, "id"@)
        &&& str_field_ok(j, "name"@)
        &&& str_field_ok(j, "created"@)
        &&& str_field_ok(j, "updated"@)
        &&& str_field_ok(j, "author"@)
        &&& str_field_ok(j, "author_url"@)
        &&& str_field_ok(j, "version"@)
        &&& str_field_ok(j, "license"@)
        &&& str_field_ok(j, "description"@)
        &&& str_field_ok(j, "preview_css"@)
        &&& str_field_ok(j, "sample_profile"@)
    }

    open spec fn json_rel(j: JVal, t: Self) -> bool {
        &&& t.id@ == str_field(j, "id"@)
        &&& t.name@ == str_field(j, "name"@)
        &&& t.created@ == str_field(j, "created"@)
        &&& t.updated@ == str_field(j, "updated"@)
        &&& t.author@ == str_field(j, "author"@)
        &&& t.author_url@ == str_field(j, "author_url"@)
        &&& t.version@ == str_field(j, "version"@)
        &&& t.license@ == str_field(j, "license"@)
        &&& t.description@ == str_field(j, "description"@)
        &&& t.preview_css@ == str_field(j, "preview_css"@)
        &&& t.sample_profile@ == str_field(j, "sample_profile"@)
    }

    fn from_json(v: &serde_json::Value) -> (r: Option<Self>) {
        let id = match get_str_field(v, "id") {
            Some(x) => x,
            None => return None,
        };
        let name = match get_str_field(v, "name") {
            Some(x) => x,
            None => return None,
        };
        let created = match get_str_field(v, "created") {
            Some(x) => x,
            None => return None,
        };
        let updated = match get_str_field(v, "updated") {
            Some(x) => x,
            None => return None,
        };
        let author = match get_str_field(v, "author") {
            Some(x) => x,
            None => return None,
        };
        let author_url = match get_str_field(v, "author_url") {
            Some(x) => x,
            None => return None,
        };
        let version = match get_str_field(v, "version") {
            Some(x) => x,
            None => return None,
        };
        let license = match get_str_field(v, "license") {
            Some(x) => x,
            None => return None,
        };
        let description = match get_str_field(v, "description") {
            Some(x) => x,
            None => return None,
        };
        let preview_css = match get_str_field(v, "preview_css") {
            Some(x) => x,
            None => return None,
        };
        let sample_profile = match get_str_field(v, "sample_profile") {
            Some(x) => x,
            None => return None,
        };
        Some(
            Theme {
                id,
                name,
                created,
                updated,
                author,
                author_url,
                version,
                license,
                description,
                preview_css,
                sample_profile,
            },
        )
    }
}

/// Relates a JSON object of themes to a list of its entries: each listed
/// key is a key of the object and its theme decodes from the subtree, no
/// key is listed twice, and every key of the object is listed.
pub open spec fn themes_rel(j: JVal, s: Seq<(String, Theme)>) -> bool {
    &&& j is Obj
    &&& forall|i: int|
        0 <= i < s.len() ==> j->Obj_0.dom().contains(#[trigger] s[i].0@) && Theme::json_rel(
            j->Obj_0[s[i].0@],
            s[i].1,
        )
    &&& forall|i: int, k: int| 0 <= i < k < s.len() ==> s[i].0@ != s[k].0@
    &&& forall|key: Seq<char>|
        #[trigger] j->Obj_0.dom().contains(key) ==> exists|i: int|
            0 <= i < s.len() && (#[trigger] s[i].0@) == key
}

/// The catalogue of profile themes, keyed by theme id.
#[derive(Debug, PartialEq)]
pub struct ProfileThemes {
    pub message: String,
    /// The themes, one entry per theme id.
    pub themes: Vec<(String, Theme)>,
}

impl FromJson for ProfileThemes {
    open spec fn json_ok(j: JVal) -> bool {
        &&& str_field_ok(j, "message"@)
        &&& obj_has_key(j, "themes"@)
        &&& obj_key(j, "themes"@) is Obj
        &&& forall|key: Seq<char>|
            #[trigger] obj_key(j, "themes"@)->Obj_0.dom().contains(key) ==> Theme::json_ok(
                obj_key(j, "themes"@)->Obj_0[key],
            )
    }

    open spec fn json_rel(j: JVal, t: Self) -> bool {
        &&& t.message@ == str_field(j, "message"@)
        &&& themes_rel(obj_key(j, "themes"@), t.themes@)
    }

    fn from_json(v: &serde_json::Value) -> (r: Option<Self>) {
        let message = match get_str_field(v, "message") {
            Some(x) => x,
            None => return None,
        };
        let themes_val = match get_field(v, "themes") {
            Some(f) => f,
            None => return None,
        };
        let entries = match obj_entries(themes_val) {
            Some(es) => es,
            None => return None,
        };
        let ghost m = jval_of(*themes_val)->Obj_0;
        let mut themes: Vec<(String, Theme)> = Vec::new();
        let n: usize = entries.len();
        let mut i: usize = 0;
        while i < n
            invariant
                i <= n,
                n == entries@.len(),
                jval_of(*themes_val) is Obj,
                m == jval_of(*themes_val)->Obj_0,
                jval_of(*themes_val) == obj_key(jval_of(*v), "themes"@),
                obj_has_key(jval_of(*v), "themes"@),
                forall|k: int|
                    0 <= k < entries@.len() ==> m.dom().contains(#[trigger] entries@[k].0@)
                        && jval_of(entries@[k].1) == m[entries@[k].0@],
                forall|a: int, b: int| 0 <= a < b < entries@.len() ==> entries@[a].0@
                    != entries@[b].0@,
                forall|key: Seq<char>|
                    #[trigger] m.dom().contains(key) ==> exists|k: int|
                        0 <= k < entries@.len() && (#[trigger] entries@[k].0@) == key,
                themes@.len() == i,
                forall|k: int|
                    0 <= k < i ==> (#[trigger] themes@[k]).0 == entries@[k].0 && Theme::json_ok(
                        jval_of(entries@[k].1),
                    ) && Theme::json_rel(jval_of(entries@[k].1), themes@[k].1),
            decreases n - i,
        {
            match Theme::from_json(&entries[i].1) {
                Some(t) => {
                    let key = entries[i].0.clone();
                    themes.push((key, t));
                },
                None => {
                    proof {
                        assert(m.dom().contains(entries@[i as int].0@) && !Theme::json_ok(
                            m[entries@[i as int].0@],
                        ));
                    }
                    return None;
                },
            }
            i += 1;
        }
        proof {
            let jt = obj_key(jval_of(*v), "themes"@);
            assert(jt == jval_of(*themes_val));
            assert forall|idx: int| 0 <= idx < themes@.len() implies jt->Obj_0.dom().contains(
                #[trigger] themes@[idx].0@,
            ) && Theme::json_rel(jt->Obj_0[themes@[idx].0@], themes@[idx].1) by {
                assert(themes@[idx].0 == entries@[idx].0);
                assert(m.dom().contains(entries@[idx].0@));
                assert(jval_of(entries@[idx].1) == m[entries@[idx].0@]);
            }
            assert forall|a: int, b: int| 0 <= a < b < themes@.len() implies themes@[a].0@
                != themes@[b].0@ by {
                assert(themes@[a].0 == entries@[a].0);
                assert(themes@[b].0 == entries@[b].0);
            }
            assert forall|key: Seq<char>| #[trigger] jt->Obj_0.dom().contains(key) implies exists|
                idx: int,
            |
                0 <= idx < themes@.len() && (#[trigger] themes@[idx].0@) == key by {
                assert(exists|k: int| 0 <= k < entries@.len() && (#[trigger] entries@[k].0@)
                    == key);
                let k = choose|k: int| 0 <= k < entries@.len() && (#[trigger] entries@[k].0@)
                    == key;
                assert(themes@[k].0 == entries@[k].0);
                assert(0 <= k < themes@.len() && themes@[k].0@ == key);
            }
            assert forall|key: Seq<char>| #[trigger] m.dom().contains(key) implies Theme::json_ok(
                m[key],
            ) by {
                assert(exists|k: int| 0 <= k < entries@.len() && (#[trigger] entries@[k].0@)
                    == key);
                let k = choose|k: int| 0 <= k < entries@.len() && (#[trigger] entries@[k].0@)
                    == key;
                assert(jval_of(entries@[k].1) == m[key]);
                assert(Theme::json_ok(jval_of(entries@[k].1)));
            }
            assert(themes_rel(jt, themes@));
        }
        Some(ProfileThemes { message, themes })
    }
}

/// Metadata for a weblog entry.
#[derive(Debug, PartialEq)]
pub struct WeblogMetadata {
    pub date: String,
    pub slug: String,
}

impl FromJson for WeblogMetadata {
    open spec fn json_ok(j: JVal) -> bool {
        &&& str_field_ok(j, "date"@)
        &&& str_field_ok(j, "slug"@)
    }

    open spec fn json_rel(j: JVal, t: Self) -> bool {
        &&& t.date@ == str_field(j, "date"@)
        &&& t.slug@ == str_field(j, "slug"@)
    }

    fn from_json(v: &serde_json::Value) -> (r: Option<Self>) {
        let date = match get_str_field(v, "date") {
            Some(x) => x,
            None => return None,
        };
        let slug = match get_str_field(v, "slug") {
            Some(x) => x,
            None => return None,
        };
        Some(WeblogMetadata { date, slug })
    }
}

/// A weblog entry
#[derive(Debug, PartialEq)]
pub struct WeblogEntry {
    pub location: String,
    pub title: String,
    pub date: u32,
    pub status: String,
    pub body: String,
    pub source: String,
    pub metadata: WeblogMetadata,
    pub output: String,
    pub entry: String,
    pub entry_type: String,
}

impl FromJson for WeblogEntry {
    open spec fn json_ok(j: JVal) -> bool {
        &&& str_field_ok(j, "location"@)
        &&& str_field_ok(j, "title"@)
        &&& int_field_ok(j, "date"@, 0, u32::MAX as int)
        &&& str_field_ok(j, "status"@)
        &&& str_field_ok(j, "body"@)
        &&& str_field_ok(j, "source"@)
        &&& struct_field_ok::<WeblogMetadata>(j, "metadata"@)
        &&& str_field_ok(j, "output"@)
        &&& str_field_ok(j, "entry"@)
        &&& str_field_ok(j, "type"@)
    }

    open spec fn json_rel(j: JVal, t: Self) -> bool {
        &&& t.location@ == str_field(j, "location"@)
        &&& t.title@ == str_field(j, "title"@)
        &&& t.date as int == int_field(j, "date"@)
        &&& t.status@ == str_field(j, "status"@)
        &&& t.body@ == str_field(j, "body"@)
        &&& t.source@ == str_field(j, "source"@)
        &&& WeblogMetadata::json_rel(obj_key(j, "metadata"@), t.metadata)
        &&& t.output@ == str_field(j, "output"@)
        &&& t.entry@ == str_field(j, "entry"@)
        &&& t.entry_type@ == str_field(j, "type"@)
    }

    fn from_json(v: &serde_json::Value) -> (r: Option<Self>) {
        let location = match get_str_field(v, "location") {
            Some(x) => x,
            None => return None,
        };
        let title = match get_str_field(v, "title") {
            Some(x) => x,
            None => return None,
        };
        let date = match get_u32_field(v, "date") {
            Some(x) => x,
            None => return None,
        };
        let status = match get_str_field(v, "status") {
            Some(x) => x,
            None => return None,
        };
        let body = match get_str_field(v, "body") {
            Some(x) => x,
            None => return None,
        };
        let source = match get_str_field(v, "source") {
            Some(x) => x,
            None => return None,
        };
        let metadata = match get_struct_field::<WeblogMetadata>(v, "metadata") {
            Some(x) => x,
            None => return None,
        };
        let output = match get_str_field(v, "output") {
            Some(x) => x,
            None => return None,
        };
        let entry = match get_str_field(v, "entry") {
            Some(x) => x,
            None => return None,
        };
        let entry_type = match get_str_field(v, "type") {
            Some(x) => x,
            None => return None,
        };
        Some(
            WeblogEntry {
                location,
                title,
                date,
                status,
                body,
                source,
                metadata,
                output,
                entry,
                entry_type,
            },
        )
    }
}

/// Response to a request for weblog entries
#[derive(Debug, PartialEq)]
pub struct WeblogEntriesResponse {
    /// Status message provided by the API
    pub message: String,
    /// A vector of `WeblogEntry` structs.
    pub entries: Vec<WeblogEntry>,
}

impl FromJson for WeblogEntriesResponse {
    open spec fn json_ok(j: JVal) -> bool {
        &&& str_field_ok(j, "message"@)
        &&& arr_field_ok::<WeblogEntry>(j, "entries"@)
    }

    open spec fn json_rel(j: JVal, t: Self) -> bool {
        &&& t.message@ == str_field(j, "message"@)
        &&& arr_rel::<WeblogEntry>(obj_key(j, "entries"@), t.entries@)
    }

    fn from_json(v: &serde_json::Value) -> (r: Option<Self>) {
        let message = match get_str_field(v, "message") {
            Some(x) => x,
            None => return None,
        };
        let entries = match get_arr_field::<WeblogEntry>(v, "entries") {
            Some(x) => x,
            None => return None,
        };
        Some(WeblogEntriesResponse { message, entries })
    }
}

/// API response for a weblog entry GET request.  The service writes the
/// entry under the key `entry` or, for the latest post, under `post`;
/// where `entry` is present it is the one read.
#[derive(Debug, PartialEq)]
pub struct WeblogEntryResponse {
    /// Status message provided by the API
    pub message: String,
    /// Weblog entry
    pub entry: WeblogEntry,
}

impl FromJson for WeblogEntryResponse {
    open spec fn json_ok(j: JVal) -> bool {
        &&& str_field_ok(j, "message"@)
        &&& (if obj_has_key(j, "entry"@) {
            struct_field_ok::<WeblogEntry>(j, "entry"@)
        } else {
            struct_field_ok::<WeblogEntry>(j, "post"@)
        })
    }

    open spec fn json_rel(j: JVal, t: Self) -> bool {
        &&& t.message@ == str_field(j, "message"@)
        &&& WeblogEntry::json_rel(
            if obj_has_key(j, "entry"@) {
                obj_key(j, "entry"@)
            } else {
                obj_key(j, "post"@)
            },
            t.entry,
        )
    }

    fn from_json(v: &serde_json::Value) -> (r: Option<Self>) {
        let message = match get_str_field(v, "message") {
            Some(x) => x,
            None => return None,
        };
        let entry = match get_field(v, "entry") {
            Some(f) => match WeblogEntry::from_json(f) {
                Some(e) => e,
                None => return None,
            },
            None => match get_struct_field::<WeblogEntry>(v, "post") {
                Some(e) => e,
                None => return None,
            },
        };
        Some(WeblogEntryResponse { message, entry })
    }
}

/// A weblog's configuration.
#[derive(Debug, PartialEq)]
pub struct WeblogConfiguration {
    pub weblog_title: String,
    pub weblog_description: String,
    pub author: String,
    pub separator: String,
    pub tag_path: String,
    pub timezone: String,
    pub date_format: String,
    pub default_post: String,
    pub feed_post_count: String,
    pub recents_posts_format: String,
    pub post_list_format: String,
    pub search_satus: String,
    pub search_status_success_message: String,
    pub search_results_failure_message: String,
    pub search_results_format: String,
}

impl FromJson for WeblogConfiguration {
    open spec fn json_ok(j: JVal) -> bool {
        &&& str_field_ok(j, "weblog_title"@)
        &&& str_field_ok(j, "weblog_description"@)
        &&& str_field_ok(j, "author"@)
        &&& str_field_ok(j, "separator"@)
        &&& str_field_ok(j, "tag_path"@)
        &&& str_field_ok(j, "timezone"@)
        &&& str_field_ok(j, "date_format"@)
        &&& str_field_ok(j, "default_post"@)
        &&& str_field_ok(j, "feed_post_count"@)
        &&& str_field_ok(j, "recents_posts_format"@)
        &&& str_field_ok(j, "post_list_format"@)
        &&& str_field_ok(j, "search_satus"@)
        &&& str_field_ok(j, "search_status_success_message"@)
        &&& str_field_ok(j, "search_results_failure_message"@)
        &&& str_field_ok(j, "search_results_format"@)
    }

    open spec fn json_rel(j: JVal, t: Self) -> bool {
        &&& t.weblog_title@ == str_field(j, "weblog_title"@)
        &&& t.weblog_description@ == str_field(j, "weblog_description"@)
        &&& t.author@ == str_field(j, "author"@)
        &&& t.separator@ == str_field(j, "separator"@)
        &&& t.tag_path@ == str_field(j, "tag_path"@)
        &&& t.timezone@ == str_field(j, "timezone"@)
        &&& t.date_format@ == str_field(j, "date_format"@)
        &&& t.default_post@ == str_field(j, "default_post"@)
        &&& t.feed_post_count@ == str_field(j, "feed_post_count"@)
        &&& t.recents_posts_format@ == str_field(j, "recents_posts_format"@)
        &&& t.post_list_format@ == str_field(j, "post_list_format"@)
        &&& t.search_satus@ == str_field(j, "search_satus"@)
        &&& t.search_status_success_message@ == str_field(j, "search_status_success_message"@)
        &&& t.search_results_failure_message@ == str_field(j, "search_results_failure_message"@)
        &&& t.search_results_format@ == str_field(j, "search_results_format"@)
    }

    fn from_json(v: &serde_json::Value) -> (r: Option<Self>) {
        let weblog_title = match get_str_field(v, "weblog_title") {
            Some(x) => x,
            None => return None,
        };
        let weblog_description = match get_str_field(v, "weblog_description") {
            Some(x) => x,
            None => return None,
        };
        let author = match get_str_field(v, "author") {
            Some(x) => x,
            None => return None,
        };
        let separator = match get_str_field(v, "separator") {
            Some(x) => x,
            None => return None,
        };
        let tag_path = match get_str_field(v, "tag_path") {
            Some(x) => x,
            None => return None,
        };
        let timezone = match get_str_field(v, "timezone") {
            Some(x) => x,
            None => return None,
        };
        let date_format = match get_str_field(v, "date_format") {
            Some(x) => x,
            None => return None,
        };
        let default_post = match get_str_field(v, "default_post") {
            Some(x) => x,
            None => return None,
        };
        let feed_post_count = match get_str_field(v, "feed_post_count") {
            Some(x) => x,
            None => return None,
        };
        let recents_posts_format = match get_str_field(v, "recents_posts_format") {
            Some(x) => x,
            None => return None,
        };
        let post_list_format = match get_str_field(v, "post_list_format") {
            Some(x) => x,
            None => return None,
        };
        let search_satus = match get_str_field(v, "search_satus") {
            Some(x) => x,
            None => return None,
        };
        let search_status_success_message = match get_str_field(v, "search_status_success_message")
        {
            Some(x) => x,
            None => return None,
        };
        let search_results_failure_message = match get_str_field(
            v,
            "search_results_failure_message",
        ) {
            Some(x) => x,
            None => return None,
        };
        let search_results_format = match get_str_field(v, "search_results_format") {
            Some(x) => x,
            None => return None,
        };
        Some(
            WeblogConfiguration {
                weblog_title,
                weblog_description,
                author,
                separator,
                tag_path,
                timezone,
                date_format,
                default_post,
                feed_post_count,
                recents_posts_format,
                post_list_format,
                search_satus,
                search_status_success_message,
                search_results_failure_message,
                search_results_format,
            },
        )
    }
}

/// Weblog configuration in different formats
#[derive(Debug, PartialEq)]
pub struct WeblogConfigurationFormats {
    pub object: WeblogConfiguration,
    pub json: String,
    pub raw: String,
}

impl FromJson for WeblogConfigurationFormats {
    open spec fn json_ok(j: JVal) -> bool {
        &&& struct_field_ok::<WeblogConfiguration>(j, "object"@)
        &&& str_field_ok(j, "json"@)
        &&& str_field_ok(j, "raw"@)
    }

    open spec fn json_rel(j: JVal, t: Self) -> bool {
        &&& WeblogConfiguration::json_rel(obj_key(j, "object"@), t.object)
        &&& t.json@ == str_field(j, "json"@)
        &&& t.raw@ == str_field(j, "raw"@)
    }

    fn from_json(v: &serde_json::Value) -> (r: Option<Self>) {
        let object = match get_struct_field::<WeblogConfiguration>(v, "object") {
            Some(x) => x,
            None => return None,
        };
        let json = match get_str_field(v, "json") {
            Some(x) => x,
            None => return None,
        };
        let raw = match get_str_field(v, "raw") {
            Some(x) => x,
            None => return None,
        };
        Some(WeblogConfigurationFormats { object, json, raw })
    }
}

/// API response for a weblog configuration GET request.
#[derive(Debug, PartialEq)]
pub struct WeblogConfigurationResponse {
    pub message: String,
    pub configuration: WeblogConfigurationFormats,
}

impl FromJson for WeblogConfigurationResponse {
    open spec fn json_ok(j: JVal) -> bool {
        &&& str_field_ok(j, "message"@)
        &&& struct_field_ok::<WeblogConfigurationFormats>(j, "configuration"@)
    }

    open spec fn json_rel(j: JVal, t: Self) -> bool {
        &&& t.message@ == str_field(j, "message"@)
        &&& WeblogConfigurationFormats::json_rel(obj_key(j, "configuration"@), t.configuration)
    }

    fn from_json(v: &serde_json::Value) -> (r: Option<Self>) {
        let message = match get_str_field(v, "message") {
            Some(x) => x,
            None => return None,
        };
        let configuration = match get_struct_field::<WeblogConfigurationFormats>(
            v,
            "configuration",
        ) {
            Some(x) => x,
            None => return None,
        };
        Some(WeblogConfigurationResponse { message, configuration })
    }
}

/// API response for a weblog template GET request.
#[derive(Debug, PartialEq)]
pub struct WeblogTemplateResponse {
    pub message: String,
    pub template: String,
}

impl FromJson for WeblogTemplateResponse {
    open spec fn json_ok(j: JVal) -> bool {
        &&& str_field_ok(j, "message"@)
        &&& str_field_ok(j, "template"@)
    }

    open spec fn json_rel(j: JVal, t: Self) -> bool {
        &&& t.message@ == str_field(j, "message"@)
        &&& t.template@ == str_field(j, "template"@)
    }

    fn from_json(v: &serde_json::Value) -> (r: Option<Self>) {
        let message = match get_str_field(v, "message") {
            Some(x) => x,
            None => return None,
        };
        let template = match get_str_field(v, "template") {
            Some(x) => x,
            None => return None,
        };
        Some(WeblogTemplateResponse { message, template })
    }
}

} // verus!
