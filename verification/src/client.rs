//! The typed client: a handle over the HTTP transport that prepares
//! requests and interprets replies.
//!
//! A handle comes in two flavours that its type records: `NoAuth`, made by
//! `new`, may only prepare the public calls; `Auth`, made by `auth`,
//! carries a bearer credential and may prepare every call.  Preparing a
//! request performs no exchange: it yields the one URL, verb, credential
//! and body of the call, and `interpret_response` turns the transport's
//! answer into a typed result.

use vstd::prelude::*;

use core::marker::PhantomData;

use crate::email::{format_addresses_string, joined_addresses};
use crate::json::{json_of, FromJson};
use crate::structures::{
    Address, AccountResponse, ContentAsJSON, DispatchError, DNSrecords, Expiration,
    ForwardingAddresses, MessageResponse, Paste, PastebinResponse, PasteResponse, ProfileThemes,
    PurlResponse, PurlsResponse, RequestError, RequestResponse, ServiceStatus, Status,
    StatuslogAllStatuses, StatuslogBio, StatuslogResponseArray, StatuslogUpdateResponse, Web,
    WeblogConfigurationResponse, WeblogEntryResponse, WeblogTemplateResponse,
};

verus! {

/// Marker of a handle that carries a bearer credential.
pub struct Auth;

/// Marker of a handle without a credential, restricted to public calls.
pub struct NoAuth;

#[verifier::external_type_specification]
#[verifier::external_body]
pub struct ExReqwestClient(reqwest::Client);

/// Relies on `reqwest::Client::new`: a fresh transport handle over a new
/// connection pool.
#[verifier::external_body]
fn new_transport() -> reqwest::Client {
    reqwest::Client::new()
}

/// Relies on `reqwest::Client::clone`: the clone shares the connection
/// pool of the original, which stays usable.
#[verifier::external_body]
fn clone_transport(c: &reqwest::Client) -> reqwest::Client {
    c.clone()
}

/// The verb of an outbound request.
#[derive(Clone, Copy, Debug, PartialEq, Eq, Structural)]
pub enum HttpVerb {
    Get,
    Post,
    Delete,
}

/// One fully determined outbound request, ready to be sent: the verb, the
/// full URL, the bearer credential to attach if any, and the body to send
/// if any.  The type parameter names the payload shape the reply is
/// expected to carry.
pub struct PreparedRequest<T> {
    pub method: HttpVerb,
    pub url: String,
    pub bearer: Option<String>,
    pub body: Option<String>,
    pub expects: PhantomData<T>,
}

/// Client for api.omg.lol
pub struct OmglolClient<State = NoAuth> {
    client: reqwest::Client,
    api_key: Option<String>,
    state: PhantomData<State>,
}

impl<State> OmglolClient<State> {
    /// The bearer credential this handle carries, if any.
    pub closed spec fn credential(self) -> Option<String> {
        self.api_key
    }

    /// Whether a credential is attached to this handle.
    pub open spec fn has_credential(self) -> bool {
        self.credential() is Some
    }

    /// Whether a credential is attached, decided at run time.
    pub fn has_key(&self) -> (b: bool)
        ensures
            b == self.has_credential(),
    {
        self.api_key.is_some()
    }

    /// Borrow the underlying transport, for the caller that performs the
    /// exchange.
    pub fn transport(&self) -> &reqwest::Client {
        &self.client
    }

    /// Build the one outbound request of a call.
    ///
    /// The full URL is the fixed origin followed by `suffix`; the handle's
    /// credential is attached exactly when the call requires
    /// authentication, which the caller may only ask of a handle that
    /// carries one; the body is passed through unchanged.
    pub fn prepare_request<T>(
        &self,
        requires_auth: bool,
        method: HttpVerb,
        suffix: &str,
        body: Option<String>,
    ) -> (r: PreparedRequest<T>)
        requires
            requires_auth ==> self.has_credential(),
        ensures
            r.method == method,
            r.url@ == crate::api_url(suffix@),
            r.bearer == (if requires_auth {
                self.credential()
            } else {
                None::<String>
            }),
            r.body == body,
    {
        let mut url = crate::API_BASE.to_owned();
        url.append(suffix);
        let bearer = if requires_auth {
            match &self.api_key {
                Some(k) => Some(k.clone()),
                None => None,
            }
        } else {
            None
        };
        PreparedRequest { method, url, bearer, body, expects: PhantomData }
    }
}

impl OmglolClient<Auth> {
    /// Get all DNS records of an address.
    pub fn get_dns_records(&self, address: &str) -> (r: PreparedRequest<DNSrecords>)
        requires
            self.has_credential(),
        ensures
            r.method == HttpVerb::Get,
            r.url@ == crate::api_url("address/"@ + address@ + "/dns"@),
            r.bearer == self.credential(),
            r.body is None,
    {
        let mut suffix = "address/".to_owned();
        suffix.append(address);
        suffix.append("/dns");
        self.prepare_request::<DNSrecords>(true, HttpVerb::Get, suffix.as_str(), None)
    }

    /// Delete one DNS record by its id.
    pub fn delete_dns_record(&self, address: &str, id: &str) -> (r: PreparedRequest<DNSrecords>)
        requires
            self.has_credential(),
        ensures
            r.method == HttpVerb::Delete,
            r.url@ == crate::api_url("address/"@ + address@ + "/dns/"@ + id@),
            r.bearer == self.credential(),
            r.body is None,
    {
        let mut suffix = "address/".to_owned();
        suffix.append(address);
        suffix.append("/dns/");
        suffix.append(id);
        self.prepare_request::<DNSrecords>(true, HttpVerb::Delete, suffix.as_str(), None)
    }

    /// Get one status log entry by its id.
    pub fn get_status(&self, address: &str, id: &str) -> (r: PreparedRequest<
        StatuslogResponseArray,
    >)
        requires
            self.has_credential(),
        ensures
            r.method == HttpVerb::Get,
            r.url@ == crate::api_url("address/"@ + address@ + "/statuses/"@ + id@),
            r.bearer == self.credential(),
            r.body is None,
    {
        let mut suffix = "address/".to_owned();
        suffix.append(address);
        suffix.append("/statuses/");
        suffix.append(id);
        self.prepare_request::<StatuslogResponseArray>(true, HttpVerb::Get, suffix.as_str(), None)
    }

    /// Post a new status to the status log of the status' address.
    pub fn post_status(&self, status: &Status) -> (r: PreparedRequest<StatuslogResponseArray>)
        requires
            self.has_credential(),
        ensures
            r.method == HttpVerb::Post,
            r.url@ == crate::api_url("address/"@ + status.address@ + "/statuses"@),
            r.bearer == self.credential(),
            r.body matches Some(b) && b@ == status.json_body(),
    {
        let mut suffix = "address/".to_owned();
        suffix.append(status.address.as_str());
        suffix.append("/statuses");
        let body = status.to_json_string();
        self.prepare_request::<StatuslogResponseArray>(
            true,
            HttpVerb::Post,
            suffix.as_str(),
            Some(body),
        )
    }

    /// Update the single status of the status' address.
    pub fn update_status(&self, status: &Status) -> (r: PreparedRequest<StatuslogUpdateResponse>)
        requires
            self.has_credential(),
        ensures
            r.method == HttpVerb::Post,
            r.url@ == crate::api_url("address/"@ + status.address@ + "/status"@),
            r.bearer == self.credential(),
            r.body matches Some(b) && b@ == status.json_body(),
    {
        let mut suffix = "address/".to_owned();
        suffix.append(status.address.as_str());
        suffix.append("/status");
        let body = status.to_json_string();
        self.prepare_request::<StatuslogUpdateResponse>(
            true,
            HttpVerb::Post,
            suffix.as_str(),
            Some(body),
        )
    }

    /// Update the status log bio of an address.
    pub fn update_statuslog_bio<T: ContentAsJSON>(&self, bio: T, address: &str) -> (r:
        PreparedRequest<StatuslogBio>)
        requires
            self.has_credential(),
        ensures
            r.method == HttpVerb::Post,
            r.url@ == crate::api_url("address/"@ + address@ + "/statuses/bio"@),
            r.bearer == self.credential(),
            r.body matches Some(b) && b@ == bio.json_content_spec(),
    {
        let mut suffix = "address/".to_owned();
        suffix.append(address);
        suffix.append("/statuses/bio");
        let body = bio.json_content();
        self.prepare_request::<StatuslogBio>(true, HttpVerb::Post, suffix.as_str(), Some(body))
    }

    /// Get the forwarding addresses of an @omg.lol email address.
    pub fn get_forwarding_addresses(&self, address: &str) -> (r: PreparedRequest<
        ForwardingAddresses,
    >)
        requires
            self.has_credential(),
        ensures
            r.method == HttpVerb::Get,
            r.url@ == crate::api_url("address/"@ + address@ + "/email"@),
            r.bearer == self.credential(),
            r.body is None,
    {
        let mut suffix = "address/".to_owned();
        suffix.append(address);
        suffix.append("/email");
        self.prepare_request::<ForwardingAddresses>(true, HttpVerb::Get, suffix.as_str(), None)
    }

    /// Set the forwarding addresses of an @omg.lol email address.
    pub fn set_forwarding_addresses(&self, address: &str, destination: &Vec<String>) -> (r:
        PreparedRequest<ForwardingAddresses>)
        requires
            self.has_credential(),
            destination.len() >= 1,
        ensures
            r.method == HttpVerb::Get,
            r.url@ == crate::api_url("address/"@ + address@ + "/email"@),
            r.bearer == self.credential(),
            r.body matches Some(b) && b@ == "{\"destination\": \""@ + joined_addresses(
                destination@,
            ) + "\"}"@,
    {
        let mut suffix = "address/".to_owned();
        suffix.append(address);
        suffix.append("/email");
        let body = format_addresses_string(destination);
        self.prepare_request::<ForwardingAddresses>(
            true,
            HttpVerb::Get,
            suffix.as_str(),
            Some(body),
        )
    }

    /// Get every paste in the pastebin of an address.
    pub fn get_pastebin(&self, address: &str) -> (r: PreparedRequest<PastebinResponse>)
        requires
            self.has_credential(),
        ensures
            r.method == HttpVerb::Get,
            r.url@ == crate::api_url("address/"@ + address@ + "/pastebin"@),
            r.bearer == self.credential(),
            r.body is None,
    {
        let mut suffix = "address/".to_owned();
        suffix.append(address);
        suffix.append("/pastebin");
        self.prepare_request::<PastebinResponse>(true, HttpVerb::Get, suffix.as_str(), None)
    }

    /// Create a weblog entry under the given id.
    pub fn create_weblog_entry(&self, content: &str, entry_id: &str, address: &str) -> (r:
        PreparedRequest<WeblogEntryResponse>)
        requires
            self.has_credential(),
        ensures
            r.method == HttpVerb::Post,
            r.url@ == crate::api_url("address/"@ + address@ + "/weblog/entry/"@ + entry_id@),
            r.bearer == self.credential(),
            r.body matches Some(b) && b@ == content@,
    {
        let mut suffix = "address/".to_owned();
        suffix.append(address);
        suffix.append("/weblog/entry/");
        suffix.append(entry_id);
        self.prepare_request::<WeblogEntryResponse>(
            true,
            HttpVerb::Post,
            suffix.as_str(),
            Some(content.to_owned()),
        )
    }

    /// Update the weblog configuration of an address.
    pub fn update_weblog_configuration(&self, configuration: &str, address: &str) -> (r:
        PreparedRequest<WeblogEntryResponse>)
        requires
            self.has_credential(),
        ensures
            r.method == HttpVerb::Post,
            r.url@ == crate::api_url("address/"@ + address@ + "/weblog/template"@),
            r.bearer == self.credential(),
            r.body matches Some(b) && b@ == configuration@,
    {
        let mut suffix = "address/".to_owned();
        suffix.append(address);
        suffix.append("/weblog/template");
        self.prepare_request::<WeblogEntryResponse>(
            true,
            HttpVerb::Post,
            suffix.as_str(),
            Some(configuration.to_owned()),
        )
    }

    /// Get one persistent URL of an address.
    pub fn get_purl(&self, address: &str, purl_address: &str) -> (r: PreparedRequest<PurlResponse>)
        requires
            self.has_credential(),
        ensures
            r.method == HttpVerb::Get,
            r.url@ == crate::api_url("address/"@ + address@ + "/purl/"@ + purl_address@),
            r.bearer == self.credential(),
            r.body is None,
    {
        let mut suffix = "address/".to_owned();
        suffix.append(address);
        suffix.append("/purl/");
        suffix.append(purl_address);
        self.prepare_request::<PurlResponse>(true, HttpVerb::Get, suffix.as_str(), None)
    }

    /// Get every persistent URL of an address.
    pub fn get_all_purls(&self, address: &str) -> (r: PreparedRequest<PurlsResponse>)
        requires
            self.has_credential(),
        ensures
            r.method == HttpVerb::Get,
            r.url@ == crate::api_url("address/"@ + address@ + "/purls"@),
            r.bearer == self.credential(),
            r.body is None,
    {
        let mut suffix = "address/".to_owned();
        suffix.append(address);
        suffix.append("/purls");
        self.prepare_request::<PurlsResponse>(true, HttpVerb::Get, suffix.as_str(), None)
    }

    /// Delete one persistent URL of an address.
    pub fn delete_purl(&self, address: &str, purl_address: &str) -> (r: PreparedRequest<
        MessageResponse,
    >)
        requires
            self.has_credential(),
        ensures
            r.method == HttpVerb::Delete,
            r.url@ == crate::api_url("address/"@ + address@ + "/purl/"@ + purl_address@),
            r.bearer == self.credential(),
            r.body is None,
    {
        let mut suffix = "address/".to_owned();
        suffix.append(address);
        suffix.append("/purl/");
        suffix.append(purl_address);
        self.prepare_request::<MessageResponse>(true, HttpVerb::Delete, suffix.as_str(), None)
    }

    /// Get the account information behind an email address.
    pub fn get_account_info(&self, email: &str) -> (r: PreparedRequest<AccountResponse>)
        requires
            self.has_credential(),
        ensures
            r.method == HttpVerb::Get,
            r.url@ == crate::api_url("account/"@ + email@ + "/info"@),
            r.bearer == self.credential(),
            r.body is None,
    {
        let mut suffix = "account/".to_owned();
        suffix.append(email);
        suffix.append("/info");
        self.prepare_request::<AccountResponse>(true, HttpVerb::Get, suffix.as_str(), None)
    }

    /// Get the private information of an address.
    pub fn get_private_address_info(&self, address: &str) -> (r: PreparedRequest<Address>)
        requires
            self.has_credential(),
        ensures
            r.method == HttpVerb::Get,
            r.url@ == crate::api_url("account/"@ + address@ + "/info"@),
            r.bearer == self.credential(),
            r.body is None,
    {
        let mut suffix = "account/".to_owned();
        suffix.append(address);
        suffix.append("/info");
        self.prepare_request::<Address>(true, HttpVerb::Get, suffix.as_str(), None)
    }

    /// Get the expiration of an address.
    pub fn get_address_expiration(&self, address: &str) -> (r: PreparedRequest<Expiration>)
        requires
            self.has_credential(),
        ensures
            r.method == HttpVerb::Get,
            r.url@ == crate::api_url("account/"@ + address@ + "/expiration"@),
            r.bearer == self.credential(),
            r.body is None,
    {
        let mut suffix = "account/".to_owned();
        suffix.append(address);
        suffix.append("/expiration");
        self.prepare_request::<Expiration>(true, HttpVerb::Get, suffix.as_str(), None)
    }

    /// Get the profile page of an address.
    pub fn get_web_page(&self, address: &str) -> (r: PreparedRequest<Web>)
        requires
            self.has_credential(),
        ensures
            r.method == HttpVerb::Get,
            r.url@ == crate::api_url("address/"@ + address@ + "/web"@),
            r.bearer == self.credential(),
            r.body is None,
    {
        let mut suffix = "address/".to_owned();
        suffix.append(address);
        suffix.append("/web");
        self.prepare_request::<Web>(true, HttpVerb::Get, suffix.as_str(), None)
    }

    /// Update the profile page of an address.
    pub fn update_web_page(&self, web: &Web, address: &str) -> (r: PreparedRequest<
        MessageResponse,
    >)
        requires
            self.has_credential(),
        ensures
            r.method == HttpVerb::Post,
            r.url@ == crate::api_url("address/"@ + address@ + "/web"@),
            r.bearer == self.credential(),
            r.body matches Some(b) && b@ == web.json_body(),
    {
        let mut suffix = "address/".to_owned();
        suffix.append(address);
        suffix.append("/web");
        let body = web.to_json_string();
        self.prepare_request::<MessageResponse>(true, HttpVerb::Post, suffix.as_str(), Some(body))
    }

    /// Get one weblog entry by its id.
    pub fn get_weblog_entry(&self, entry_id: &str, address: &str) -> (r: PreparedRequest<
        WeblogEntryResponse,
    >)
        requires
            self.has_credential(),
        ensures
            r.method == HttpVerb::Get,
            r.url@ == crate::api_url("address/"@ + address@ + "/weblog/entry/"@ + entry_id@),
            r.bearer == self.credential(),
            r.body is None,
    {
        let mut suffix = "address/".to_owned();
        suffix.append(address);
        suffix.append("/weblog/entry/");
        suffix.append(entry_id);
        self.prepare_request::<WeblogEntryResponse>(true, HttpVerb::Get, suffix.as_str(), None)
    }

    /// Delete one weblog entry by its id.
    pub fn delete_weblog_entry(&self, entry_id: &str, address: &str) -> (r: PreparedRequest<
        MessageResponse,
    >)
        requires
            self.has_credential(),
        ensures
            r.method == HttpVerb::Delete,
            r.url@ == crate::api_url("address/"@ + address@ + "/weblog/delete/"@ + entry_id@),
            r.bearer == self.credential(),
            r.body is None,
    {
        let mut suffix = "address/".to_owned();
        suffix.append(address);
        suffix.append("/weblog/delete/");
        suffix.append(entry_id);
        self.prepare_request::<MessageResponse>(true, HttpVerb::Delete, suffix.as_str(), None)
    }

    /// Get the weblog configuration of an address.
    pub fn get_weblog_configuration(&self, address: &str) -> (r: PreparedRequest<
        WeblogConfigurationResponse,
    >)
        requires
            self.has_credential(),
        ensures
            r.method == HttpVerb::Get,
            r.url@ == crate::api_url("address/"@ + address@ + "/weblog/configuration"@),
            r.bearer == self.credential(),
            r.body is None,
    {
        let mut suffix = "address/".to_owned();
        suffix.append(address);
        suffix.append("/weblog/configuration");
        self.prepare_request::<WeblogConfigurationResponse>(
            true,
            HttpVerb::Get,
            suffix.as_str(),
            None,
        )
    }

    /// Get the weblog template of an address.
    pub fn get_weblog_template(&self, address: &str) -> (r: PreparedRequest<
        WeblogTemplateResponse,
    >)
        requires
            self.has_credential(),
        ensures
            r.method == HttpVerb::Get,
            r.url@ == crate::api_url("address/"@ + address@ + "/weblog/template"@),
            r.bearer == self.credential(),
            r.body is None,
    {
        let mut suffix = "address/".to_owned();
        suffix.append(address);
        suffix.append("/weblog/template");
        self.prepare_request::<WeblogTemplateResponse>(true, HttpVerb::Get, suffix.as_str(), None)
    }

    /// Update the weblog template of an address.
    pub fn update_weblog_template(&self, template: &str, address: &str) -> (r: PreparedRequest<
        WeblogTemplateResponse,
    >)
        requires
            self.has_credential(),
        ensures
            r.method == HttpVerb::Post,
            r.url@ == crate::api_url("address/"@ + address@ + "/weblog/template"@),
            r.bearer == self.credential(),
            r.body matches Some(b) && b@ == template@,
    {
        let mut suffix = "address/".to_owned();
        suffix.append(address);
        suffix.append("/weblog/template");
        self.prepare_request::<WeblogTemplateResponse>(
            true,
            HttpVerb::Post,
            suffix.as_str(),
            Some(template.to_owned()),
        )
    }

    /// Delete one paste of an address' pastebin.  This call goes out
    /// without the credential.
    pub fn delete_paste(&self, address: &str, title: &str) -> (r: PreparedRequest<MessageResponse>)
        ensures
            r.method == HttpVerb::Delete,
            r.url@ == crate::api_url("address/"@ + address@ + "/pastebin/"@ + title@),
            r.bearer is None,
            r.body is None,
    {
        let mut suffix = "address/".to_owned();
        suffix.append(address);
        suffix.append("/pastebin/");
        suffix.append(title);
        self.prepare_request::<MessageResponse>(false, HttpVerb::Delete, suffix.as_str(), None)
    }
}

impl OmglolClient<NoAuth> {
    /// Create a new `OmglolClient`.
    ///
    /// The client is created in unauthenticated form, i.e. restricted to
    /// methods that rely on public endpoints only.  No exchange happens at
    /// construction.
    pub fn new() -> (r: OmglolClient<NoAuth>)
        ensures
            !r.has_credential(),
    {
        OmglolClient { client: new_transport(), api_key: None, state: PhantomData }
    }

    /// Create an authenticated `OmglolClient` out of this one.
    ///
    /// The new handle carries the given key and may call the private
    /// endpoints.  This handle is left as it is and stays usable; the two
    /// share the underlying connection pool.
    pub fn auth(&self, api_key: String) -> (r: OmglolClient<Auth>)
        ensures
            r.credential() == Some(api_key),
    {
        OmglolClient {
            client: clone_transport(&self.client),
            api_key: Some(api_key),
            state: PhantomData,
        }
    }

    /// Get the list of profile themes.
    pub fn get_profile_themes(&self) -> (r: PreparedRequest<ProfileThemes>)
        ensures
            r.method == HttpVerb::Get,
            r.url@ == crate::api_url("theme/list"@),
            r.bearer is None,
            r.body is None,
    {
        self.prepare_request::<ProfileThemes>(false, HttpVerb::Get, "theme/list", None)
    }

    /// Get the headline numbers of the service.
    pub fn service_status(&self) -> (r: PreparedRequest<ServiceStatus>)
        ensures
            r.method == HttpVerb::Get,
            r.url@ == crate::api_url("service/info"@),
            r.bearer is None,
            r.body is None,
    {
        self.prepare_request::<ServiceStatus>(false, HttpVerb::Get, "service/info", None)
    }

    /// Get the status log bio of an address.
    pub fn get_statuslog_bio(&self, address: &str) -> (r: PreparedRequest<StatuslogBio>)
        ensures
            r.method == HttpVerb::Get,
            r.url@ == crate::api_url("address/"@ + address@ + "/statuses/bio"@),
            r.bearer is None,
            r.body is None,
    {
        let mut suffix = "address/".to_owned();
        suffix.append(address);
        suffix.append("/statuses/bio");
        self.prepare_request::<StatuslogBio>(false, HttpVerb::Get, suffix.as_str(), None)
    }

    /// Get the listed pastes of an address' pastebin.
    pub fn get_listed_pastes(&self, address: &str) -> (r: PreparedRequest<PastebinResponse>)
        ensures
            r.method == HttpVerb::Get,
            r.url@ == crate::api_url("address/"@ + address@ + "/pastebin"@),
            r.bearer is None,
            r.body is None,
    {
        let mut suffix = "address/".to_owned();
        suffix.append(address);
        suffix.append("/pastebin");
        self.prepare_request::<PastebinResponse>(false, HttpVerb::Get, suffix.as_str(), None)
    }

    /// Get one paste of an address' pastebin.
    pub fn get_paste(&self, address: &str, title: &str) -> (r: PreparedRequest<PasteResponse>)
        ensures
            r.method == HttpVerb::Get,
            r.url@ == crate::api_url("address/"@ + address@ + "/pastebin/"@ + title@),
            r.bearer is None,
            r.body is None,
    {
        let mut suffix = "address/".to_owned();
        suffix.append(address);
        suffix.append("/pastebin/");
        suffix.append(title);
        self.prepare_request::<PasteResponse>(false, HttpVerb::Get, suffix.as_str(), None)
    }

    /// Upload a paste to an address' pastebin.
    pub fn upload_paste(&self, address: &str, paste: Paste) -> (r: PreparedRequest<PasteResponse>)
        ensures
            r.method == HttpVerb::Post,
            r.url@ == crate::api_url("address/"@ + address@ + "/pastebin"@),
            r.bearer is None,
            r.body matches Some(b) && b@ == paste.json_body(),
    {
        let mut suffix = "address/".to_owned();
        suffix.append(address);
        suffix.append("/pastebin");
        let body = paste.to_json_string();
        self.prepare_request::<PasteResponse>(false, HttpVerb::Post, suffix.as_str(), Some(body))
    }

    /// Get the public information of an address.
    pub fn get_public_address_info(&self, address: &str) -> (r: PreparedRequest<Address>)
        ensures
            r.method == HttpVerb::Get,
            r.url@ == crate::api_url("account/"@ + address@ + "/info"@),
            r.bearer is None,
            r.body is None,
    {
        let mut suffix = "account/".to_owned();
        suffix.append(address);
        suffix.append("/info");
        self.prepare_request::<Address>(false, HttpVerb::Get, suffix.as_str(), None)
    }

    /// Get the latest weblog post of an address.
    pub fn get_latest_weblog_post(&self, address: &str) -> (r: PreparedRequest<
        WeblogEntryResponse,
    >)
        ensures
            r.method == HttpVerb::Get,
            r.url@ == crate::api_url("address/"@ + address@ + "/weblog/post/latest"@),
            r.bearer is None,
            r.body is None,
    {
        let mut suffix = "address/".to_owned();
        suffix.append(address);
        suffix.append("/weblog/post/latest");
        self.prepare_request::<WeblogEntryResponse>(false, HttpVerb::Get, suffix.as_str(), None)
    }

    /// Get every status in the status log of an address.
    pub fn get_all_statuses(&self, address: &str) -> (r: PreparedRequest<StatuslogAllStatuses>)
        ensures
            r.method == HttpVerb::Get,
            r.url@ == crate::api_url("address/"@ + address@ + "/statuses"@),
            r.bearer is None,
            r.body is None,
    {
        let mut suffix = "address/".to_owned();
        suffix.append(address);
        suffix.append("/statuses");
        self.prepare_request::<StatuslogAllStatuses>(false, HttpVerb::Get, suffix.as_str(), None)
    }
}

/// Translate one finished transport exchange into a typed result.
///
/// Any status other than 200 short-circuits into the failure that carries
/// exactly that code, and the body is not looked at.  A 200 body must
/// parse as JSON and decode as the expected envelope: then the decoded
/// envelope is returned, populated field for field; otherwise the call
/// fails as a decode failure, never with a partial value.
pub fn interpret_response<T: FromJson>(status: u16, body: &str) -> (r: Result<
    RequestResponse<T>,
    DispatchError,
>)
    ensures
        status != 200 ==> (r matches Err(DispatchError::RemoteStatusFailure(e)) && e.status_code
            == status),
        status == 200 ==> (match r {
            Ok(env) => {
                &&& json_of(body@) matches Some(j)
                &&& <RequestResponse<T> as FromJson>::json_ok(json_of(body@)->0)
                &&& <RequestResponse<T> as FromJson>::json_rel(json_of(body@)->0, env)
            },
            Err(e) => {
                &&& e is DecodeFailure
                &&& (json_of(body@) matches Some(j) ==> !<RequestResponse<T> as FromJson>::json_ok(
                    j,
                ))
            },
        }),
{
    if status != 200 {
        return Err(DispatchError::RemoteStatusFailure(RequestError { status_code: status }));
    }
    match crate::json::parse_json(body) {
        Some(v) => match RequestResponse::<T>::from_json(&v) {
            Some(env) => Ok(env),
            None => Err(DispatchError::DecodeFailure),
        },
        None => Err(DispatchError::DecodeFailure),
    }
}

} // verus!
