//! The description of one outbound call.

use crate::timeout::Timeout;
use reqwest::Method;
use std::collections::HashMap;
use vstd::prelude::*;

verus! {

/// `serde_json::Value`, a JSON document.
#[verifier::external_type_specification]
#[verifier::external_body]
pub struct ExJsonValue(serde_json::Value);

/// One outbound call. Only `url` and `method` are required; an absent field
/// leaves the default behaviour in place. No function of the library changes
/// a request.
#[derive(Debug)]
pub struct Request {
    pub url: String,
    pub method: Method,
    /// A structured payload, sent as JSON.
    pub body: Option<serde_json::Value>,
    /// A payload sent as it is. Applied after `body`, so it wins over it.
    pub raw_body: Option<String>,
    pub headers: Option<HashMap<String, String>>,
    /// `Some(false)` stops the client from following redirects.
    pub enable_redirect: Option<bool>,
    pub force_json_decode: Option<bool>,
    pub force_yaml_decode: Option<bool>,
    pub tls_use_system_cert: Option<bool>,
    pub tls_ca_cert: Option<String>,
    pub tls_ca_cert_file: Option<String>,
    pub tls_ca_cert_env_variable: Option<String>,
    pub tls_client_key: Option<String>,
    pub tls_client_key_file: Option<String>,
    pub tls_client_key_env_variable: Option<String>,
    pub timeout: Option<Timeout>,
    pub tls_insecure_skip_verify: Option<bool>,
    pub tls_server_name: Option<String>,
    pub cache: Option<bool>,
    pub force_cache: Option<bool>,
    pub force_cache_duration_seconds: Option<bool>,
    pub caching_mode: Option<String>,
    pub raise_error: Option<bool>,
    pub max_retry_attempts: Option<u32>,
}

impl Request {
    /// Whether the request sets nothing but its address and method.
    pub open spec fn is_plain(self) -> bool {
        &&& self.body is None
        &&& self.raw_body is None
        &&& self.headers is None
        &&& self.enable_redirect is None
        &&& self.force_json_decode is None
        &&& self.force_yaml_decode is None
        &&& self.tls_use_system_cert is None
        &&& self.tls_ca_cert is None
        &&& self.tls_ca_cert_file is None
        &&& self.tls_ca_cert_env_variable is None
        &&& self.tls_client_key is None
        &&& self.tls_client_key_file is None
        &&& self.tls_client_key_env_variable is None
        &&& self.timeout is None
        &&& self.tls_insecure_skip_verify is None
        &&& self.tls_server_name is None
        &&& self.cache is None
        &&& self.force_cache is None
        &&& self.force_cache_duration_seconds is None
        &&& self.caching_mode is None
        &&& self.raise_error is None
        &&& self.max_retry_attempts is None
    }

    /// The request for an address with a method, and nothing else set.
    pub fn new(url: String, method: Method) -> (r: Request)
        ensures
            r.url == url,
            r.method == method,
            r.is_plain(),
    {
        Request {
            url,
            method,
            body: None,
            raw_body: None,
            headers: None,
            enable_redirect: None,
            force_json_decode: None,
            force_yaml_decode: None,
            tls_use_system_cert: None,
            tls_ca_cert: None,
            tls_ca_cert_file: None,
            tls_ca_cert_env_variable: None,
            tls_client_key: None,
            tls_client_key_file: None,
            tls_client_key_env_variable: None,
            timeout: None,
            tls_insecure_skip_verify: None,
            tls_server_name: None,
            cache: None,
            force_cache: None,
            force_cache_duration_seconds: None,
            caching_mode: None,
            raise_error: None,
            max_retry_attempts: None,
        }
    }
}

} // verus!
