//! The proxy manager: the socket it speaks to, the two documents it caches,
//! and the operations of the daemon.
//!
//! Every operation of the daemon comes in two halves. The first forms the
//! request. The second takes the daemon's reply, which is the body of the
//! response or the failure of the exchange, and says what the operation
//! yields. The caller carries the request to the daemon between the two,
//! once, and hands back what came of it.

use crate::endpoint::{
    connection_path, delay_path, optional_text, spec_connection_path, spec_delay_path, CONFIGS,
    CONFIGS_FORCE, CONNECTIONS, PROVIDERS_PROXIES, PROXIES, VERSION,
};
use crate::error::ClientError;
use crate::json::{
    bytes_outcome, decode, decoded, encode, encoded, from_string_pair, json_is_null,
    json_string_member,
};
use crate::request::{assembled, request_outcome, Method, Request, RequestView};
use crate::uri::{generate_unix_uri, unix_uri};
use hyper::Uri;
use serde_json::Value;
use vstd::prelude::*;

verus! {

/// The two cached documents.
pub struct MihomoData {
    pub proxies: Value,
    pub providers_proxies: Value,
}

impl Default for MihomoData {
    /// Both documents are `null` until they are set.
    fn default() -> (data: MihomoData)
        ensures
            json_is_null(data.proxies),
            json_is_null(data.providers_proxies),
    {
        MihomoData { proxies: Value::default(), providers_proxies: Value::default() }
    }
}

/// The client of one daemon.
pub struct MihomoManager {
    socket_path: String,
    data: MihomoData,
}

/// What a [`MihomoManager`] holds.
pub struct ManagerView {
    pub socket_path: Seq<char>,
    pub proxies: Value,
    pub providers_proxies: Value,
}

/// The body of a reply, or the failure of the exchange.
pub type Reply = Result<Vec<u8>, ClientError>;

/// The document that a reply carries, or the failure that it is.
pub open spec fn received(reply: Result<Seq<u8>, ClientError>) -> Result<Value, ClientError> {
    match reply {
        Ok(bytes) => decoded(bytes),
        Err(error) => Err(error),
    }
}

/// Whether a reply carries a document, which is then set aside.
pub open spec fn accepted(reply: Result<Seq<u8>, ClientError>) -> Result<(), ClientError> {
    match received(reply) {
        Ok(_) => Ok(()),
        Err(error) => Err(error),
    }
}

/// The outcome of storing what was fetched.
pub open spec fn stored(fetched: Result<Value, ClientError>) -> Result<(), ClientError> {
    match fetched {
        Ok(_) => Ok(()),
        Err(error) => Err(error),
    }
}

impl ManagerView {
    /// Whether this is a manager as it is made: it speaks to the socket at
    /// `socket_path`, and both its slots hold `null`.
    pub open spec fn is_fresh(self, socket_path: Seq<char>) -> bool {
        &&& self.socket_path == socket_path
        &&& json_is_null(self.proxies)
        &&& json_is_null(self.providers_proxies)
    }

    /// The manager after `data` was written to the proxies slot.
    pub open spec fn with_proxies(self, data: Value) -> ManagerView {
        ManagerView { proxies: data, ..self }
    }

    /// The manager after `data` was written to the provider proxies slot.
    pub open spec fn with_providers_proxies(self, data: Value) -> ManagerView {
        ManagerView { providers_proxies: data, ..self }
    }

    /// The manager after an attempt to fetch the proxies: a document is
    /// written to its slot, a failure changes nothing.
    pub open spec fn after_proxies(self, fetched: Result<Value, ClientError>) -> ManagerView {
        match fetched {
            Ok(data) => self.with_proxies(data),
            Err(_) => self,
        }
    }

    /// The manager after an attempt to fetch the provider proxies: a
    /// document is written to its slot, a failure changes nothing.
    pub open spec fn after_providers_proxies(
        self,
        fetched: Result<Value, ClientError>,
    ) -> ManagerView {
        match fetched {
            Ok(data) => self.with_providers_proxies(data),
            Err(_) => self,
        }
    }

    /// The request that asks for `path` with `method`, carrying `body` where
    /// there is one.
    pub open spec fn request(self, path: Seq<char>, method: Method, body: Option<Value>) -> Result<
        RequestView,
        ClientError,
    > {
        assembled(
            method,
            unix_uri(self.socket_path, path),
            match body {
                Some(value) => Some(encoded(value)),
                None => None,
            },
        )
    }
}

impl View for MihomoManager {
    type V = ManagerView;

    closed spec fn view(&self) -> ManagerView {
        ManagerView {
            socket_path: self.socket_path@,
            proxies: self.data.proxies,
            providers_proxies: self.data.providers_proxies,
        }
    }
}

impl MihomoManager {
    /// A manager for the daemon that listens on the socket at
    /// `socket_path`. Both cached documents start as `null`.
    pub fn new(socket_path: String) -> (manager: MihomoManager)
        ensures
            manager@.is_fresh(socket_path@),
    {
        MihomoManager { socket_path, data: MihomoData::default() }
    }

    /// The path of the daemon's socket.
    pub fn socket_path(&self) -> (path: &str)
        ensures
            path@ == self@.socket_path,
    {
        self.socket_path.as_str()
    }

    /// Overwrites the cached list of proxies.
    pub fn set_data_proxies(&mut self, data: Value)
        ensures
            final(self)@ == old(self)@.with_proxies(data),
    {
        self.data.proxies = data;
    }

    /// Overwrites the cached list of proxy providers.
    pub fn set_data_providers_proxies(&mut self, data: Value)
        ensures
            final(self)@ == old(self)@.with_providers_proxies(data),
    {
        self.data.providers_proxies = data;
    }

    /// A copy of the cached list of proxies.
    pub fn get_data_proxies(&self) -> (data: Value)
        ensures
            data == self@.proxies,
    {
        self.data.proxies.clone()
    }

    /// A copy of the cached list of proxy providers.
    pub fn get_data_providers_proxies(&self) -> (data: Value)
        ensures
            data == self@.providers_proxies,
    {
        self.data.providers_proxies.clone()
    }

    /// The address of `path` on the daemon.
    pub fn generate_unix_path(&self, path: &str) -> (outcome: Result<Uri, ClientError>)
        ensures
            outcome == unix_uri(self@.socket_path, path@),
    {
        generate_unix_uri(self.socket_path.as_str(), path)
    }

    /// Forms the request that asks for `path` with `method`, carrying `body`
    /// as JSON where there is one.
    pub fn build_request(&self, path: &str, method: Method, body: Option<Value>) -> (outcome:
        Result<Request, ClientError>)
        ensures
            request_outcome(outcome) == self@.request(path@, method, body),
    {
        let uri = self.generate_unix_path(path);
        let encoding = match body {
            Some(value) => Some(encode(&value)),
            None => None,
        };
        Request::assemble(method, uri, encoding)
    }

    /// Reads the reply to a request: the document in the body of the
    /// response, or the failure.
    pub fn read_response(reply: Reply) -> (outcome: Result<Value, ClientError>)
        ensures
            outcome == received(bytes_outcome(reply)),
    {
        match reply {
            Ok(bytes) => decode(bytes.as_slice()),
            Err(error) => Err(error),
        }
    }

    /// Reads the reply to a request whose answer is of no interest beyond
    /// its arrival.
    pub fn accept_response(reply: Reply) -> (outcome: Result<(), ClientError>)
        ensures
            outcome == accepted(bytes_outcome(reply)),
    {
        match Self::read_response(reply) {
            Ok(_) => Ok(()),
            Err(error) => Err(error),
        }
    }

    /// Stores what an attempt to fetch the proxies gave: a document is
    /// written to its slot, a failure is handed on and changes nothing.
    pub fn store_proxies(&mut self, fetched: Result<Value, ClientError>) -> (outcome: Result<
        (),
        ClientError,
    >)
        ensures
            final(self)@ == old(self)@.after_proxies(fetched),
            outcome == stored(fetched),
    {
        match fetched {
            Ok(data) => {
                self.set_data_proxies(data);
                Ok(())
            },
            Err(error) => Err(error),
        }
    }

    /// Stores what an attempt to fetch the provider proxies gave: a document
    /// is written to its slot, a failure is handed on and changes nothing.
    pub fn store_providers_proxies(&mut self, fetched: Result<Value, ClientError>) -> (outcome:
        Result<(), ClientError>)
        ensures
            final(self)@ == old(self)@.after_providers_proxies(fetched),
            outcome == stored(fetched),
    {
        match fetched {
            Ok(data) => {
                self.set_data_providers_proxies(data);
                Ok(())
            },
            Err(error) => Err(error),
        }
    }
    /// Asks whether the daemon runs.
    pub fn is_mihomo_running_request(&self) -> (outcome: Result<Request, ClientError>)
        ensures
            request_outcome(outcome) == self@.request(VERSION@, Method::Get, None),
    {
        self.build_request(VERSION, Method::Get, None)
    }

    /// The daemon runs where it answered with a document; the document is
    /// set aside.
    pub fn is_mihomo_running_response(reply: Reply) -> (outcome: Result<(), ClientError>)
        ensures
            outcome == accepted(bytes_outcome(reply)),
    {
        Self::accept_response(reply)
    }

    /// Tells the daemon to load the configuration file at
    /// `clash_config_path`, even where replacing the running one is unsafe.
    pub fn put_configs_force_request(&self, clash_config_path: &str) -> (outcome: Result<
        Request,
        ClientError,
    >)
        ensures
            request_outcome(outcome) == self@.request(
                CONFIGS_FORCE@,
                Method::Put,
                Some(json_string_member("path"@, clash_config_path@)),
            ),
    {
        let body = from_string_pair("path", clash_config_path);
        self.build_request(CONFIGS_FORCE, Method::Put, Some(body))
    }

    /// The daemon took the configuration where it answered with a document.
    pub fn put_configs_force_response(reply: Reply) -> (outcome: Result<(), ClientError>)
        ensures
            outcome == accepted(bytes_outcome(reply)),
    {
        Self::accept_response(reply)
    }

    /// Tells the daemon to change the running configuration as `config`
    /// says.
    pub fn patch_configs_request(&self, config: Value) -> (outcome: Result<Request, ClientError>)
        ensures
            request_outcome(outcome) == self@.request(CONFIGS@, Method::Patch, Some(config)),
    {
        self.build_request(CONFIGS, Method::Patch, Some(config))
    }

    /// The daemon took the change where it answered with a document.
    pub fn patch_configs_response(reply: Reply) -> (outcome: Result<(), ClientError>)
        ensures
            outcome == accepted(bytes_outcome(reply)),
    {
        Self::accept_response(reply)
    }

    /// Asks for the list of proxies.
    pub fn refresh_proxies_request(&self) -> (outcome: Result<Request, ClientError>)
        ensures
            request_outcome(outcome) == self@.request(PROXIES@, Method::Get, None),
    {
        self.build_request(PROXIES, Method::Get, None)
    }

    /// Caches the list of proxies that the daemon sent. Where the reply is
    /// a failure, or no document, the cache keeps what it had and the
    /// failure is handed on.
    pub fn refresh_proxies_response(&mut self, reply: Reply) -> (outcome: Result<(), ClientError>)
        ensures
            final(self)@ == old(self)@.after_proxies(received(bytes_outcome(reply))),
            outcome == accepted(bytes_outcome(reply)),
    {
        let fetched = Self::read_response(reply);
        self.store_proxies(fetched)
    }

    /// Asks for the list of proxy providers.
    pub fn refresh_providers_proxies_request(&self) -> (outcome: Result<Request, ClientError>)
        ensures
            request_outcome(outcome) == self@.request(PROVIDERS_PROXIES@, Method::Get, None),
    {
        self.build_request(PROVIDERS_PROXIES, Method::Get, None)
    }

    /// Caches the list of proxy providers that the daemon sent. Where the
    /// reply is a failure, or no document, the cache keeps what it had and
    /// the failure is handed on.
    pub fn refresh_providers_proxies_response(&mut self, reply: Reply) -> (outcome: Result<
        (),
        ClientError,
    >)
        ensures
            final(self)@ == old(self)@.after_providers_proxies(received(bytes_outcome(reply))),
            outcome == accepted(bytes_outcome(reply)),
    {
        let fetched = Self::read_response(reply);
        self.store_providers_proxies(fetched)
    }

    /// Asks for the open connections.
    pub fn get_connections_request(&self) -> (outcome: Result<Request, ClientError>)
        ensures
            request_outcome(outcome) == self@.request(CONNECTIONS@, Method::Get, None),
    {
        self.build_request(CONNECTIONS, Method::Get, None)
    }

    /// The open connections, as the daemon sent them. Nothing is cached.
    pub fn get_connections_response(reply: Reply) -> (outcome: Result<Value, ClientError>)
        ensures
            outcome == received(bytes_outcome(reply)),
    {
        Self::read_response(reply)
    }

    /// Tells the daemon to close the connection `id`.
    pub fn delete_connections_request(&self, id: &str) -> (outcome: Result<Request, ClientError>)
        ensures
            request_outcome(outcome) == self@.request(
                spec_connection_path(id@),
                Method::Delete,
                None,
            ),
    {
        let path = connection_path(id);
        self.build_request(path.as_str(), Method::Delete, None)
    }

    /// The daemon closed the connection where it answered with a document.
    pub fn delete_connections_response(reply: Reply) -> (outcome: Result<(), ClientError>)
        ensures
            outcome == accepted(bytes_outcome(reply)),
    {
        Self::accept_response(reply)
    }

    /// Asks the daemon to measure the delay of the proxy `name` by fetching
    /// `test_url`, or the default URL where none is given, giving up after
    /// `timeout` milliseconds.
    pub fn test_proxy_delay_request(
        &self,
        name: &str,
        test_url: Option<String>,
        timeout: i32,
    ) -> (outcome: Result<Request, ClientError>)
        ensures
            request_outcome(outcome) == self@.request(
                spec_delay_path(name@, optional_text(test_url), timeout as int),
                Method::Get,
                None,
            ),
    {
        let path = delay_path(name, test_url, timeout);
        self.build_request(path.as_str(), Method::Get, None)
    }

    /// The measured delay, as the daemon sent it.
    pub fn test_proxy_delay_response(reply: Reply) -> (outcome: Result<Value, ClientError>)
        ensures
            outcome == received(bytes_outcome(reply)),
    {
        Self::read_response(reply)
    }
}

} // verus!
