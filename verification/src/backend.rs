//! The client side of the backend's protocol: which request each operation
//! makes, and what the status of the answer means.
//!
//! The library describes a request and judges a status; sending the request
//! and decoding a body are left to the caller.

use crate::device::{Device, DeviceView, Model};
use crate::error::Error;
use crate::libra::{Config, ConfigView};
use vstd::prelude::*;

verus! {

/// The backend that scale units are registered with.
pub const BACKEND_URL: &'static str =
    "https://us-west1-back-of-house-backend.cloudfunctions.net/mise/";

/// The time, in seconds, after which a request is given up.
pub const TIMEOUT_SECS: u64 = 60;

/// The status that answers a successful read or update.
pub const STATUS_OK: u16 = 200;

/// The status that answers a successful creation.
pub const STATUS_CREATED: u16 = 201;

/// The method of a request.
#[derive(Debug, Clone, Copy, PartialEq, Eq, Structural)]
pub enum Method {
    Get,
    Post,
    Put,
}

/// What a request carries in its body.
#[derive(Debug, PartialEq)]
pub enum Payload {
    /// No body.
    Nothing,
    /// A configuration record.
    Record(Config),
    /// The network address of a device.
    Address(String),
}

/// A payload as a mathematical value.
pub enum PayloadView {
    Nothing,
    Record(ConfigView),
    Address(Seq<char>),
}

impl View for Payload {
    type V = PayloadView;

    open spec fn view(&self) -> PayloadView {
        match self {
            Payload::Nothing => PayloadView::Nothing,
            Payload::Record(config) => PayloadView::Record(config@),
            Payload::Address(address) => PayloadView::Address(address@),
        }
    }
}

impl Clone for Payload {
    fn clone(&self) -> (copy: Self)
        ensures
            copy@ == self@,
    {
        match self {
            Payload::Nothing => Payload::Nothing,
            Payload::Record(config) => Payload::Record(config.clone()),
            Payload::Address(address) => Payload::Address(address.clone()),
        }
    }
}

/// What the body of a successful answer holds.
#[derive(Debug, Clone, Copy, PartialEq, Eq, Structural)]
pub enum Answer {
    /// Nothing that is read.
    Nothing,
    /// The identity of a device.
    Identity,
    /// A configuration record.
    Record,
    /// The network address of a device.
    Address,
}

/// One request to the backend.
#[derive(Debug, PartialEq)]
pub struct Request {
    pub method: Method,
    pub url: String,
    /// The token of the bearer authentication, where the request carries one.
    pub bearer: Option<String>,
    pub payload: Payload,
    pub timeout_secs: u64,
    /// The status that means success, where the status is looked at.
    pub expects: Option<u16>,
    /// What the body of a successful answer holds.
    pub answer: Answer,
}

/// A request as a mathematical value.
pub struct RequestView {
    pub method: Method,
    pub url: Seq<char>,
    pub bearer: Option<Seq<char>>,
    pub payload: PayloadView,
    pub timeout_secs: u64,
    pub expects: Option<u16>,
    pub answer: Answer,
}

impl View for Request {
    type V = RequestView;

    open spec fn view(&self) -> RequestView {
        RequestView {
            method: self.method,
            url: self.url@,
            bearer: match self.bearer {
                Some(token) => Some(token@),
                None => None,
            },
            payload: self.payload@,
            timeout_secs: self.timeout_secs,
            expects: self.expects,
            answer: self.answer,
        }
    }
}

impl Clone for Request {
    fn clone(&self) -> (copy: Self)
        ensures
            copy@ == self@,
    {
        Request {
            method: self.method,
            url: self.url.clone(),
            bearer: match &self.bearer {
                Some(token) => Some(token.clone()),
                None => None,
            },
            payload: self.payload.clone(),
            timeout_secs: self.timeout_secs,
            expects: self.expects,
            answer: self.answer,
        }
    }
}

/// The path under which the devices of `model` are created: `<base>/<model>`.
pub open spec fn model_url(base: Seq<char>, model: Model) -> Seq<char> {
    base + "/"@ + model.tag()
}

/// The path of the record of `device`: `<base>/<model>/<serial>`.
pub open spec fn device_url(base: Seq<char>, device: DeviceView) -> Seq<char> {
    base + "/"@ + device.model.tag() + "/"@ + device.serial_number
}

/// The path of the address of `device`: `<base>/address/<model>/<serial>`.
pub open spec fn address_url(base: Seq<char>, device: DeviceView) -> Seq<char> {
    base + "/"@ + "address"@ + "/"@ + device.model.tag() + "/"@ + device.serial_number
}

/// The path from which the record of `device` is pulled: `<base>/<key>`,
/// where the key is the canonical text of the identity.
pub open spec fn pull_url(base: Seq<char>, device: DeviceView) -> Seq<char> {
    base + "/"@ + device.key()
}

/// What a status means for a request that expects `expects`: success where
/// no status is expected or the status is the expected one, else the
/// failure that keeps the status.
pub open spec fn judged(expects: Option<u16>, status: u16) -> Result<(), Error> {
    match expects {
        Some(wanted) => if status == wanted {
            Ok(())
        } else {
            Err(Error::Backend(status))
        },
        None => Ok(()),
    }
}

impl Request {
    /// Judges the status of the answer to this request. Only after success is
    /// a body looked at.
    pub fn judge(&self, status: u16) -> (judgement: Result<(), Error>)
        ensures
            judgement == judged(self.expects, status),
    {
        match self.expects {
            Some(wanted) => if status == wanted {
                Ok(())
            } else {
                Err(Error::Backend(status))
            },
            None => Ok(()),
        }
    }
}

/// The base path of a backend and the token that its requests carry.
#[derive(Debug)]
pub struct ConfigBackend {
    path: String,
    auth_token: String,
}

impl Clone for ConfigBackend {
    fn clone(&self) -> (copy: Self)
        ensures
            copy.base() == self.base(),
            copy.token() == self.token(),
    {
        ConfigBackend { path: self.path.clone(), auth_token: self.auth_token.clone() }
    }
}

impl ConfigBackend {
    /// The base path of the backend.
    pub closed spec fn base(&self) -> Seq<char> {
        self.path@
    }

    /// The token of the backend.
    pub closed spec fn token(&self) -> Seq<char> {
        self.auth_token@
    }

    /// What every request of this backend has in common, around the `method`,
    /// the `url`, the `payload`, the status that means success and what the
    /// answer holds.
    pub open spec fn request(
        &self,
        method: Method,
        url: Seq<char>,
        payload: PayloadView,
        expects: u16,
        answer: Answer,
    ) -> RequestView {
        RequestView {
            method,
            url,
            bearer: Some(self.token()),
            payload,
            timeout_secs: TIMEOUT_SECS,
            expects: Some(expects),
            answer,
        }
    }

    /// The client of the backend at `path`, with the token `auth_token`.
    pub fn new(path: String, auth_token: String) -> (backend: Self)
        ensures
            backend.base() == path@,
            backend.token() == auth_token@,
    {
        Self { path, auth_token }
    }

    /// The base path of the backend.
    pub fn path(&self) -> (path: &str)
        ensures
            path@ == self.base(),
    {
        self.path.as_str()
    }

    /// The token of the backend.
    pub fn auth_token(&self) -> (token: &str)
        ensures
            token@ == self.token(),
    {
        self.auth_token.as_str()
    }

    /// `<base>/<model>/<serial>`, with `infix` between the base and the model.
    fn url_of(&self, infix: Option<&str>, model: Model, serial: Option<&str>) -> (url: String)
        ensures
            url@ == self.base() + match infix {
                Some(word) => "/"@ + word@,
                None => Seq::<char>::empty(),
            } + "/"@ + model.tag() + match serial {
                Some(serial) => "/"@ + serial@,
                None => Seq::<char>::empty(),
            },
    {
        let mut url = self.path.clone();
        if let Some(word) = infix {
            url.append("/");
            url.append(word);
        }
        url.append("/");
        url.append(model.name());
        if let Some(serial) = serial {
            url.append("/");
            url.append(serial);
        }
        url
    }

    /// A request with the parts that all requests of this backend share.
    fn request_to(
        &self,
        method: Method,
        url: String,
        payload: Payload,
        expects: u16,
        answer: Answer,
    ) -> (request: Request)
        ensures
            request@ == self.request(method, url@, payload@, expects, answer),
    {
        Request {
            method,
            url,
            bearer: Some(self.auth_token.clone()),
            payload,
            timeout_secs: TIMEOUT_SECS,
            expects: Some(expects),
            answer,
        }
    }

    /// The request that registers a new device of `model` with the record
    /// `config`: `POST <base>/<model>`. The backend answers `201` and the
    /// identity it gave the device.
    pub fn make_new_device(&self, model: Model, config: Config) -> (request: Request)
        ensures
            request@ == self.request(
                Method::Post,
                model_url(self.base(), model),
                PayloadView::Record(config@),
                STATUS_CREATED,
                Answer::Identity,
            ),
    {
        let url = self.url_of(None, model, None);
        let payload = Payload::Record(config);
        self.request_to(Method::Post, url, payload, STATUS_CREATED, Answer::Identity)
    }

    /// The request that reads the record of `device`:
    /// `GET <base>/<model>/<serial>`. The backend answers `200` and the record.
    pub fn get_config(&self, device: Device) -> (request: Request)
        ensures
            request@ == self.request(
                Method::Get,
                device_url(self.base(), device@),
                PayloadView::Nothing,
                STATUS_OK,
                Answer::Record,
            ),
    {
        let url = self.url_of(None, device.model, Some(device.serial_number.as_str()));
        assert(url@ =~= device_url(self.base(), device@));
        self.request_to(Method::Get, url, Payload::Nothing, STATUS_OK, Answer::Record)
    }

    /// The request that replaces the record of `device` by `config`:
    /// `PUT <base>/<model>/<serial>`. The backend answers `200`.
    pub fn edit_config(&self, device: Device, config: Config) -> (request: Request)
        ensures
            request@ == self.request(
                Method::Put,
                device_url(self.base(), device@),
                PayloadView::Record(config@),
                STATUS_OK,
                Answer::Nothing,
            ),
    {
        let url = self.url_of(None, device.model, Some(device.serial_number.as_str()));
        assert(url@ =~= device_url(self.base(), device@));
        self.request_to(Method::Put, url, Payload::Record(config), STATUS_OK, Answer::Nothing)
    }

    /// The request that reads the network address of `device`:
    /// `GET <base>/address/<model>/<serial>`. The backend answers `200` and
    /// the address.
    pub fn get_address(&self, device: Device) -> (request: Request)
        ensures
            request@ == self.request(
                Method::Get,
                address_url(self.base(), device@),
                PayloadView::Nothing,
                STATUS_OK,
                Answer::Address,
            ),
    {
        let url = self.url_of(Some("address"), device.model, Some(device.serial_number.as_str()));
        assert(url@ =~= address_url(self.base(), device@));
        self.request_to(Method::Get, url, Payload::Nothing, STATUS_OK, Answer::Address)
    }

    /// The request that sets the network address of `device`:
    /// `PUT <base>/address/<model>/<serial>`. The backend answers `200`.
    pub fn put_address(&self, device: Device, address: String) -> (request: Request)
        ensures
            request@ == self.request(
                Method::Put,
                address_url(self.base(), device@),
                PayloadView::Address(address@),
                STATUS_OK,
                Answer::Nothing,
            ),
    {
        let url = self.url_of(Some("address"), device.model, Some(device.serial_number.as_str()));
        assert(url@ =~= address_url(self.base(), device@));
        self.request_to(Method::Put, url, Payload::Address(address), STATUS_OK, Answer::Nothing)
    }
}

/// The request that pulls the record of `device` from the source at `base`:
/// a plain `GET <base>/<key>` without a token. Whatever the status, the body
/// is taken for the record.
pub fn pull(device: &Device, base: &str) -> (request: Request)
    ensures
        request@ == (RequestView {
            method: Method::Get,
            url: pull_url(base@, device@),
            bearer: None,
            payload: PayloadView::Nothing,
            timeout_secs: TIMEOUT_SECS,
            expects: None,
            answer: Answer::Record,
        }),
{
    let mut url = base.to_owned();
    url.append("/");
    url.append(device.to_string().as_str());
    Request {
        method: Method::Get,
        url,
        bearer: None,
        payload: Payload::Nothing,
        timeout_secs: TIMEOUT_SECS,
        expects: None,
        answer: Answer::Record,
    }
}

} // verus!
