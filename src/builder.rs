//! The request builder: one HTTP request's method, target, credential and body,
//! tagged with the shape its response is expected to have.

use std::marker::PhantomData;
use vstd::prelude::*;
use crate::text::{as_opt_str, opt_str_view, opt_string_view};

verus! {

/// The HTTP verbs that the builders issue.
#[derive(Clone, Copy, Debug, PartialEq, Eq, Structural)]
pub enum HttpMethod {
    Get,
    Post,
    Put,
    Delete,
}

/// Why a request could not be built.
#[derive(Clone, Copy, Debug, PartialEq, Eq, Structural)]
pub enum RequestError {
    /// The request payload could not be encoded as JSON.
    Serialization,
}

/// What a builder holds, as plain values.
pub struct RequestSpec {
    pub method: HttpMethod,
    pub auth: Seq<char>,
    pub url: Seq<char>,
    pub body: Option<Seq<char>>,
}

/// Everything needed to issue one HTTP request whose response is parsed as `T`.
///
/// `T` is a marker only: no value of it is ever held.
pub struct RequestBuilder<'t, T> {
    pub(crate) method: HttpMethod,
    pub(crate) auth: &'t String,
    pub(crate) url: String,
    pub(crate) resp_t: PhantomData<T>,
    pub(crate) body: Option<String>,
}

impl<'t, T> View for RequestBuilder<'t, T> {
    type V = RequestSpec;

    closed spec fn view(&self) -> RequestSpec {
        RequestSpec {
            method: self.method,
            auth: self.auth@,
            url: self.url@,
            body: opt_string_view(self.body),
        }
    }
}

impl<'t, T> RequestBuilder<'t, T> {
    /// A builder for `method` on `url`, authorised by `auth`, with an optional body.
    pub fn new(method: HttpMethod, auth: &'t String, url: String, body: Option<String>) -> (r: Self)
        ensures
            r@ == (RequestSpec { method, auth: auth@, url: url@, body: opt_string_view(body) }),
    {
        RequestBuilder { method, auth, url, resp_t: PhantomData, body }
    }

    /// Consumes this builder and yields one for `method` with `body`, on the same
    /// URL and with the same credential, whose response is parsed as `U`.
    pub(crate) fn transition<U>(self, method: HttpMethod, body: Option<String>) -> (r: RequestBuilder<'t, U>)
        ensures
            r@ == (RequestSpec { method, auth: self@.auth, url: self@.url, body: opt_string_view(body) }),
    {
        RequestBuilder { method, auth: self.auth, url: self.url, resp_t: PhantomData, body }
    }

    /// The HTTP verb.
    pub fn method(&self) -> (r: HttpMethod)
        ensures
            r == self@.method,
    {
        self.method
    }

    /// The credential shared with the client that made this builder.
    pub fn auth(&self) -> (r: &'t String)
        ensures
            r@ == self@.auth,
    {
        self.auth
    }

    /// The target URL.
    pub fn url(&self) -> (r: &str)
        ensures
            r@ == self@.url,
    {
        self.url.as_str()
    }

    /// The serialized request body, if the request has one.
    pub fn body(&self) -> (r: Option<&str>)
        ensures
            opt_str_view(r) == self@.body,
    {
        as_opt_str(&self.body)
    }
}

} // verus!
