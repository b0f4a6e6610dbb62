//! What response filters see: the request and the response made for it.
use crate::request_context::{RequestContext, RequestContextModel};
use crate::response::{Response, ResponseModel};
use vstd::prelude::*;

verus! {

/// The request and the response that was made for it.
#[derive(Debug)]
pub struct ResponseContext<'request> {
    request: &'request mut RequestContext,
    response: Response,
}

impl<'a> ResponseContext<'a> {
    /// Pairs the request with its response.
    pub fn new(request: &'a mut RequestContext, response: Response) -> (r: ResponseContext<'a>)
        ensures
            r.request_view() == old(request)@,
            r.response_view() == response@,
    {
        ResponseContext { request, response }
    }

    /// The model of the request.
    pub closed spec fn request_view(&self) -> RequestContextModel {
        (*self.request)@
    }

    /// The model of the response.
    pub closed spec fn response_view(&self) -> ResponseModel {
        self.response@
    }

    /// The request.
    pub fn get_request(&self) -> (r: &RequestContext)
        ensures
            r@ == self.request_view(),
    {
        self.request
    }

    /// The response.
    pub fn get_response(&self) -> (r: &Response)
        ensures
            r@ == self.response_view(),
    {
        &self.response
    }

    /// The request, to change it.
    pub fn get_request_mut(&mut self) -> (r: &mut RequestContext)
        ensures
            r@ == old(self).request_view(),
            final(self).request_view() == final(r)@,
            final(self).response_view() == old(self).response_view(),
    {
        self.request
    }

    /// The response, to change it.
    pub fn get_response_mut(&mut self) -> (r: &mut Response)
        ensures
            r@ == old(self).response_view(),
            final(self).response_view() == final(r)@,
            final(self).request_view() == old(self).request_view(),
    {
        &mut self.response
    }

    /// Replaces the response and gives back the one it had.
    pub fn set_response(&mut self, response: Response) -> (r: Response)
        ensures
            r@ == old(self).response_view(),
            final(self).response_view() == response@,
            final(self).request_view() == old(self).request_view(),
    {
        let mut r = response;
        std::mem::swap(&mut self.response, &mut r);
        r
    }

    /// Separates the request from the response.
    pub fn unwrap(self) -> (r: (&'a RequestContext, Response))
        ensures
            r.0@ == self.request_view(),
            r.1@ == self.response_view(),
    {
        (self.request, self.response)
    }
}

} // verus!
