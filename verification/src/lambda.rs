//! The layer that fits a service to a serverless host, and the address that it
//! hands to the service.

use vstd::prelude::*;
use vstd::string::StringExecFns;

verus! {

/// The layer's one setting: whether to build the request's address anew from its
/// parts, which drops what a host put in front of the path.
#[derive(Clone, Copy, Debug, PartialEq, Eq, Structural)]
pub struct LambdaLayer {
    trim_stage: bool,
}

/// A service wrapped by a `LambdaLayer`.
#[derive(Debug)]
pub struct LambdaService<S> {
    inner: S,
    layer: LambdaLayer,
}

impl Default for LambdaLayer {
    /// A layer that leaves the address alone.
    fn default() -> (r: LambdaLayer)
        ensures
            !r.trim_stage(),
    {
        LambdaLayer { trim_stage: false }
    }
}

/// The address built from its parts: the path alone where there is no host;
/// else scheme (or `https` where there is none), `://`, host and path; then `?`
/// and the query where there is one.
pub open spec fn url_of(
    scheme: Option<Seq<char>>,
    host: Option<Seq<char>>,
    path: Seq<char>,
    query: Option<Seq<char>>,
) -> Seq<char> {
    let base = match host {
        None => path,
        Some(h) => (match scheme {
            Some(s) => s,
            None => "https"@,
        }) + "://"@ + h + path,
    };
    match query {
        None => base,
        Some(q) => base + "?"@ + q,
    }
}

/// The views of an optional string.
pub open spec fn opt_view(s: Option<&str>) -> Option<Seq<char>> {
    match s {
        Some(s) => Some(s@),
        None => None,
    }
}

impl LambdaLayer {
    pub closed spec fn spec_trim_stage(&self) -> bool {
        self.trim_stage
    }

    /// A layer with the given setting.
    pub fn new(trim_stage: bool) -> (r: LambdaLayer)
        ensures
            r.trim_stage() == trim_stage,
    {
        LambdaLayer { trim_stage }
    }

    /// Whether the address is built anew.
    #[verifier::when_used_as_spec(spec_trim_stage)]
    pub fn trim_stage(&self) -> (r: bool)
        ensures
            r == self.trim_stage(),
    {
        self.trim_stage
    }

    /// Wraps `inner` in this layer.
    pub fn layer<S>(&self, inner: S) -> (r: LambdaService<S>)
        ensures
            r.spec_inner() == inner,
            r.layer() == *self,
    {
        LambdaService { inner, layer: *self }
    }

    /// The address to hand to the service in place of the request's own: none
    /// where the layer leaves the address alone, else the one built from the
    /// parts of the request's address.
    pub fn request_url(
        &self,
        scheme: Option<&str>,
        host: Option<&str>,
        path: &str,
        query: Option<&str>,
    ) -> (r: Option<String>)
        ensures
            r.is_some() <==> self.trim_stage(),
            r.is_some() ==> r.unwrap()@ == url_of(
                opt_view(scheme),
                opt_view(host),
                path@,
                opt_view(query),
            ),
    {
        if !self.trim_stage {
            return None;
        }
        let mut url = match host {
            None => String::from_str(path),
            Some(h) => {
                let s = match scheme {
                    Some(s) => s,
                    None => "https",
                };
                String::from_str(s).concat("://").concat(h).concat(path)
            },
        };
        if let Some(q) = query {
            url = url.concat("?").concat(q);
        }
        Some(url)
    }
}

impl<S> LambdaService<S> {
    pub closed spec fn spec_inner(&self) -> S {
        self.inner
    }

    pub closed spec fn spec_layer(&self) -> LambdaLayer {
        self.layer
    }

    /// The wrapped service.
    pub fn inner(&self) -> (r: &S)
        ensures
            *r == self.spec_inner(),
    {
        &self.inner
    }

    /// The layer that wraps it.
    #[verifier::when_used_as_spec(spec_layer)]
    pub fn layer(&self) -> (r: LambdaLayer)
        ensures
            r == self.layer(),
    {
        self.layer
    }

    /// Gives the wrapped service back.
    pub fn into_inner(self) -> (r: S)
        ensures
            r == self.spec_inner(),
    {
        self.inner
    }
}

/// The body of a request or a response at the serverless host.
#[derive(Clone, Debug, PartialEq, Eq)]
pub enum Body {
    Empty,
    Text(String),
    Binary(Vec<u8>),
}

/// What a body holds.
pub enum BodyView {
    Empty,
    Text(Seq<char>),
    Binary(Seq<u8>),
}

impl View for Body {
    type V = BodyView;

    open spec fn view(&self) -> BodyView {
        match self {
            Body::Empty => BodyView::Empty,
            Body::Text(text) => BodyView::Text(text@),
            Body::Binary(bytes) => BodyView::Binary(bytes@),
        }
    }
}

/// The text that `bytes` encode in UTF-8, if they encode one.
pub uninterp spec fn utf8_text(bytes: Seq<u8>) -> Option<Seq<char>>;

/// The body for the bytes of a response, given the text that they encode: the
/// text where there is one, the bytes where there is none.
pub open spec fn body_of(text: Option<Seq<char>>, bytes: Seq<u8>) -> BodyView {
    match text {
        Some(text) => BodyView::Text(text),
        None => BodyView::Binary(bytes),
    }
}

/// `std::str::from_utf8`, with the text copied into a `String`. Trusted: the
/// result depends on the bytes alone; it is the text that `utf8_text` names, and
/// none where the bytes are no UTF-8.
#[verifier::external_body]
fn decode_utf8(bytes: &Vec<u8>) -> (r: Option<String>)
    ensures
        (match r {
            Some(text) => Some(text@),
            None => None,
        }) == utf8_text(bytes@),
{
    match std::str::from_utf8(bytes.as_slice()) {
        Ok(text) => Some(text.to_owned()),
        Err(_) => None,
    }
}

/// The body for the bytes of a response and the text that was decoded from
/// them: the text where there is one, the bytes where there is none.
pub fn body_from(text: Option<String>, bytes: Vec<u8>) -> (r: Body)
    ensures
        r@ == body_of(
            match text {
                Some(text) => Some(text@),
                None => None,
            },
            bytes@,
        ),
{
    match text {
        Some(text) => Body::Text(text),
        None => Body::Binary(bytes),
    }
}

/// The body for the bytes of a response: text where the bytes are UTF-8, the
/// bytes themselves otherwise.
pub fn response_body(bytes: Vec<u8>) -> (r: Body)
    ensures
        r@ == body_of(utf8_text(bytes@), bytes@),
{
    let text = decode_utf8(&bytes);
    body_from(text, bytes)
}

} // verus!
