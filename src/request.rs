//! The HTTP requests that the client sends, as plain values: the program
//! around the library hands them to its HTTP client.
use vstd::prelude::*;

verus! {

/// Seconds after which a request to the server is abandoned.
pub const TIMEOUT_SECS: u64 = 3;

/// Where the server is and how the client names itself to it.
pub struct ServerConfig {
    pub base_url: String,
    pub client_name: String,
    pub version: String,
    pub device: String,
    pub device_id: String,
}

/// A header or a body field: a name and its value.
pub struct Field {
    pub name: String,
    pub value: String,
}

impl View for Field {
    type V = (Seq<char>, Seq<char>);

    open spec fn view(&self) -> (Seq<char>, Seq<char>) {
        (self.name@, self.value@)
    }
}

/// The HTTP method of a request.
#[derive(Debug, Clone, Copy, PartialEq, Eq)]
pub enum Method {
    Get,
    Post,
}

/// A request ready to send: the body, if any, is a JSON object of string fields.
pub struct HttpRequest {
    pub method: Method,
    pub url: String,
    pub headers: Vec<Field>,
    pub body: Vec<Field>,
    pub timeout_secs: u64,
}

/// The names and values of a list of fields, in order.
pub open spec fn fields_view(s: Seq<Field>) -> Seq<(Seq<char>, Seq<char>)> {
    s.map_values(|f: Field| f@)
}

/// `<client-name>/<version>`, the client's name in `X-Application` and `User-Agent`.
pub open spec fn client_tag(c: &ServerConfig) -> Seq<char> {
    c.client_name@ + "/"@ + c.version@
}

/// The value of the `X-Emby-Authorization` header.
pub open spec fn emby_authorization(c: &ServerConfig) -> Seq<char> {
    "MediaBrowser Client='"@ + c.client_name@ + "', Device='"@ + c.device@ + "', DeviceId='"@
        + c.device_id@ + "', Version='"@ + c.version@ + "'"@
}

/// The headers of a login request, in order.
pub open spec fn login_headers(c: &ServerConfig) -> Seq<(Seq<char>, Seq<char>)> {
    seq![
        ("accept"@, "application/json"@),
        ("content-type"@, "application/json"@),
        ("X-Application"@, client_tag(c)),
        ("Accept-Charset"@, "UTF-8,*"@),
        ("Accept-encoding"@, "gzip"@),
        ("User-Agent"@, client_tag(c)),
        ("X-Emby-Authorization"@, emby_authorization(c)),
    ]
}

/// The JSON body of a login request: the credentials, as given.
pub open spec fn login_body(username: Seq<char>, password: Seq<char>) -> Seq<(Seq<char>, Seq<char>)> {
    seq![("Username"@, username), ("Pw"@, password)]
}

/// The endpoint that exchanges credentials for a session.
pub open spec fn login_url(c: &ServerConfig) -> Seq<char> {
    c.base_url@ + "/users/AuthenticateByName"@
}

/// The endpoint that describes the server to anyone.
pub open spec fn server_info_url(c: &ServerConfig) -> Seq<char> {
    c.base_url@ + "/System/Info/Public"@
}

/// The headers of a server-info request.
pub open spec fn server_info_headers() -> Seq<(Seq<char>, Seq<char>)> {
    seq![("Accept"@, "application/json"@)]
}

/// `a` followed by `b`.
pub(crate) fn joined(a: &str, b: &str) -> (r: String)
    ensures
        r@ == a@ + b@,
{
    let mut s = String::from_str(a);
    s.append(b);
    s
}

pub(crate) fn field(name: &str, value: String) -> (r: Field)
    ensures
        r@ == (name@, value@),
{
    Field { name: String::from_str(name), value }
}

pub(crate) fn tag_of(c: &ServerConfig) -> (r: String)
    ensures
        r@ == client_tag(c),
{
    let mut s = joined(c.client_name.as_str(), "/");
    s.append(c.version.as_str());
    s
}

pub(crate) fn authorization_of(c: &ServerConfig) -> (r: String)
    ensures
        r@ == emby_authorization(c),
{
    let mut s = joined("MediaBrowser Client='", c.client_name.as_str());
    s.append("', Device='");
    s.append(c.device.as_str());
    s.append("', DeviceId='");
    s.append(c.device_id.as_str());
    s.append("', Version='");
    s.append(c.version.as_str());
    s.append("'");
    s
}

} // verus!
