//! How a remote agent is reached: its settings, its URLs and its credentials.
use vstd::prelude::*;

use crate::json::{opt_str, opt_tree, Json, JsonV, Obj};
use crate::types::copy_opt;
use crate::text::{
    cat, cat3, cat4, contains_char, is_blank, str_eq, trim, trim_end_char, trimmed,
    trimming_twice_is_trimming, without_suffix_char,
};

verus! {

/// Settings for connecting to a remote agent.
#[derive(Debug, PartialEq, Eq)]
pub struct RemoteAgentConfig {
    pub remote_agent_id: String,
    pub protocol: String,
    pub url: String,
    pub auth_type: String,
    pub auth_token: Option<String>,
    pub allow_insecure: bool,
    /// Where tools run: `server` for the server's own tools; anything else means on
    /// the user's machine.
    pub tool_host: String,
}

/// Model of [`RemoteAgentConfig`].
pub struct RemoteAgentConfigV {
    pub remote_agent_id: Seq<char>,
    pub protocol: Seq<char>,
    pub url: Seq<char>,
    pub auth_type: Seq<char>,
    pub auth_token: Option<Seq<char>>,
    pub allow_insecure: bool,
    pub tool_host: Seq<char>,
}

impl View for RemoteAgentConfig {
    type V = RemoteAgentConfigV;

    open spec fn view(&self) -> RemoteAgentConfigV {
        RemoteAgentConfigV {
            remote_agent_id: self.remote_agent_id.deep_view(),
            protocol: self.protocol.deep_view(),
            url: self.url.deep_view(),
            auth_type: self.auth_type.deep_view(),
            auth_token: self.auth_token.deep_view(),
            allow_insecure: self.allow_insecure.deep_view(),
            tool_host: self.tool_host.deep_view(),
        }
    }
}

impl DeepView for RemoteAgentConfig {
    type V = RemoteAgentConfigV;

    open spec fn deep_view(&self) -> RemoteAgentConfigV {
        self@
    }
}

impl RemoteAgentConfig {
    /// An equal value.
    pub fn copy(&self) -> (r: RemoteAgentConfig)
        ensures
            r@ == self@,
    {
        RemoteAgentConfig {
            remote_agent_id: self.remote_agent_id.clone(),
            protocol: self.protocol.clone(),
            url: self.url.clone(),
            auth_type: self.auth_type.clone(),
            auth_token: copy_opt(&self.auth_token),
            allow_insecure: self.allow_insecure,
            tool_host: self.tool_host.clone(),
        }
    }
}

/// Whether a protocol is OpenCode's.
pub fn is_opencode_protocol(protocol: &str) -> (r: bool)
    ensures
        r == (protocol@ == "opencode"@),
{
    str_eq(protocol, "opencode")
}

impl RemoteAgentConfigV {
    /// Whether the server speaks OpenCode's protocol.
    pub open spec fn is_opencode(self) -> bool {
        self.protocol == "opencode"@
    }

    /// Whether the server's own tools are used.
    pub open spec fn server_tools(self) -> bool {
        self.is_opencode() && self.tool_host == "server"@
    }

    /// The URL that requests are built on.
    pub open spec fn base_url(self) -> Seq<char> {
        base_url_of(self.url)
    }

    /// The `Authorization` header, where the settings ask for one.
    pub open spec fn auth_header(self) -> Option<Seq<char>> {
        auth_header_of(self.auth_type, self.auth_token)
    }
}

/// Whether the server's own tools are used.
pub fn is_server_tool_host(cfg: &RemoteAgentConfig) -> (r: bool)
    ensures
        r == cfg@.server_tools(),
{
    is_opencode_protocol(cfg.protocol.as_str()) && str_eq(cfg.tool_host.as_str(), "server")
}

/// A URL without white space round it and without slashes at its end.
pub open spec fn base_url_of(url: Seq<char>) -> Seq<char> {
    without_suffix_char(trimmed(url), '/')
}

/// A URL without white space round it and without slashes at its end.
pub fn normalize_base_url(url: &str) -> (r: String)
    ensures
        r@ == base_url_of(url@),
{
    let t = trim(url);
    trim_end_char(t.as_str(), '/')
}

/// A base URL never ends with a slash, so a path can be put behind it.
pub proof fn base_url_has_no_slash_at_its_end(url: Seq<char>)
    ensures
        base_url_of(url).len() == 0 || base_url_of(url).last() != '/',
{
    lemma_no_suffix_char(trimmed(url), '/');
}

/// What is left after taking a character off the end does not end with it.
pub proof fn lemma_no_suffix_char(s: Seq<char>, c: char)
    ensures
        without_suffix_char(s, c).len() == 0 || without_suffix_char(s, c).last() != c,
    decreases s.len(),
{
    if s.len() > 0 && s.last() == c {
        lemma_no_suffix_char(s.drop_last(), c);
    }
}

/// The character for six bits in the standard base64 alphabet.
pub open spec fn base64_char(d: int) -> char {
    if d < 26 {
        (0x41 + d) as char
    } else if d < 52 {
        (0x61 + d - 26) as char
    } else if d < 62 {
        (0x30 + d - 52) as char
    } else if d == 62 {
        '+'
    } else {
        '/'
    }
}

/// Bytes in standard base64 with padding.
pub open spec fn base64_of(b: Seq<u8>) -> Seq<char>
    decreases b.len(),
{
    if b.len() == 0 {
        Seq::empty()
    } else if b.len() == 1 {
        let n = b[0] as int * 65536;
        seq![base64_char(n / 262144), base64_char(n / 4096 % 64), '=', '=']
    } else if b.len() == 2 {
        let n = b[0] as int * 65536 + b[1] as int * 256;
        seq![
            base64_char(n / 262144),
            base64_char(n / 4096 % 64),
            base64_char(n / 64 % 64),
            '=',
        ]
    } else {
        let n = b[0] as int * 65536 + b[1] as int * 256 + b[2] as int;
        seq![
            base64_char(n / 262144),
            base64_char(n / 4096 % 64),
            base64_char(n / 64 % 64),
            base64_char(n % 64),
        ] + base64_of(b.skip(3))
    }
}

/// Encodes bytes with `base64::engine::general_purpose::STANDARD`, which is base64
/// with the alphabet `A-Z a-z 0-9 + /` and `=` padding.
#[verifier::external_body]
pub(crate) fn base64_encode(bytes: &[u8]) -> (r: String)
    ensures
        r@ == base64_of(bytes@),
{
    base64::Engine::encode(&base64::engine::general_purpose::STANDARD, bytes)
}

/// The `Authorization` header for a kind of credentials and a token.
pub open spec fn auth_header_of(auth_type: Seq<char>, token: Option<Seq<char>>) -> Option<Seq<char>> {
    match token {
        None => None,
        Some(t) => if t.len() == 0 {
            None
        } else if auth_type == "bearer"@ || auth_type == "Bearer"@ {
            Some("Bearer "@ + t)
        } else if auth_type == "basic"@ || auth_type == "Basic"@ {
            Some("Basic "@ + base64_of(vstd::utf8::encode_utf8(t)))
        } else if auth_type == "password"@ || auth_type == "Password"@ {
            Some("Basic "@ + base64_of(vstd::utf8::encode_utf8("opencode:"@ + t)))
        } else {
            None
        },
    }
}

/// Builds the `Authorization` header.
pub fn build_auth_header(auth_type: &str, auth_token: Option<&str>) -> (r: Option<String>)
    ensures
        r.deep_view() == auth_header_of(auth_type@, opt_str(auth_token)),
{
    let token = match auth_token {
        Some(t) => t,
        None => {
            return None;
        },
    };
    if token.is_empty() {
        return None;
    }
    if str_eq(auth_type, "bearer") || str_eq(auth_type, "Bearer") {
        Some(cat("Bearer ", token))
    } else if str_eq(auth_type, "basic") || str_eq(auth_type, "Basic") {
        let code = base64_encode(token.as_bytes());
        Some(cat("Basic ", code.as_str()))
    } else if str_eq(auth_type, "password") || str_eq(auth_type, "Password") {
        let credentials = cat("opencode:", token);
        let code = base64_encode(credentials.as_str().as_bytes());
        Some(cat("Basic ", code.as_str()))
    } else {
        None
    }
}

/// An optional string, borrowed.
pub fn borrow_opt(s: &Option<String>) -> (r: Option<&str>)
    ensures
        opt_str(r) == s.deep_view(),
{
    match s {
        Some(t) => Some(t.as_str()),
        None => None,
    }
}

/// The `Authorization` header that the settings ask for.
pub fn auth(cfg: &RemoteAgentConfig) -> (r: Option<String>)
    ensures
        r.deep_view() == cfg@.auth_header(),
{
    build_auth_header(cfg.auth_type.as_str(), borrow_opt(&cfg.auth_token))
}

/// The characters that a query value keeps.
pub open spec fn is_plain_byte(b: u8) -> bool {
    ||| 0x41 <= b <= 0x5a
    ||| 0x61 <= b <= 0x7a
    ||| 0x30 <= b <= 0x39
    ||| b == 0x2d
    ||| b == 0x5f
    ||| b == 0x2e
    ||| b == 0x7e
    ||| b == 0x2f
}

/// The character of a hexadecimal digit, in capitals.
pub open spec fn hex_upper(d: int) -> char {
    if d < 10 {
        (0x30 + d) as char
    } else {
        (0x41 + d - 10) as char
    }
}

/// One byte of a query value.
pub open spec fn encoded_byte(b: u8) -> Seq<char> {
    if is_plain_byte(b) {
        seq![b as char]
    } else {
        seq!['%', hex_upper(b as int / 16), hex_upper(b as int % 16)]
    }
}

/// The bytes of a query value.
pub open spec fn encoded_bytes(b: Seq<u8>) -> Seq<char>
    decreases b.len(),
{
    if b.len() == 0 {
        Seq::empty()
    } else {
        encoded_bytes(b.drop_last()) + encoded_byte(b.last())
    }
}

/// A text percent-encoded for a query value.
pub open spec fn encoded(s: Seq<char>) -> Seq<char> {
    encoded_bytes(vstd::utf8::encode_utf8(s))
}

fn hex_upper_char(d: u8) -> (r: char)
    requires
        d < 16,
    ensures
        r == hex_upper(d as int),
{
    if d < 10 {
        (0x30 + d) as char
    } else {
        (0x41 + (d - 10)) as char
    }
}

/// Percent-encodes a text for use as a query value.
pub fn encode_query_value(s: &str) -> (r: String)
    ensures
        r@ == encoded(s@),
{
    let b = s.as_bytes();
    let ghost bv = b@;
    let mut out = String::new();
    let mut i: usize = 0;
    assert(bv.take(0) =~= Seq::<u8>::empty());
    while i < b.len()
        invariant
            i <= b.len(),
            bv == b@,
            out@ == encoded_bytes(bv.take(i as int)),
        decreases b.len() - i,
    {
        let c: u8 = b[i];
        proof {
            assert(bv.take(i as int + 1).drop_last() =~= bv.take(i as int));
            assert(bv.take(i as int + 1).last() == c);
        }
        let ghost before = out@;
        if (0x41 <= c && c <= 0x5a) || (0x61 <= c && c <= 0x7a) || (0x30 <= c && c <= 0x39) || c == 0x2d
            || c == 0x5f || c == 0x2e || c == 0x7e || c == 0x2f {
            out.push(c as char);
            assert(out@ =~= before + encoded_byte(c));
        } else {
            out.push('%');
            out.push(hex_upper_char(c / 16));
            out.push(hex_upper_char(c % 16));
            assert(out@ =~= before + encoded_byte(c));
        }
        i += 1;
    }
    assert(bv.take(bv.len() as int) =~= bv);
    out
}

/// The characters that can stand in an encoded query value.
pub open spec fn is_query_char(c: char) -> bool {
    ||| 'A' <= c <= 'Z'
    ||| 'a' <= c <= 'z'
    ||| '0' <= c <= '9'
    ||| c == '-'
    ||| c == '_'
    ||| c == '.'
    ||| c == '~'
    ||| c == '/'
    ||| c == '%'
}

proof fn lemma_encoded_bytes_are_query_chars(b: Seq<u8>, i: int)
    requires
        0 <= i < encoded_bytes(b).len(),
    ensures
        is_query_char(encoded_bytes(b)[i]),
    decreases b.len(),
{
    if b.len() > 0 {
        let d = encoded_bytes(b.drop_last());
        if i < d.len() {
            lemma_encoded_bytes_are_query_chars(b.drop_last(), i);
            assert(encoded_bytes(b)[i] == d[i]);
        } else {
            assert(encoded_bytes(b)[i] == encoded_byte(b.last())[i - d.len()]);
        }
    }
}

/// An encoded value can neither end its query parameter nor start another one:
/// it holds letters, digits, `-_.~/` and `%` only.
pub proof fn encoded_values_stay_in_their_parameter(s: Seq<char>, i: int)
    requires
        0 <= i < encoded(s).len(),
    ensures
        is_query_char(encoded(s)[i]),
{
    lemma_encoded_bytes_are_query_chars(vstd::utf8::encode_utf8(s), i);
}

/// The value of a hexadecimal digit.
pub open spec fn hex_value(c: char) -> Option<int> {
    if '0' <= c <= '9' {
        Some(c as int - 0x30)
    } else if 'A' <= c <= 'F' {
        Some(c as int - 0x41 + 10)
    } else if 'a' <= c <= 'f' {
        Some(c as int - 0x61 + 10)
    } else {
        None
    }
}

/// The bytes that a percent-encoded text stands for: `%` and two hexadecimal digits for
/// the byte with that value, any other character for its own UTF-8. Nothing where a `%`
/// stands before anything else.
pub open spec fn decoded(t: Seq<char>) -> Option<Seq<u8>>
    decreases t.len(),
{
    if t.len() == 0 {
        Some(Seq::empty())
    } else if t[0] != '%' {
        match decoded(t.skip(1)) {
            Some(rest) => Some(vstd::utf8::encode_utf8(seq![t[0]]) + rest),
            None => None,
        }
    } else if t.len() < 3 {
        None
    } else {
        match (hex_value(t[1]), hex_value(t[2]), decoded(t.skip(3))) {
            (Some(high), Some(low), Some(rest)) => Some(seq![(high * 16 + low) as u8] + rest),
            _ => None,
        }
    }
}

proof fn lemma_decoded_byte(b: u8, t: Seq<char>)
    requires
        decoded(t) is Some,
    ensures
        decoded(encoded_byte(b) + t) == Some(seq![b] + decoded(t)->0),
{
    let e = encoded_byte(b) + t;
    if is_plain_byte(b) {
        assert(e.skip(1) =~= t);
        assert(vstd::utf8::encode_utf8(seq![b as char]) =~= seq![b]) by {
            let s = seq![b as char];
            assert(s.drop_first() =~= Seq::<char>::empty());
            reveal_with_fuel(vstd::utf8::encode_utf8, 2);
            let v = s[0] as u32;
            assert((v & 0x7f) as u8 == b) by (bit_vector)
                requires
                    v == b as u32,
                    b < 0x80,
            ;
        }
    } else {
        assert(e.skip(3) =~= t);
        assert(hex_value(e[1]) == Some(b as int / 16));
        assert(hex_value(e[2]) == Some(b as int % 16));
        assert((b as int / 16) * 16 + b as int % 16 == b as int);
    }
}

proof fn lemma_encoded_from_the_front(b: Seq<u8>)
    requires
        b.len() > 0,
    ensures
        encoded_bytes(b) == encoded_byte(b[0]) + encoded_bytes(b.drop_first()),
    decreases b.len(),
{
    let d = b.drop_last();
    if d.len() > 0 {
        lemma_encoded_from_the_front(d);
        assert(b.drop_first().drop_last() =~= d.drop_first());
        assert(encoded_bytes(b) =~= encoded_byte(b[0]) + encoded_bytes(b.drop_first()));
    } else {
        assert(d =~= Seq::<u8>::empty());
        assert(b.drop_first() =~= Seq::<u8>::empty());
        assert(encoded_bytes(b) =~= encoded_byte(b[0]) + encoded_bytes(b.drop_first()));
    }
}

proof fn lemma_decoded_bytes(b: Seq<u8>)
    ensures
        decoded(encoded_bytes(b)) == Some(b),
    decreases b.len(),
{
    if b.len() > 0 {
        lemma_encoded_from_the_front(b);
        lemma_decoded_bytes(b.drop_first());
        lemma_decoded_byte(b[0], encoded_bytes(b.drop_first()));
        assert(seq![b[0]] + b.drop_first() =~= b);
    } else {
        assert(decoded(encoded_bytes(b))->0 =~= b);
    }
}

/// Decoding an encoded value gives back the bytes of the text.
pub proof fn encoded_values_decode_to_the_text(s: Seq<char>)
    ensures
        decoded(encoded(s)) == Some(vstd::utf8::encode_utf8(s)),
{
    lemma_decoded_bytes(vstd::utf8::encode_utf8(s));
}

/// The workspace that the server is told of: none unless its own tools are used
/// and there is a workspace.
pub open spec fn server_directory_of(cfg: RemoteAgentConfigV, workspace: Seq<char>) -> Option<
    Seq<char>,
> {
    if cfg.server_tools() && trimmed(workspace).len() > 0 {
        Some(trimmed(workspace))
    } else {
        None
    }
}

/// The workspace that the server is told of.
pub fn server_directory(cfg: &RemoteAgentConfig, workspace: &str) -> (r: Option<String>)
    ensures
        r.deep_view() == server_directory_of(cfg@, workspace@),
{
    if !is_server_tool_host(cfg) {
        return None;
    }
    let ws = trim(workspace);
    if ws.as_str().is_empty() {
        None
    } else {
        Some(ws)
    }
}

/// What stands between a URL and a further query parameter.
pub open spec fn separator(url: Seq<char>) -> Seq<char> {
    if url.contains('?') {
        "&"@
    } else {
        "?"@
    }
}

/// A URL with one more query parameter.
pub open spec fn with_param(url: Seq<char>, key: Seq<char>, value: Seq<char>) -> Seq<char> {
    url + separator(url) + key + "="@ + encoded(value)
}

/// A URL with one more query parameter.
pub fn add_param(url: &str, key: &str, value: &str) -> (r: String)
    ensures
        r@ == with_param(url@, key@, value@),
{
    let sep = if contains_char(url, '?') {
        "&"
    } else {
        "?"
    };
    let code = encode_query_value(value);
    let head = cat3(url, sep, key);
    cat3(head.as_str(), "=", code.as_str())
}

/// Appends a query parameter to a URL.
pub fn append_query_param(url: &mut String, key: &str, value: &str)
    ensures
        final(url)@ == with_param(old(url)@, key@, value@),
{
    let r = add_param(url.as_str(), key, value);
    *url = r;
}

/// A URL with the `directory` parameter, where there is a directory.
pub open spec fn with_directory(url: Seq<char>, directory: Option<Seq<char>>) -> Seq<char> {
    match directory {
        Some(d) => if trimmed(d).len() > 0 {
            with_param(url, "directory"@, d)
        } else {
            url
        },
        None => url,
    }
}

/// Appends the `directory` parameter, where there is a directory.
pub fn append_v1_directory_value(url: &str, directory: Option<&str>) -> (r: String)
    ensures
        r@ == with_directory(url@, opt_str(directory)),
{
    match directory {
        Some(d) => if !is_blank(d) {
            add_param(url, "directory", d)
        } else {
            url.to_owned()
        },
        None => url.to_owned(),
    }
}

/// Appends the `directory` parameter where the server's own tools are used.
pub fn append_v1_directory(url: &str, cfg: &RemoteAgentConfig, workspace: &str) -> (r: String)
    ensures
        r@ == with_directory(url@, server_directory_of(cfg@, workspace@)),
{
    let dir = server_directory(cfg, workspace);
    append_v1_directory_value(url, borrow_opt(&dir))
}

/// A URL with the `location[directory]` parameter, where there is a directory.
pub open spec fn with_location(url: Seq<char>, directory: Option<Seq<char>>) -> Seq<char> {
    match directory {
        Some(d) => with_param(url, "location[directory]"@, d),
        None => url,
    }
}

/// Appends the `location[directory]` parameter where the server's own tools are
/// used.
pub fn append_v2_location(url: &str, cfg: &RemoteAgentConfig, workspace: &str) -> (r: String)
    ensures
        r@ == with_location(url@, server_directory_of(cfg@, workspace@)),
{
    match server_directory(cfg, workspace) {
        Some(d) => add_param(url, "location[directory]", d.as_str()),
        None => url.to_owned(),
    }
}

/// Where the user's own tools are used, no URL tells the server of a directory.
pub proof fn local_tools_name_no_directory(
    url: Seq<char>,
    cfg: RemoteAgentConfigV,
    workspace: Seq<char>,
)
    requires
        !cfg.server_tools(),
    ensures
        with_directory(url, server_directory_of(cfg, workspace)) == url,
        with_location(url, server_directory_of(cfg, workspace)) == url,
{
}

/// Where the server's own tools are used, it is told of the directory that is worked in.
pub proof fn server_tools_name_the_directory(
    url: Seq<char>,
    cfg: RemoteAgentConfigV,
    workspace: Seq<char>,
)
    requires
        cfg.server_tools(),
        trimmed(workspace).len() > 0,
    ensures
        with_directory(url, server_directory_of(cfg, workspace)) == with_param(
            url,
            "directory"@,
            trimmed(workspace),
        ),
{
    trimming_twice_is_trimming(workspace);
}

/// The local directory that a remote conversation works in: the stored one where
/// it exists here or is blank, else the configured one where that exists, else
/// the stored one.
pub fn resolve_local_workspace(
    workspace: &str,
    workspace_is_dir: bool,
    fallback_work_dir: &str,
    fallback_is_dir: bool,
) -> (r: String)
    ensures
        r@ == (if workspace_is_dir || trimmed(workspace@).len() == 0 || !fallback_is_dir {
            workspace@
        } else {
            fallback_work_dir@
        }),
{
    if workspace_is_dir || is_blank(workspace) {
        return workspace.to_owned();
    }
    if fallback_is_dir {
        return fallback_work_dir.to_owned();
    }
    workspace.to_owned()
}

/// The URL and the body that answer a permission request.
pub fn build_permission_reply_request(base_url: &str, request_id: &str, decision: &str) -> (r: (
    String,
    Json,
))
    ensures
        r.0@ == base_url@ + "/permission/"@ + request_id@ + "/reply"@,
        r.1@ == JsonV::Object(seq![("reply"@, JsonV::Str(decision@))]),
{
    let url = cat4(base_url, "/permission/", request_id, "/reply");
    (url, Obj::new().put_str("reply", decision).build())
}

/// Whether an API description lists a route.
pub open spec fn lists_route(doc: JsonV, route: Seq<char>) -> bool {
    match doc.field("paths"@) {
        Some(p) => p.field(route) is Some,
        None => false,
    }
}

/// The event route of a server: the older one only where its API description was
/// read and lists that one alone.
pub open spec fn event_path_of(doc: Option<JsonV>) -> Seq<char> {
    match doc {
        Some(d) => if !lists_route(d, "/global/event"@) && lists_route(d, "/event"@) {
            "/event"@
        } else {
            "/global/event"@
        },
        None => "/global/event"@,
    }
}

/// The event route of a server.
pub fn event_path(doc: Option<&Json>) -> (r: &'static str)
    ensures
        r@ == event_path_of(opt_tree(doc)),
{
    match doc {
        Some(d) => {
            match d.get("paths") {
                Some(p) => {
                    let has_global = p.get("/global/event").is_some();
                    let has_event = p.get("/event").is_some();
                    if !has_global && has_event {
                        "/event"
                    } else {
                        "/global/event"
                    }
                },
                None => "/global/event",
            }
        },
        None => "/global/event",
    }
}

} // verus!
