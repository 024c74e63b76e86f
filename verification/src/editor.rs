//! The bridge to the web editor, apart from the window and its I/O: the
//! editor's address, the messages the page posts back to the plug-in, and the
//! scripts and HTTP replies through which the plug-in pushes its parameter
//! state to the page.

use vstd::prelude::*;
use vstd::string::*;

use crate::text::{
    decimal_spec, digits_value, first_index_of, format_decimal, is_decimal_digit,
    is_first_index_of, lemma_first_index_unique, split_once, strip_prefix, trim, trim_spec,
};

verus! {

/// Address of the editor page: the KickForge editor on the Hardwave Studios
/// host, so that the session token in its query only goes there.
pub const KICKFORGE_URL: &'static str = "http://kickforge.hardwavestudios.com/vst/kickforge";

/// Editor width in logical pixels, at scale 1.
pub const EDITOR_WIDTH: u32 = 1100;

/// Editor height in logical pixels, at scale 1.
pub const EDITOR_HEIGHT: u32 = 700;

// ── Editor address ──────────────────────────────────────────────────────────

/// The page address: the editor URL with the session token (when logged in)
/// and the plug-in version as query parameters.
pub open spec fn editor_url_spec(token: Option<Seq<char>>, version: Seq<char>) -> Seq<char> {
    match token {
        Some(t) => KICKFORGE_URL@ + "?token="@ + t + "&v="@ + version,
        None => KICKFORGE_URL@ + "?v="@ + version,
    }
}

/// The address the editor's web view loads.
pub fn editor_url(token: Option<&str>, version: &str) -> (r: String)
    ensures
        r@ == editor_url_spec(
            match token {
                Some(t) => Some(t@),
                None => None,
            },
            version@,
        ),
        token matches Some(t) ==> r@ == KICKFORGE_URL@ + "?token="@ + t@ + "&v="@ + version@,
        token is None ==> r@ == KICKFORGE_URL@ + "?v="@ + version@,
{
    let mut url = String::from_str(KICKFORGE_URL);
    match token {
        Some(t) => {
            url.append("?token=");
            url.append(t);
            url.append("&v=");
            url.append(version);
        },
        None => {
            url.append("?v=");
            url.append(version);
        },
    }
    url
}

// ── Messages from the page ──────────────────────────────────────────────────

/// Prefix of a parameter change posted by the page.
pub const SET_PARAM_PREFIX: &'static str = "setParam:";

/// Prefix of a session token posted by the page after a login.
pub const SAVE_TOKEN_PREFIX: &'static str = "saveToken:";

/// What a message from the page asks for, over character sequences.
pub enum IpcRequest {
    /// Set the parameter with this key to the number written in `value`.
    SetParam { key: Seq<char>, value: Seq<char> },
    /// Store this session token.
    SaveToken { token: Seq<char> },
    /// Not a request the plug-in acts on.
    Ignored,
}

/// Meaning of a message from the page: `setParam:<key>:<value>` (the key
/// ends at the first `:` after the prefix), or `saveToken:<token>` with the
/// token's surrounding white space removed; anything else is ignored, as is a
/// `setParam:` message with no second `:`.
pub open spec fn parse_ipc_spec(m: Seq<char>) -> IpcRequest {
    if SET_PARAM_PREFIX@.is_prefix_of(m) {
        let rest = m.skip(SET_PARAM_PREFIX@.len() as int);
        if rest.contains(':') {
            let i = first_index_of(rest, ':');
            IpcRequest::SetParam { key: rest.take(i), value: rest.skip(i + 1) }
        } else {
            IpcRequest::Ignored
        }
    } else if SAVE_TOKEN_PREFIX@.is_prefix_of(m) {
        IpcRequest::SaveToken { token: trim_spec(m.skip(SAVE_TOKEN_PREFIX@.len() as int)) }
    } else {
        IpcRequest::Ignored
    }
}

/// A message posted by the page, split into its parts.
#[derive(Debug)]
pub enum IpcMessage<'a> {
    /// Set the parameter `key` to the number written in `value`.
    SetParam { key: &'a str, value: &'a str },
    /// Store the session token `token`.
    SaveToken { token: &'a str },
    /// A message the plug-in does not act on.
    Ignored,
}

impl<'a> IpcMessage<'a> {
    /// The request this message makes.
    pub open spec fn view(&self) -> IpcRequest {
        match *self {
            IpcMessage::SetParam { key, value } => IpcRequest::SetParam { key: key@, value: value@ },
            IpcMessage::SaveToken { token } => IpcRequest::SaveToken { token: token@ },
            IpcMessage::Ignored => IpcRequest::Ignored,
        }
    }
}

/// Split a message from the page into the request it makes.
pub fn parse_ipc_message<'a>(message: &'a str) -> (r: IpcMessage<'a>)
    ensures
        r.view() == parse_ipc_spec(message@),
{
    match strip_prefix(message, SET_PARAM_PREFIX) {
        Some(rest) => match split_once(rest, ':') {
            Some((key, value)) => IpcMessage::SetParam { key, value },
            None => IpcMessage::Ignored,
        },
        None => match strip_prefix(message, SAVE_TOKEN_PREFIX) {
            Some(token) => IpcMessage::SaveToken { token: trim(token) },
            None => IpcMessage::Ignored,
        },
    }
}

/// The message the page's `setParam(key, value)` posts.
pub open spec fn set_param_message(key: Seq<char>, value: Seq<char>) -> Seq<char> {
    SET_PARAM_PREFIX@ + key + seq![':'] + value
}

/// The message the page's `saveToken(token)` posts.
pub open spec fn save_token_message(token: Seq<char>) -> Seq<char> {
    SAVE_TOKEN_PREFIX@ + token
}

/// A parameter change posted by the page is read back as the same key and
/// value, for every key without a `:` (the value may hold any text).
pub proof fn lemma_set_param_roundtrip(key: Seq<char>, value: Seq<char>)
    requires
        !key.contains(':'),
    ensures
        parse_ipc_spec(set_param_message(key, value)) == (IpcRequest::SetParam { key, value }),
{
    let p = SET_PARAM_PREFIX@;
    let m = set_param_message(key, value);
    assert(m.take(p.len() as int) =~= p);
    let rest = m.skip(p.len() as int);
    assert(rest =~= key + seq![':'] + value);
    assert(rest[key.len() as int] == ':');
    assert forall|k: int| 0 <= k < key.len() implies rest[k] != ':' by {
        assert(rest[k] == key[k]);
        if key[k] == ':' {
            assert(key.contains(':'));
        }
    }
    assert(is_first_index_of(rest, ':', key.len() as int));
    lemma_first_index_unique(rest, ':', key.len() as int);
    assert(rest.contains(':'));
    assert(rest.take(key.len() as int) =~= key);
    assert(rest.skip(key.len() as int + 1) =~= value);
}

/// A token posted by the page is read back without its surrounding white
/// space.
pub proof fn lemma_save_token_roundtrip(token: Seq<char>)
    ensures
        parse_ipc_spec(save_token_message(token)) == (IpcRequest::SaveToken {
            token: trim_spec(token),
        }),
{
    let p = SAVE_TOKEN_PREFIX@;
    let m = save_token_message(token);
    reveal_strlit("saveToken:");
    reveal_strlit("setParam:");
    assert(m[2] == 'v');
    assert(SET_PARAM_PREFIX@[2] == 't');
    assert(!SET_PARAM_PREFIX@.is_prefix_of(m));
    assert(m.take(p.len() as int) =~= p);
    assert(m.skip(p.len() as int) =~= token);
}

// ── Scripts and replies that carry the parameter state to the page ──────────

/// Start of the script injected into the page, before the plug-in version.
pub const INIT_SCRIPT_HEAD: &'static str = "\n    window.__HARDWAVE_VST = true;\n    window.__HARDWAVE_VST_VERSION = '";

/// Part of the injected script between the version and the initial state.
pub const INIT_SCRIPT_MIDDLE: &'static str = "';\n    window.__hardwave = {\n        setParam: function(key, value) {\n            var v = value;\n            if (typeof v === 'boolean') v = v ? 1 : 0;\n            window.ipc.postMessage('setParam:' + key + ':' + v);\n        },\n        saveToken: function(token) {\n            window.ipc.postMessage('saveToken:' + token);\n        }\n    };\n\n    /* Push DAW-persisted state as soon as the page defines __onKickForgePacket */\n    (function() {\n        var _init = ";

/// End of the injected script, after the initial state.
pub const INIT_SCRIPT_TAIL: &'static str = ";\n        function pushInit() {\n            if (window.__onKickForgePacket) {\n                window.__onKickForgePacket(_init);\n            } else {\n                setTimeout(pushInit, 50);\n            }\n        }\n        if (document.readyState === 'complete') {\n            pushInit();\n        } else {\n            window.addEventListener('load', pushInit);\n        }\n    })();\n    ";

/// The script injected into the page when the editor opens: it defines the
/// page's `setParam` / `saveToken` bridge and hands the page the parameter
/// state (`initial_json`) as soon as the page can take it.
pub fn init_script(version: &str, initial_json: &str) -> (r: String)
    ensures
        r@ == INIT_SCRIPT_HEAD@ + version@ + INIT_SCRIPT_MIDDLE@ + initial_json@
            + INIT_SCRIPT_TAIL@,
{
    let mut s = String::from_str(INIT_SCRIPT_HEAD);
    s.append(version);
    s.append(INIT_SCRIPT_MIDDLE);
    s.append(initial_json);
    s.append(INIT_SCRIPT_TAIL);
    s
}

/// Start of the polling script, before the local server's port.
pub const POLL_SCRIPT_HEAD: &'static str = "\n        (function() {\n            const POLL_URL = 'http://127.0.0.1:";

/// End of the polling script, after the local server's port.
pub const POLL_SCRIPT_TAIL: &'static str = "/';\n            function poll() {\n                fetch(POLL_URL).then(r => r.json()).then(data => {\n                    if (window.__onKickForgePacket) window.__onKickForgePacket(data);\n                }).catch(() => {});\n                requestAnimationFrame(poll);\n            }\n            poll();\n        })();\n        ";

/// The script by which the page polls the local state server on `port`
/// every frame.
pub open spec fn poll_script_spec(port: u16) -> Seq<char> {
    POLL_SCRIPT_HEAD@ + decimal_spec(port as nat) + POLL_SCRIPT_TAIL@
}

/// The injected script where the page polls a local server for the state:
/// the base script, a line break, and the polling script for `port`.
pub fn polling_init_script(base_init_js: &str, port: u16) -> (r: String)
    ensures
        r@ == base_init_js@ + "\n"@ + poll_script_spec(port),
        r@ == base_init_js@ + "\n"@ + POLL_SCRIPT_HEAD@ + decimal_spec(port as nat)
            + POLL_SCRIPT_TAIL@,
        ({
            let start = base_init_js@.len() + 1 + POLL_SCRIPT_HEAD@.len();
            let end = r@.len() - POLL_SCRIPT_TAIL@.len();
            &&& start <= end
            &&& r@.subrange(start as int, end as int) == decimal_spec(port as nat)
            &&& digits_value(r@.subrange(start as int, end as int)) == port
            &&& forall|i: int| start <= i < end ==> is_decimal_digit(#[trigger] r@[i])
        }),
{
    let mut s = String::from_str(base_init_js);
    s.append("\n");
    s.append(POLL_SCRIPT_HEAD);
    let digits = format_decimal(port as usize);
    s.append(digits.as_str());
    s.append(POLL_SCRIPT_TAIL);
    proof {
        reveal_strlit("\n");
        let start = base_init_js@.len() + 1 + POLL_SCRIPT_HEAD@.len();
        let end = s@.len() - POLL_SCRIPT_TAIL@.len();
        assert(s@.subrange(start as int, end as int) =~= digits@);
        assert forall|i: int| start <= i < end implies is_decimal_digit(#[trigger] s@[i]) by {
            assert(s@[i] == digits@[i - start]);
        }
    }
    s
}

/// Start of the script that pushes one state packet into the page.
pub const PUSH_SCRIPT_HEAD: &'static str = "window.__onKickForgePacket && window.__onKickForgePacket(";

/// End of the script that pushes one state packet into the page.
pub const PUSH_SCRIPT_TAIL: &'static str = ")";

/// The script that hands one state packet (`packet_json`) to the page.
pub fn push_packet_script(packet_json: &str) -> (r: String)
    ensures
        r@ == PUSH_SCRIPT_HEAD@ + packet_json@ + PUSH_SCRIPT_TAIL@,
{
    let mut s = String::from_str(PUSH_SCRIPT_HEAD);
    s.append(packet_json);
    s.append(PUSH_SCRIPT_TAIL);
    s
}

/// Status line and headers of the local state server's reply, up to the
/// body length.
pub const HTTP_REPLY_HEAD: &'static str = "HTTP/1.1 200 OK\r\nAccess-Control-Allow-Origin: *\r\nContent-Type: application/json\r\nCache-Control: no-store\r\nContent-Length: ";

/// Headers after the body length, and the blank line before the body.
pub const HTTP_REPLY_SEPARATOR: &'static str = "\r\nConnection: close\r\n\r\n";

/// The local state server's reply carrying `body`, a JSON document: its
/// `Content-Length` is the body's length in UTF-8 bytes.
pub fn json_http_response(body: &str) -> (r: String)
    ensures
        r@ == HTTP_REPLY_HEAD@ + decimal_spec(body.len() as nat) + HTTP_REPLY_SEPARATOR@
            + body@,
{
    let mut s = String::from_str(HTTP_REPLY_HEAD);
    let len = format_decimal(body.len());
    s.append(len.as_str());
    s.append(HTTP_REPLY_SEPARATOR);
    s.append(body);
    s
}

} // verus!
