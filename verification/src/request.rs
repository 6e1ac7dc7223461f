//! The opening-handshake request: its grammar over raw bytes, an executable
//! parser proved equal to that grammar, and the WebSocket-upgrade validation
//! of a parsed request (method, upgrade indication, handshake key, version).
use vstd::prelude::*;

verus! {

use crate::scan::find_byte;
use crate::scan::find_crlf;
use crate::scan::lower_seq;
use crate::scan::trim_left;
use crate::scan::scan_byte;
use crate::scan::scan_crlf;
use crate::scan::subvec;
use crate::scan::lower_vec;
use crate::scan::trim_left_vec;
use crate::scan::bytes_eq;
use crate::scan::lemma_find_byte_from;
use crate::scan::lemma_find_crlf_from;

/// Space, the separator of the request line.
pub const SP: u8 = 32;

/// Colon, the separator of a header line.
pub const COLON: u8 = 58;

/// One parsed header: a name and a value with leading whitespace removed.
pub struct Header {
    pub name: Vec<u8>,
    pub value: Vec<u8>,
}

/// Mathematical image of a `Header`.
pub ghost struct HeaderView {
    pub name: Seq<u8>,
    pub value: Seq<u8>,
}

impl View for Header {
    type V = HeaderView;

    open spec fn view(&self) -> HeaderView {
        HeaderView { name: self.name@, value: self.value@ }
    }
}

/// A parsed opening-handshake request: request line plus headers.
pub struct Request {
    pub method: Vec<u8>,
    pub path: Vec<u8>,
    pub http_version: Vec<u8>,
    pub headers: Vec<Header>,
}

/// Mathematical image of a `Request`.
pub ghost struct RequestView {
    pub method: Seq<u8>,
    pub path: Seq<u8>,
    pub http_version: Seq<u8>,
    pub headers: Seq<HeaderView>,
}

impl View for Request {
    type V = RequestView;

    open spec fn view(&self) -> RequestView {
        RequestView {
            method: self.method@,
            path: self.path@,
            http_version: self.http_version@,
            headers: hs_view(self.headers@),
        }
    }
}

/// Mathematical image of a sequence of headers.
pub open spec fn hs_view(hs: Seq<Header>) -> Seq<HeaderView> {
    hs.map_values(|h: Header| h.view())
}

/// Grammar of the request line: method, path and protocol version separated
/// by single spaces, each part nonempty.
pub open spec fn parse_request_line(line: Seq<u8>) -> Option<(Seq<u8>, Seq<u8>, Seq<u8>)> {
    match find_byte(line, SP) {
        None => None,
        Some(i) => {
            let m = line.subrange(0, i);
            let rest = line.subrange(i + 1, line.len() as int);
            match find_byte(rest, SP) {
                None => None,
                Some(k) => {
                    let p = rest.subrange(0, k);
                    let v = rest.subrange(k + 1, rest.len() as int);
                    if m.len() > 0 && p.len() > 0 && v.len() > 0 {
                        Some((m, p, v))
                    } else {
                        None
                    }
                },
            }
        },
    }
}

/// Grammar of one header line: a nonempty name before the first colon, then
/// the value with leading whitespace removed.
pub open spec fn parse_header_line(line: Seq<u8>) -> Option<HeaderView> {
    match find_byte(line, COLON) {
        None => None,
        Some(k) => {
            let name = line.subrange(0, k);
            let value = trim_left(line.subrange(k + 1, line.len() as int));
            if name.len() > 0 {
                Some(HeaderView { name, value })
            } else {
                None
            }
        },
    }
}

/// Grammar of the header section: CRLF-terminated header lines until the
/// section is exhausted.
pub open spec fn parse_headers(s: Seq<u8>) -> Option<Seq<HeaderView>>
    decreases s.len(),
{
    if s.len() == 0 {
        Some(Seq::empty())
    } else {
        match find_crlf(s) {
            None => None,
            Some(j) => {
                if 0 <= j && j + 2 <= s.len() {
                    match parse_header_line(s.subrange(0, j)) {
                        None => None,
                        Some(h) => {
                            match parse_headers(s.subrange(j + 2, s.len() as int)) {
                                None => None,
                                Some(rest) => Some(seq![h] + rest),
                            }
                        },
                    }
                } else {
                    None
                }
            },
        }
    }
}

/// Grammar of a whole handshake head: the request line up to the first CRLF,
/// then the header section (which ends with its own CRLF).
pub open spec fn parse_head(head: Seq<u8>) -> Option<RequestView> {
    match find_crlf(head) {
        None => None,
        Some(j) => {
            match parse_request_line(head.subrange(0, j)) {
                None => None,
                Some(parts) => {
                    match parse_headers(head.subrange(j + 2, head.len() as int)) {
                        None => None,
                        Some(hs) => Some(
                            RequestView {
                                method: parts.0,
                                path: parts.1,
                                http_version: parts.2,
                                headers: hs,
                            },
                        ),
                    }
                },
            }
        },
    }
}

/// Value of the first header whose name matches `name` case-insensitively;
/// `name` is given in lower case.
pub open spec fn header_lookup_spec(hs: Seq<HeaderView>, name: Seq<u8>) -> Option<Seq<u8>>
    decreases hs.len(),
{
    if hs.len() == 0 {
        None
    } else if lower_seq(hs[0].name) == name {
        Some(hs[0].value)
    } else {
        header_lookup_spec(hs.drop_first(), name)
    }
}

/// The bytes of the lower-case header name `upgrade`.
pub open spec fn name_upgrade() -> Seq<u8> {
    seq![117u8, 112u8, 103u8, 114u8, 97u8, 100u8, 101u8]
}

/// The bytes of the protocol token `websocket`.
pub open spec fn token_websocket() -> Seq<u8> {
    seq![119u8, 101u8, 98u8, 115u8, 111u8, 99u8, 107u8, 101u8, 116u8]
}

/// The bytes of the lower-case header name `sec-websocket-key`.
pub open spec fn name_key() -> Seq<u8> {
    seq![
        115u8, 101u8, 99u8, 45u8, 119u8, 101u8, 98u8, 115u8, 111u8, 99u8, 107u8, 101u8,
        116u8, 45u8, 107u8, 101u8, 121u8,
    ]
}

/// The bytes of the lower-case header name `sec-websocket-version`.
pub open spec fn name_version() -> Seq<u8> {
    seq![
        115u8, 101u8, 99u8, 45u8, 119u8, 101u8, 98u8, 115u8, 111u8, 99u8, 107u8, 101u8,
        116u8, 45u8, 118u8, 101u8, 114u8, 115u8, 105u8, 111u8, 110u8,
    ]
}

/// The bytes of the supported protocol version, `13`.
pub open spec fn version_13() -> Seq<u8> {
    seq![49u8, 51u8]
}

/// The bytes of the request method `GET`.
pub open spec fn method_get() -> Seq<u8> {
    seq![71u8, 69u8, 84u8]
}

/// True when `c` belongs to the base64 alphabet proper (no padding).
pub open spec fn is_b64_char(c: u8) -> bool {
    ||| 65 <= c <= 90
    ||| 97 <= c <= 122
    ||| 48 <= c <= 57
    ||| c == 43
    ||| c == 47
}

/// A well-formed handshake key: the base64 encoding of 16 bytes, that is 22
/// alphabet characters followed by two padding bytes.
pub open spec fn valid_key(v: Seq<u8>) -> bool {
    &&& v.len() == 24
    &&& v[22] == 61
    &&& v[23] == 61
    &&& forall|i: int| 0 <= i < 22 ==> is_b64_char(v[i])
}

/// A genuine WebSocket upgrade request: method `GET`, an upgrade indication
/// naming the websocket protocol, a well-formed handshake key, and the
/// supported protocol version.
pub open spec fn valid_ws_request(r: RequestView) -> bool {
    &&& r.method == method_get()
    &&& match header_lookup_spec(r.headers, name_upgrade()) {
        Some(v) => lower_seq(v) == token_websocket(),
        None => false,
    }
    &&& match header_lookup_spec(r.headers, name_key()) {
        Some(v) => valid_key(v),
        None => false,
    }
    &&& header_lookup_spec(r.headers, name_version()) == Some(version_13())
}

/// The lower-case header name `upgrade`, as a vector.
pub fn make_name_upgrade() -> (r: Vec<u8>)
    ensures
        r@ == name_upgrade(),
{
    let mut v: Vec<u8> = Vec::new();
    v.push(117);
    v.push(112);
    v.push(103);
    v.push(114);
    v.push(97);
    v.push(100);
    v.push(101);
    proof {
        assert(v@ =~= name_upgrade());
    }
    v
}

/// The protocol token `websocket`, as a vector.
pub fn make_token_websocket() -> (r: Vec<u8>)
    ensures
        r@ == token_websocket(),
{
    let mut v: Vec<u8> = Vec::new();
    v.push(119);
    v.push(101);
    v.push(98);
    v.push(115);
    v.push(111);
    v.push(99);
    v.push(107);
    v.push(101);
    v.push(116);
    proof {
        assert(v@ =~= token_websocket());
    }
    v
}

/// The lower-case header name `sec-websocket-key`, as a vector.
pub fn make_name_key() -> (r: Vec<u8>)
    ensures
        r@ == name_key(),
{
    let mut v: Vec<u8> = Vec::new();
    v.push(115);
    v.push(101);
    v.push(99);
    v.push(45);
    v.push(119);
    v.push(101);
    v.push(98);
    v.push(115);
    v.push(111);
    v.push(99);
    v.push(107);
    v.push(101);
    v.push(116);
    v.push(45);
    v.push(107);
    v.push(101);
    v.push(121);
    proof {
        assert(v@ =~= name_key());
    }
    v
}

/// The lower-case header name `sec-websocket-version`, as a vector.
pub fn make_name_version() -> (r: Vec<u8>)
    ensures
        r@ == name_version(),
{
    let mut v: Vec<u8> = Vec::new();
    v.push(115);
    v.push(101);
    v.push(99);
    v.push(45);
    v.push(119);
    v.push(101);
    v.push(98);
    v.push(115);
    v.push(111);
    v.push(99);
    v.push(107);
    v.push(101);
    v.push(116);
    v.push(45);
    v.push(118);
    v.push(101);
    v.push(114);
    v.push(115);
    v.push(105);
    v.push(111);
    v.push(110);
    proof {
        assert(v@ =~= name_version());
    }
    v
}

/// The supported protocol version `13`, as a vector.
pub fn make_version_13() -> (r: Vec<u8>)
    ensures
        r@ == version_13(),
{
    let mut v: Vec<u8> = Vec::new();
    v.push(49);
    v.push(51);
    proof {
        assert(v@ =~= version_13());
    }
    v
}

/// The request method `GET`, as a vector.
pub fn make_method_get() -> (r: Vec<u8>)
    ensures
        r@ == method_get(),
{
    let mut v: Vec<u8> = Vec::new();
    v.push(71);
    v.push(69);
    v.push(84);
    proof {
        assert(v@ =~= method_get());
    }
    v
}

/// Parse the request line, as executable code.
pub fn parse_request_line_vec(line: &Vec<u8>) -> (r: Option<(Vec<u8>, Vec<u8>, Vec<u8>)>)
    ensures
        match r {
            Some(parts) => parse_request_line(line@) == Some(
                (parts.0@, parts.1@, parts.2@),
            ),
            None => parse_request_line(line@) is None,
        },
{
    proof {
        lemma_find_byte_from(line@, SP, 0);
    }
    let i = match scan_byte(line, SP) {
        None => {
            return None;
        },
        Some(i) => i,
    };
    let n = line.len();
    let m = subvec(line, 0, i);
    let rest = subvec(line, i + 1, n);
    proof {
        lemma_find_byte_from(rest@, SP, 0);
    }
    let k = match scan_byte(&rest, SP) {
        None => {
            return None;
        },
        Some(k) => k,
    };
    let n2 = rest.len();
    let p = subvec(&rest, 0, k);
    let v = subvec(&rest, k + 1, n2);
    if m.len() > 0 && p.len() > 0 && v.len() > 0 {
        Some((m, p, v))
    } else {
        None
    }
}

/// Parse one header line, as executable code.
pub fn parse_header_line_vec(line: &Vec<u8>) -> (r: Option<Header>)
    ensures
        match r {
            Some(h) => parse_header_line(line@) == Some(h@),
            None => parse_header_line(line@) is None,
        },
{
    proof {
        lemma_find_byte_from(line@, COLON, 0);
    }
    let k = match scan_byte(line, COLON) {
        None => {
            return None;
        },
        Some(k) => k,
    };
    let name = subvec(line, 0, k);
    if name.len() == 0 {
        return None;
    }
    let n = line.len();
    let tail = subvec(line, k + 1, n);
    let value = trim_left_vec(&tail);
    Some(Header { name, value })
}

/// Parse the header section, as executable code.
pub fn parse_headers_vec(s: &Vec<u8>) -> (r: Option<Vec<Header>>)
    ensures
        match r {
            Some(hs) => parse_headers(s@) == Some(hs_view(hs@)),
            None => parse_headers(s@) is None,
        },
    decreases s@.len(),
{
    if s.len() == 0 {
        proof {
            assert(hs_view(Seq::<Header>::empty()) =~= Seq::<HeaderView>::empty());
        }
        return Some(Vec::new());
    }
    proof {
        lemma_find_crlf_from(s@, 0);
    }
    let j = match scan_crlf(s) {
        None => {
            return None;
        },
        Some(j) => j,
    };
    let line = subvec(s, 0, j);
    let h = match parse_header_line_vec(&line) {
        None => {
            return None;
        },
        Some(h) => h,
    };
    let tail = subvec(s, j + 2, s.len());
    let mut rest = match parse_headers_vec(&tail) {
        None => {
            return None;
        },
        Some(rest) => rest,
    };
    let ghost h_v = h@;
    let ghost rest_v = hs_view(rest@);
    let mut out: Vec<Header> = Vec::new();
    out.push(h);
    out.append(&mut rest);
    proof {
        assert(hs_view(out@) =~= seq![h_v] + rest_v);
    }
    Some(out)
}

/// Parse a whole handshake head, as executable code.
pub fn parse_head_vec(head: &Vec<u8>) -> (r: Option<Request>)
    ensures
        match r {
            Some(q) => parse_head(head@) == Some(q@),
            None => parse_head(head@) is None,
        },
{
    proof {
        lemma_find_crlf_from(head@, 0);
    }
    let j = match scan_crlf(head) {
        None => {
            return None;
        },
        Some(j) => j,
    };
    let line = subvec(head, 0, j);
    let parts = match parse_request_line_vec(&line) {
        None => {
            return None;
        },
        Some(parts) => parts,
    };
    let n = head.len();
    let section = subvec(head, j + 2, n);
    let hs = match parse_headers_vec(&section) {
        None => {
            return None;
        },
        Some(hs) => hs,
    };
    Some(Request { method: parts.0, path: parts.1, http_version: parts.2, headers: hs })
}

/// Value of the first header of `req` matching the lower-case `name`,
/// copied out, as executable code.
pub fn header_lookup(req: &Request, name: &Vec<u8>) -> (r: Option<Vec<u8>>)
    ensures
        match r {
            Some(v) => header_lookup_spec(req@.headers, name@) == Some(v@),
            None => header_lookup_spec(req@.headers, name@) is None,
        },
{
    let ghost hs = req@.headers;
    proof {
        assert(hs.skip(0) =~= hs);
    }
    let mut j: usize = 0;
    while j < req.headers.len()
        invariant
            0 <= j <= req.headers@.len(),
            hs == hs_view(req.headers@),
            header_lookup_spec(hs, name@) == header_lookup_spec(
                hs.skip(j as int),
                name@,
            ),
        decreases req.headers@.len() - j,
    {
        let low = lower_vec(&req.headers[j].name);
        proof {
            assert(hs.skip(j as int)[0] == hs[j as int]);
        }
        if bytes_eq(&low, name) {
            let v = subvec(&req.headers[j].value, 0, req.headers[j].value.len());
            proof {
                assert(v@ =~= hs[j as int].value);
            }
            return Some(v);
        }
        proof {
            assert(hs.skip(j as int).drop_first() =~= hs.skip(j + 1 as int));
        }
        j = j + 1;
    }
    proof {
        assert(hs.skip(req.headers@.len() as int).len() == 0);
    }
    None
}

/// Well-formedness of a handshake key, as executable code.
pub fn is_valid_key(v: &Vec<u8>) -> (r: bool)
    ensures
        r == valid_key(v@),
{
    if v.len() != 24 {
        return false;
    }
    if v[22] != 61 || v[23] != 61 {
        return false;
    }
    let mut j: usize = 0;
    while j < 22
        invariant
            0 <= j <= 22,
            v@.len() == 24,
            forall|k: int| 0 <= k < j ==> is_b64_char(v@[k]),
        decreases 22 - j,
    {
        let c = v[j];
        let ok = (65 <= c && c <= 90) || (97 <= c && c <= 122) || (48 <= c && c <= 57)
            || c == 43 || c == 47;
        if !ok {
            return false;
        }
        j = j + 1;
    }
    true
}

/// WebSocket-upgrade validation of a parsed request, as executable code.
pub fn is_ws_upgrade(req: &Request) -> (r: bool)
    ensures
        r == valid_ws_request(req@),
{
    let get = make_method_get();
    if !bytes_eq(&req.method, &get) {
        return false;
    }
    let up_name = make_name_upgrade();
    let up = match header_lookup(req, &up_name) {
        None => {
            return false;
        },
        Some(v) => v,
    };
    let up_low = lower_vec(&up);
    let ws = make_token_websocket();
    if !bytes_eq(&up_low, &ws) {
        return false;
    }
    let key_name = make_name_key();
    let key = match header_lookup(req, &key_name) {
        None => {
            return false;
        },
        Some(v) => v,
    };
    if !is_valid_key(&key) {
        return false;
    }
    let ver_name = make_name_version();
    let ver = match header_lookup(req, &ver_name) {
        None => {
            return false;
        },
        Some(v) => v,
    };
    let v13 = make_version_13();
    bytes_eq(&ver, &v13)
}

} // verus!
