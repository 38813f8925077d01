use vstd::prelude::*;
use vstd::string::StrSliceExecFns;
use vstd::string::StringExecFns;
use vstd::string::StringSliceAdditionalSpecFns;

verus! {

/// The request line of one connection, split into its parts, with the file
/// that the target resolves to.
#[derive(Debug)]
pub struct Request {
    method: Option<String>,
    uri: Option<String>,
    http_ver: Option<String>,
    file: Option<String>,
}

/// The whitespace-separated words of a line, in order.
pub uninterp spec fn words_of(s: Seq<char>) -> Seq<Seq<char>>;

/// Relies on `str::split_whitespace`: the words of `line` in order, none of them empty.
#[verifier::external_body]
fn split_words(line: &str) -> (r: Vec<String>)
    ensures
        r@.len() == words_of(line@).len(),
        forall|i: int| 0 <= i < r@.len() ==> (#[trigger] r@[i])@ == words_of(line@)[i],
        forall|i: int| 0 <= i < r@.len() ==> (#[trigger] r@[i])@.len() > 0,
{
    line.split_whitespace().map(|w| w.to_string()).collect()
}

/// The file that a non-empty request target names: `index.html` for `/`,
/// otherwise the target without its first character.
pub open spec fn resolve_spec(uri: Seq<char>) -> Seq<char> {
    if uri == seq!['/'] {
        "index.html"@
    } else {
        uri.drop_first()
    }
}

/// Word `k` of a line, when the line has that many words.
pub open spec fn word_at(words: Seq<Seq<char>>, k: int) -> Option<Seq<char>> {
    if k < words.len() {
        Some(words[k])
    } else {
        None
    }
}

/// The lines that frame a request: those before the first empty line.
pub open spec fn has_request_line(lines: Seq<String>) -> bool {
    lines.len() > 0 && lines[0]@.len() > 0
}

/// The view of an optional string.
pub open spec fn opt_view(o: Option<String>) -> Option<Seq<char>> {
    match o {
        Some(s) => Some(s@),
        None => None,
    }
}

/// True when `line` ends the request framing (it is empty).
pub fn is_end_of_request(line: &str) -> (r: bool)
    ensures
        r == (line@.len() == 0),
{
    line.unicode_len() == 0
}

/// The file that a non-empty request target resolves to.
pub fn resolve_file(uri: &str) -> (r: String)
    requires
        uri@.len() > 0,
    ensures
        r@ == resolve_spec(uri@),
{
    let n = uri.unicode_len();
    if n == 1 && uri.get_char(0) == '/' {
        proof {
            assert(uri@ =~= seq!['/']);
        }
        let r = String::from_str("index.html");
        proof {
            reveal_strlit("index.html");
        }
        r
    } else {
        proof {
            if uri@ == seq!['/'] {
                assert(uri@[0] == '/');
            }
        }
        let rest = uri.substring_char(1, n);
        proof {
            assert(rest@ =~= uri@.drop_first());
        }
        String::from_str(rest)
    }
}

fn clone_word(words: &Vec<String>, k: usize) -> (r: Option<String>)
    ensures
        opt_view(r) == (if k < words@.len() { Some(words@[k as int]@) } else { None::<Seq<char>> }),
{
    if k < words.len() {
        Some(words[k].clone())
    } else {
        None
    }
}

/// The ASCII decimal digits of `n`, most significant first, with no leading zero.
pub open spec fn decimal(n: nat) -> Seq<u8>
    decreases n,
{
    if n < 10 {
        seq![(48 + n) as u8]
    } else {
        decimal(n / 10).push((48 + n % 10) as u8)
    }
}

/// The bytes of a successful response carrying `contents` as its body.
pub open spec fn response_spec(contents: Seq<u8>) -> Seq<u8> {
    "HTTP/1.1 200 OK\r\nContent-Length: ".spec_bytes() + decimal(contents.len()) + "\r\n\r\n".spec_bytes()
        + contents
}

fn push_decimal(out: &mut Vec<u8>, n: usize)
    ensures
        final(out)@ == old(out)@ + decimal(n as nat),
    decreases n,
{
    if n >= 10 {
        push_decimal(out, n / 10);
    }
    let d: u8 = (n % 10) as u8;
    out.push(48 + d);
    proof {
        assert(final(out)@ =~= old(out)@ + decimal(n as nat));
    }
}

fn push_bytes(out: &mut Vec<u8>, b: &[u8])
    ensures
        final(out)@ == old(out)@ + b@,
{
    let mut i: usize = 0;
    while i < b.len()
        invariant
            i <= b@.len(),
            out@ == old(out)@ + b@.subrange(0, i as int),
        decreases b@.len() - i,
    {
        out.push(b[i]);
        i = i + 1;
        proof {
            assert(out@ =~= old(out)@ + b@.subrange(0, i as int));
        }
    }
    proof {
        assert(b@.subrange(0, i as int) =~= b@);
    }
}

/// The response sent for a file with the given contents: the status line, a
/// `Content-Length` header giving the byte length of `contents`, a blank line,
/// then `contents` unchanged.
pub fn response(contents: &[u8]) -> (r: Vec<u8>)
    ensures
        r@ == response_spec(contents@),
{
    let mut out: Vec<u8> = Vec::new();
    push_bytes(&mut out, "HTTP/1.1 200 OK\r\nContent-Length: ".as_bytes());
    push_decimal(&mut out, contents.len());
    push_bytes(&mut out, "\r\n\r\n".as_bytes());
    push_bytes(&mut out, contents);
    out
}

impl Request {
    /// The method held.
    pub closed spec fn spec_method(self) -> Option<String> {
        self.method
    }

    /// The target held.
    pub closed spec fn spec_uri(self) -> Option<String> {
        self.uri
    }

    /// The protocol version held.
    pub closed spec fn spec_http_ver(self) -> Option<String> {
        self.http_ver
    }

    /// The resolved file held.
    pub closed spec fn spec_file(self) -> Option<String> {
        self.file
    }

    /// Whether the request line's parts and resolved file are those of `lines`.
    pub open spec fn parsed_from(self, lines: Seq<String>) -> bool {
        if has_request_line(lines) {
            let words = words_of(lines[0]@);
            &&& opt_view(self.spec_method()) == word_at(words, 0)
            &&& opt_view(self.spec_uri()) == word_at(words, 1)
            &&& opt_view(self.spec_http_ver()) == word_at(words, 2)
            &&& opt_view(self.spec_file()) == match word_at(words, 1) {
                Some(u) => Some(resolve_spec(u)),
                None => None,
            }
        } else {
            &&& self.spec_method() is None
            &&& self.spec_uri() is None
            &&& self.spec_http_ver() is None
            &&& self.spec_file() is None
        }
    }

    /// Builds the request from the lines read from a connection, up to (not
    /// including) the first empty one. Only the first line is read: its first
    /// three words are the method, the target and the version. With no line,
    /// every part is absent.
    pub fn from_lines(lines: &Vec<String>) -> (r: Request)
        ensures
            r.parsed_from(lines@),
    {
        if lines.len() == 0 || is_end_of_request(lines[0].as_str()) {
            return Request { method: None, uri: None, http_ver: None, file: None };
        }
        let words = split_words(lines[0].as_str());
        let method = clone_word(&words, 0);
        let uri = clone_word(&words, 1);
        let http_ver = clone_word(&words, 2);
        let file = if words.len() > 1 {
            Some(resolve_file(words[1].as_str()))
        } else {
            None
        };
        Request { method, uri, http_ver, file }
    }

    /// The method, when the request line has one.
    pub fn method(&self) -> (r: &Option<String>)
        ensures
            *r == self.spec_method(),
    {
        &self.method
    }

    /// The target, when the request line has one.
    pub fn uri(&self) -> (r: &Option<String>)
        ensures
            *r == self.spec_uri(),
    {
        &self.uri
    }

    /// The protocol version, when the request line has one.
    pub fn http_ver(&self) -> (r: &Option<String>)
        ensures
            *r == self.spec_http_ver(),
    {
        &self.http_ver
    }

    /// The file that the target resolves to, when there is a target.
    pub fn file(&self) -> (r: &Option<String>)
        ensures
            *r == self.spec_file(),
    {
        &self.file
    }
}

} // verus!
