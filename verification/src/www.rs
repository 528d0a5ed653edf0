use vstd::prelude::*;
use vstd::string::StringSliceAdditionalSpecFns;
use vstd::utf8::encode_utf8;

use crate::path::{bytes_equal, is_component_prefix, joined_below, root_component, FsPath};
use crate::state::Context;

verus! {

/// The status code of a file that was found: 200 OK.
pub const OK_STATUS: u16 = 200;

/// The status code of the not-found page: 404 NOT FOUND.
pub const NOT_FOUND_STATUS: u16 = 404;

/// The status code sent when a file that was found cannot be opened or measured:
/// 500 INTERNAL SERVER ERROR.
pub const INTERNAL_SERVER_ERROR_STATUS: u16 = 500;

/// The body sent when a file cannot be opened or measured.
pub const INTERNAL_ERROR_BODY: &'static str = "Internal server error";

/// The `Content-Type` of HTML files.
pub const TEXT_HTML: &'static str = "text/html";

/// The `Content-Type` of JavaScript files.
pub const TEXT_JAVASCRIPT: &'static str = "text/javascript";

/// The `Content-Type` of CSS files.
pub const TEXT_CSS: &'static str = "text/css";

/// The `Content-Type` of every other file.
pub const TEXT_PLAIN: &'static str = "text/plain";

/// The type of a file's contents, guessed from its extension.
#[derive(Debug)]
pub enum MimeType {
    Html,
    JavaScript,
    Css,
    Plain,
}

impl MimeType {
    /// The `Content-Type` header value of this type.
    pub fn as_str(&self) -> (s: &'static str)
        ensures
            s == match self {
                MimeType::Html => TEXT_HTML,
                MimeType::JavaScript => TEXT_JAVASCRIPT,
                MimeType::Css => TEXT_CSS,
                MimeType::Plain => TEXT_PLAIN,
            },
    {
        match self {
            MimeType::Html => TEXT_HTML,
            MimeType::JavaScript => TEXT_JAVASCRIPT,
            MimeType::Css => TEXT_CSS,
            MimeType::Plain => TEXT_PLAIN,
        }
    }
}

/// A path component that is a plain name: not the root, `.` or `..`.
pub open spec fn is_name(component: Seq<u8>) -> bool {
    component != root_component() && component != seq![46u8] && component != seq![46u8, 46u8]
}

/// The last component of `path`, if it is a plain name (`Path::file_name`).
pub open spec fn file_name(path: Seq<Seq<u8>>) -> Option<Seq<u8>> {
    if path.len() > 0 && is_name(path.last()) {
        Some(path.last())
    } else {
        None
    }
}

/// The index of the last `.` in `name`, or -1 where it has none.
pub open spec fn last_dot(name: Seq<u8>) -> int
    decreases name.len(),
{
    if name.len() == 0 {
        -1
    } else if name.last() == 46u8 {
        name.len() - 1
    } else {
        last_dot(name.drop_last())
    }
}

/// The extension of `path` (`Path::extension`): what follows the last `.` of its
/// file name, where that `.` is not the name's first byte.
pub open spec fn extension(path: Seq<Seq<u8>>) -> Option<Seq<u8>> {
    match file_name(path) {
        None => None,
        Some(name) => if last_dot(name) > 0 {
            Some(name.skip(last_dot(name) + 1))
        } else {
            None
        },
    }
}

/// The bytes of `html`.
pub open spec fn html_bytes() -> Seq<u8> {
    seq![104u8, 116, 109, 108]
}

/// The bytes of `js`.
pub open spec fn js_bytes() -> Seq<u8> {
    seq![106u8, 115]
}

/// The bytes of `css`.
pub open spec fn css_bytes() -> Seq<u8> {
    seq![99u8, 115, 115]
}

/// The bytes of `index.html`.
pub open spec fn index_html_bytes() -> Seq<u8> {
    seq![105u8, 110, 100, 101, 120, 46, 104, 116, 109, 108]
}

/// The type guessed for a file at `path`: by the extensions `html`, `js` and
/// `css`, and plain text for any other file.
pub open spec fn mime_of(path: Seq<Seq<u8>>) -> MimeType {
    match extension(path) {
        Some(ext) => if ext == html_bytes() {
            MimeType::Html
        } else if ext == js_bytes() {
            MimeType::JavaScript
        } else if ext == css_bytes() {
            MimeType::Css
        } else {
            MimeType::Plain
        },
        None => MimeType::Plain,
    }
}

/// The index of the last `.` in `name`, or `None` where it has none.
fn find_last_dot(name: &[u8]) -> (found: Option<usize>)
    ensures
        found is None <==> last_dot(name@) == -1,
        found matches Some(k) ==> (k == last_dot(name@) && k < name@.len()),
{
    let mut i: usize = name.len();
    assert(name@.take(i as int) =~= name@);
    while i > 0
        invariant
            0 <= i <= name@.len(),
            last_dot(name@) == last_dot(name@.take(i as int)),
        decreases i,
    {
        if name[i - 1] == 46u8 {
            return Some(i - 1);
        }
        assert(name@.take(i as int).drop_last() =~= name@.take(i - 1));
        i = i - 1;
    }
    None
}

/// The type of the file at `path`, guessed from its extension.
pub fn mime_type(path: &FsPath) -> (mime: MimeType)
    ensures
        mime == mime_of(path@),
{
    let n = path.components.len();
    if n == 0 {
        return MimeType::Plain;
    }
    let name = path.components[n - 1].as_slice();
    assert(name@ == path@.last());
    let root: [u8; 1] = [47u8];
    let dot: [u8; 1] = [46u8];
    let dot_dot: [u8; 2] = [46u8, 46u8];
    assert(root@ =~= root_component());
    assert(dot@ =~= seq![46u8]);
    assert(dot_dot@ =~= seq![46u8, 46u8]);
    if bytes_equal(name, root.as_slice()) || bytes_equal(name, dot.as_slice()) || bytes_equal(
        name,
        dot_dot.as_slice(),
    ) {
        return MimeType::Plain;
    }
    let k = match find_last_dot(name) {
        Some(k) => k,
        None => {
            return MimeType::Plain;
        },
    };
    if k == 0 {
        return MimeType::Plain;
    }
    let len = name.len();
    assert(k < len);
    let mut ext: Vec<u8> = Vec::new();
    let mut i: usize = k + 1;
    while i < name.len()
        invariant
            k + 1 <= i <= name@.len(),
            ext@ == name@.subrange(k + 1, i as int),
        decreases name@.len() - i,
    {
        ext.push(name[i]);
        i = i + 1;
        assert(ext@ =~= name@.subrange(k + 1, i as int));
    }
    assert(name@.subrange(k + 1, name@.len() as int) =~= name@.skip(k + 1));
    let html: [u8; 4] = [104u8, 116, 109, 108];
    let js: [u8; 2] = [106u8, 115];
    let css: [u8; 3] = [99u8, 115, 115];
    assert(html@ =~= html_bytes());
    assert(js@ =~= js_bytes());
    assert(css@ =~= css_bytes());
    if bytes_equal(ext.as_slice(), html.as_slice()) {
        MimeType::Html
    } else if bytes_equal(ext.as_slice(), js.as_slice()) {
        MimeType::JavaScript
    } else if bytes_equal(ext.as_slice(), css.as_slice()) {
        MimeType::Css
    } else {
        MimeType::Plain
    }
}

/// A byte that `HeaderValue::from_str` of the http crate accepts: a tab, or any
/// byte from 32 on but 127.
pub open spec fn is_header_byte(b: u8) -> bool {
    (b >= 32 && b != 127) || b == 9
}

/// Bytes that `HeaderValue::from_str` of the http crate accepts as a header value.
pub open spec fn is_header_value(bytes: Seq<u8>) -> bool {
    forall|i: int| 0 <= i < bytes.len() ==> is_header_byte(#[trigger] bytes[i])
}

/// Whether `value` can be sent as a header value, as `HeaderValue::from_str`
/// decides it.
pub fn is_header_value_text(value: &str) -> (ok: bool)
    ensures
        ok == is_header_value(value.spec_bytes()),
{
    let bytes = value.as_bytes();
    let mut i: usize = 0;
    while i < bytes.len()
        invariant
            bytes@ == value.spec_bytes(),
            0 <= i <= bytes@.len(),
            forall|j: int| 0 <= j < i ==> is_header_byte(#[trigger] bytes@[j]),
        decreases bytes@.len() - i,
    {
        let b = bytes[i];
        if !((b >= 32 && b != 127) || b == 9) {
            assert(!is_header_byte(bytes@[i as int]));
            return false;
        }
        i = i + 1;
    }
    true
}

/// The headers sent with a file.
pub struct FileHeaders {
    /// `Content-Type`.
    pub content_type: MimeType,
    /// `Content-Length`.
    pub content_length: u64,
    /// `Server`.
    pub server: String,
}

/// What the handler of a file request does next.
pub enum Lookup {
    /// Resolve `path` to its canonical, absolute form.
    Canonicalize { path: FsPath },
    /// Tell whether `path` is a directory.
    CheckDirectory { path: FsPath },
    /// Tell whether `path` exists.
    CheckIndex { path: FsPath },
    /// Open the file at `path`, to be sent with `status`.
    OpenFile { status: u16, path: FsPath },
    /// Read the length of the file just opened at `path`.
    ReadLength { status: u16, path: FsPath },
    /// Send the opened file with `status` and `headers`.
    SendFile { status: u16, headers: FileHeaders },
    /// Send `INTERNAL_ERROR_BODY` with `status` and no headers.
    SendError { status: u16 },
}

/// How the last `Lookup` action went.
pub enum LookupEvent {
    /// It succeeded (opening).
    Succeeded,
    /// It failed.
    Failed,
    /// The canonical form of the path.
    Canonical(FsPath),
    /// The answer to a question.
    Answer(bool),
    /// The length of the file.
    Length(u64),
}

/// A rank of the actions that every step from an unfinished action raises.
pub open spec fn lookup_rank(action: Lookup) -> nat {
    match action {
        Lookup::Canonicalize { .. } => 0,
        Lookup::CheckDirectory { .. } => 1,
        Lookup::CheckIndex { .. } => 2,
        Lookup::OpenFile { .. } => 3,
        Lookup::ReadLength { .. } => 4,
        Lookup::SendFile { .. } => 5,
        Lookup::SendError { .. } => 5,
    }
}

/// The action is one that ends the lookup.
pub open spec fn lookup_finished(action: Lookup) -> bool {
    action is SendFile || action is SendError
}

impl Context {
    /// The `Server` header sent with each file: `name/version`.
    pub open spec fn spec_server_header(self) -> Seq<char> {
        self.name@ + seq!['/'] + self.version@
    }

    /// The `Server` header of this context is a valid header value.
    pub open spec fn server_header_valid(self) -> bool {
        is_header_value(encode_utf8(self.spec_server_header()))
    }

    /// Whether the `Server` header of this context is a valid header value.
    pub fn server_header_is_valid(&self) -> (ok: bool)
        ensures
            ok == self.server_header_valid(),
    {
        let header = self.server_header();
        is_header_value_text(header.as_str())
    }

    /// `path` with `status` is what is sent: a file found under the site
    /// directory with 200 OK, or the not-found file with 404 NOT FOUND.
    pub open spec fn served(self, status: u16, path: Seq<Seq<u8>>) -> bool {
        ||| status == OK_STATUS && is_component_prefix(self.site@, path)
        ||| status == NOT_FOUND_STATUS && path == self.not_found_file@
    }

    /// What holds of every action that a lookup reaches: what is opened and sent
    /// is a file under the site directory, or the not-found file, and a file that
    /// cannot be opened or measured is answered with 500 INTERNAL SERVER ERROR.
    pub open spec fn lookup_safe(self, action: Lookup) -> bool {
        match action {
            Lookup::Canonicalize { .. } => true,
            Lookup::CheckDirectory { path } => is_component_prefix(self.site@, path@),
            Lookup::CheckIndex { path } => is_component_prefix(self.site@, path@),
            Lookup::OpenFile { status, path } => self.served(status, path@),
            Lookup::ReadLength { status, path } => self.served(status, path@),
            Lookup::SendFile { status, .. } => status == OK_STATUS || status
                == NOT_FOUND_STATUS,
            Lookup::SendError { status } => status == INTERNAL_SERVER_ERROR_STATUS,
        }
    }

    /// The not-found file is opened, to be sent with 404 NOT FOUND.
    pub open spec fn is_not_found_reply(self, action: Lookup) -> bool {
        action matches Lookup::OpenFile { status, path } && status == NOT_FOUND_STATUS && path@
            == self.not_found_file@
    }

    /// The step from `action` on `event` to `next`.
    pub open spec fn lookup_step(self, action: Lookup, event: LookupEvent, next: Lookup) -> bool {
        match action {
            Lookup::Canonicalize { .. } => match event {
                LookupEvent::Canonical(path) => if is_component_prefix(self.site@, path@) {
                    next == Lookup::CheckDirectory { path }
                } else {
                    self.is_not_found_reply(next)
                },
                _ => self.is_not_found_reply(next),
            },
            Lookup::CheckDirectory { path } => match event {
                LookupEvent::Answer(true) => next matches Lookup::CheckIndex { path: index }
                    && index@ == path@.push(index_html_bytes()),
                _ => next == Lookup::OpenFile { status: OK_STATUS, path },
            },
            Lookup::CheckIndex { path } => match event {
                LookupEvent::Answer(true) => next == Lookup::OpenFile { status: OK_STATUS, path },
                _ => self.is_not_found_reply(next),
            },
            Lookup::OpenFile { status, path } => match event {
                LookupEvent::Succeeded => next == Lookup::ReadLength { status, path },
                _ => next == Lookup::SendError { status: INTERNAL_SERVER_ERROR_STATUS },
            },
            Lookup::ReadLength { status, path } => match event {
                LookupEvent::Length(length) => next matches Lookup::SendFile { status: s, headers }
                    && s == status && headers.content_type == mime_of(path@)
                    && headers.content_length == length && headers.server@
                    == self.spec_server_header(),
                _ => next == Lookup::SendError { status: INTERNAL_SERVER_ERROR_STATUS },
            },
            Lookup::SendFile { .. } => next == action,
            Lookup::SendError { .. } => next == action,
        }
    }

    /// The not-found file, to be opened and sent with 404 NOT FOUND.
    fn not_found_reply(&self) -> (next: Lookup)
        ensures
            self.is_not_found_reply(next),
    {
        Lookup::OpenFile { status: NOT_FOUND_STATUS, path: self.not_found_file.duplicate() }
    }

    /// The first action of the handler for a GET of `request`: resolve `request`,
    /// its leading root components skipped, below the site directory.
    pub fn begin_lookup(&self, request: &FsPath) -> (action: Lookup)
        ensures
            action matches Lookup::Canonicalize { path } && path@ == joined_below(
                self.site@,
                request@,
            ),
            self.lookup_safe(action),
    {
        Lookup::Canonicalize { path: self.site.joined_below(request) }
    }

    /// The action that follows `action` when it went as `event` says. The headers of
    /// a file are only made where the `Server` header is a valid header value.
    pub fn advance_lookup(&self, action: Lookup, event: LookupEvent) -> (next: Lookup)
        requires
            (action is ReadLength && event is Length) ==> self.server_header_valid(),
        ensures
            self.lookup_step(action, event, next),
            self.lookup_safe(action) ==> self.lookup_safe(next),
            !lookup_finished(action) ==> lookup_rank(next) > lookup_rank(action),
    {
        match action {
            Lookup::Canonicalize { .. } => match event {
                LookupEvent::Canonical(path) => if path.starts_with(&self.site) {
                    Lookup::CheckDirectory { path }
                } else {
                    self.not_found_reply()
                },
                _ => self.not_found_reply(),
            },
            Lookup::CheckDirectory { path } => match event {
                LookupEvent::Answer(true) => {
                    let index: [u8; 10] = [105u8, 110, 100, 101, 120, 46, 104, 116, 109, 108];
                    assert(index@ =~= index_html_bytes());
                    let pushed = path.pushed(index.as_slice());
                    proof {
                        if is_component_prefix(self.site@, path@) {
                            assert(pushed@.take(self.site@.len() as int) =~= path@.take(
                                self.site@.len() as int,
                            ));
                        }
                    }
                    Lookup::CheckIndex { path: pushed }
                },
                _ => Lookup::OpenFile { status: OK_STATUS, path },
            },
            Lookup::CheckIndex { path } => match event {
                LookupEvent::Answer(true) => Lookup::OpenFile { status: OK_STATUS, path },
                _ => self.not_found_reply(),
            },
            Lookup::OpenFile { status, path } => match event {
                LookupEvent::Succeeded => Lookup::ReadLength { status, path },
                _ => Lookup::SendError { status: INTERNAL_SERVER_ERROR_STATUS },
            },
            Lookup::ReadLength { status, path } => match event {
                LookupEvent::Length(length) => Lookup::SendFile {
                    status,
                    headers: FileHeaders {
                        content_type: mime_type(&path),
                        content_length: length,
                        server: self.server_header(),
                    },
                },
                _ => Lookup::SendError { status: INTERNAL_SERVER_ERROR_STATUS },
            },
            Lookup::SendFile { status, headers } => Lookup::SendFile { status, headers },
            Lookup::SendError { status } => Lookup::SendError { status },
        }
    }
}

/// Each step of a lookup keeps it safe (what it opens and sends is a file under the
/// site directory with 200 OK, or the not-found file with 404 NOT FOUND), and
/// moves an unfinished lookup forward.
pub proof fn lemma_lookup_step_safe(ctx: Context, action: Lookup, event: LookupEvent, next: Lookup)
    requires
        ctx.lookup_safe(action),
        ctx.lookup_step(action, event, next),
    ensures
        ctx.lookup_safe(next),
        !lookup_finished(action) ==> lookup_rank(next) > lookup_rank(action),
        lookup_finished(action) ==> next == action,
{
    if let Lookup::CheckDirectory { path } = action {
        if let Lookup::CheckIndex { path: index } = next {
            assert(index@.take(ctx.site@.len() as int) =~= path@.take(ctx.site@.len() as int));
        }
    }
}

/// Whatever the filesystem answers, a GET of any request path only ever opens and
/// sends a file under the site directory, with 200 OK, or the not-found file, with
/// 404 NOT FOUND, and answers 500 INTERNAL SERVER ERROR where that file cannot be
/// opened or measured; and the lookup is over after at most five steps.
pub proof fn lemma_lookup_serves_site_or_not_found(
    ctx: Context,
    request: Seq<Seq<u8>>,
    trace: Seq<Lookup>,
    events: Seq<LookupEvent>,
)
    requires
        trace.len() == events.len() + 1,
        trace[0] matches Lookup::Canonicalize { path } && path@ == joined_below(ctx.site@, request),
        forall|i: int| 0 <= i < events.len() ==> ctx.lookup_step(trace[i], events[i], trace[i + 1]),
    ensures
        forall|i: int| 0 <= i < trace.len() ==> ctx.lookup_safe(#[trigger] trace[i]),
        forall|i: int| 5 <= i < trace.len() ==> lookup_finished(#[trigger] trace[i]),
{
    lemma_lookup_prefix(ctx, request, trace, events, trace.len() as int);
}

/// The first `n` actions of a lookup are safe, and those from the fifth on finished.
proof fn lemma_lookup_prefix(
    ctx: Context,
    request: Seq<Seq<u8>>,
    trace: Seq<Lookup>,
    events: Seq<LookupEvent>,
    n: int,
)
    requires
        1 <= n <= trace.len(),
        trace.len() == events.len() + 1,
        trace[0] matches Lookup::Canonicalize { path } && path@ == joined_below(ctx.site@, request),
        forall|i: int| 0 <= i < events.len() ==> ctx.lookup_step(trace[i], events[i], trace[i + 1]),
    ensures
        forall|i: int| 0 <= i < n ==> ctx.lookup_safe(#[trigger] trace[i]),
        forall|i: int|
            0 <= i < n ==> (lookup_finished(#[trigger] trace[i]) || lookup_rank(trace[i]) >= i),
    decreases n,
{
    if n > 1 {
        lemma_lookup_prefix(ctx, request, trace, events, n - 1);
        assert(ctx.lookup_step(trace[n - 2], events[n - 2], trace[n - 1]));
        lemma_lookup_step_safe(ctx, trace[n - 2], events[n - 2], trace[n - 1]);
    }
}

/// A file found under the site directory, at any depth and the site directory
/// itself included, is served: where the canonical path `found` of a request lies
/// under the site directory and is no directory, it is opened and sent with 200 OK,
/// with its length and the type of its extension.
pub proof fn lemma_found_file_served(
    ctx: Context,
    start: Lookup,
    found: FsPath,
    length: u64,
    a1: Lookup,
    a2: Lookup,
    a3: Lookup,
    a4: Lookup,
)
    requires
        start is Canonicalize,
        is_component_prefix(ctx.site@, found@),
        ctx.lookup_step(start, LookupEvent::Canonical(found), a1),
        ctx.lookup_step(a1, LookupEvent::Answer(false), a2),
        ctx.lookup_step(a2, LookupEvent::Succeeded, a3),
        ctx.lookup_step(a3, LookupEvent::Length(length), a4),
    ensures
        a1 == (Lookup::CheckDirectory { path: found }),
        a2 == (Lookup::OpenFile { status: OK_STATUS, path: found }),
        a4 matches Lookup::SendFile { status, headers } && status == OK_STATUS
            && headers.content_length == length && headers.content_type == mime_of(found@)
            && headers.server@ == ctx.name@ + seq!['/'] + ctx.version@,
{
}

/// A directory found under the site directory, the site directory itself
/// included, is served by its `index.html`: that file is looked for and, where it
/// exists and opens, sent with 200 OK as an HTML page; where it does not exist, the
/// not-found file is sent with 404 NOT FOUND.
pub proof fn lemma_directory_index_served(
    ctx: Context,
    start: Lookup,
    found: FsPath,
    exists: bool,
    a1: Lookup,
    a2: Lookup,
    a3: Lookup,
)
    requires
        start is Canonicalize,
        is_component_prefix(ctx.site@, found@),
        ctx.lookup_step(start, LookupEvent::Canonical(found), a1),
        ctx.lookup_step(a1, LookupEvent::Answer(true), a2),
        ctx.lookup_step(a2, LookupEvent::Answer(exists), a3),
    ensures
        a1 == (Lookup::CheckDirectory { path: found }),
        a2 matches Lookup::CheckIndex { path } && path@ == found@.push(index_html_bytes()),
        exists ==> (a3 matches Lookup::OpenFile { status, path } && status == OK_STATUS && path@
            == found@.push(index_html_bytes()) && mime_of(path@) is Html),
        !exists ==> (a3 matches Lookup::OpenFile { status, path } && status == NOT_FOUND_STATUS
            && path@ == ctx.not_found_file@),
{
    if let Lookup::CheckIndex { path } = a2 {
        assert(path@.last() == index_html_bytes());
        assert(last_dot(index_html_bytes()) == 5) by {
            reveal_with_fuel(last_dot, 6);
            assert(index_html_bytes().drop_last() =~= seq![105u8, 110, 100, 101, 120, 46, 104, 116, 109]);
            assert(index_html_bytes().drop_last().drop_last() =~= seq![105u8, 110, 100, 101, 120, 46, 104, 116]);
            assert(index_html_bytes().drop_last().drop_last().drop_last() =~= seq![105u8, 110, 100, 101, 120, 46, 104]);
            assert(index_html_bytes().drop_last().drop_last().drop_last().drop_last() =~= seq![105u8, 110, 100, 101, 120, 46]);
        }
        assert(index_html_bytes().skip(6) =~= html_bytes());
    }
}

/// A request whose canonical path lies outside the site directory, or that
/// cannot be resolved, is answered with the not-found file and 404 NOT FOUND.
pub proof fn lemma_outside_site_not_found(ctx: Context, start: Lookup, event: LookupEvent, next: Lookup)
    requires
        start is Canonicalize,
        ctx.lookup_step(start, event, next),
        !(event matches LookupEvent::Canonical(found) && is_component_prefix(ctx.site@, found@)),
    ensures
        next matches Lookup::OpenFile { status, path } && status == NOT_FOUND_STATUS && path@
            == ctx.not_found_file@,
{
}

/// A file that was found but cannot be opened, or whose length cannot be read,
/// is answered with 500 INTERNAL SERVER ERROR, whatever status it was to be sent with.
pub proof fn lemma_unreadable_file_internal_error(
    ctx: Context,
    action: Lookup,
    event: LookupEvent,
    next: Lookup,
)
    requires
        action is OpenFile || action is ReadLength,
        ctx.lookup_step(action, event, next),
        !(event is Succeeded && action is OpenFile),
        !(event is Length && action is ReadLength),
    ensures
        next == (Lookup::SendError { status: INTERNAL_SERVER_ERROR_STATUS }),
{
}

/// `last_dot` is the index of the last `.` of a name, or -1 where it has none.
pub proof fn lemma_last_dot(name: Seq<u8>)
    ensures
        -1 <= last_dot(name) < name.len(),
        last_dot(name) >= 0 ==> name[last_dot(name)] == 46u8,
        forall|j: int| last_dot(name) < j < name.len() ==> name[j] != 46u8,
    decreases name.len(),
{
    if name.len() > 0 && name.last() != 46u8 {
        lemma_last_dot(name.drop_last());
        assert forall|j: int| last_dot(name) < j < name.len() implies name[j] != 46u8 by {
            if j < name.len() - 1 {
                assert(name[j] == name.drop_last()[j]);
            }
        }
    }
}

/// The extension of a path is what follows the last `.` of its file name, where
/// that `.` is not the name's first byte; a file name without such a `.` has none.
pub proof fn lemma_extension_after_last_dot(path: Seq<Seq<u8>>)
    ensures
        extension(path) matches Some(ext) ==> (file_name(path) matches Some(name) && exists|k: int|
            0 < k < name.len() && name[k] == 46u8 && #[trigger] name.skip(k + 1) == ext
                && !ext.contains(46u8)),
        extension(path) is None ==> (file_name(path) matches Some(name) ==> (forall|k: int|
            0 < k < name.len() ==> #[trigger] name[k] != 46u8)),
{
    if let Some(name) = file_name(path) {
        lemma_last_dot(name);
        let k = last_dot(name);
        if k > 0 {
            let ext = name.skip(k + 1);
            assert(!ext.contains(46u8)) by {
                if ext.contains(46u8) {
                    let j = choose|j: int| 0 <= j < ext.len() && ext[j] == 46u8;
                    assert(name[k + 1 + j] == 46u8);
                }
            }
        }
    }
}

/// The content type goes by the exact extension: HTML for `html`, JavaScript for
/// `js`, CSS for `css`, and plain text for every other extension or none.
pub proof fn lemma_mime_by_exact_extension(path: Seq<Seq<u8>>)
    ensures
        (mime_of(path) is Html) <==> extension(path) == Some(html_bytes()),
        (mime_of(path) is JavaScript) <==> extension(path) == Some(js_bytes()),
        (mime_of(path) is Css) <==> extension(path) == Some(css_bytes()),
        (mime_of(path) is Plain) <==> !(extension(path) == Some(html_bytes()) || extension(path)
            == Some(js_bytes()) || extension(path) == Some(css_bytes())),
{
    assert(html_bytes() != js_bytes());
    assert(html_bytes() != css_bytes()) by {
        assert(html_bytes().len() != css_bytes().len());
    }
    assert(js_bytes() != css_bytes());
}

} // verus!
