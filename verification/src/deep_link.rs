//! Deep links: the `eveauth-pod://` sign-in callback, pack files opened from the desktop, and
//! the single-instance hand-off that forwards either one to an already running primary.
//!
//! The socket and file-system work stays with the caller; this module decides what a payload
//! means, what a launch should do, and what text the desktop integration files hold.

use vstd::prelude::*;
use vstd::string::StringSliceAdditionalSpecFns;
use vstd::utf8::{decode_utf8, valid_utf8};
use crate::text::{chars_of, has_prefix, push_str, string_from_chars, trimmed, trimmed_chars};

verus! {

/// The URL scheme the EVE SSO redirect uses to reach the app.
pub const SCHEME: &'static str = "eveauth-pod";

/// Prefix of a pack-file path forwarded over the single-instance socket.
pub const FILE_SIGNAL_PREFIX: &'static str = "pod-deeplink:file:";

/// Sentinel sent over the single-instance socket to ask the primary to raise its window.
pub const FOCUS_PING: &'static str = "pod-deeplink:focus";

/// The callback prefix, `eveauth-pod://`.
pub open spec fn callback_prefix() -> Seq<char> {
    SCHEME@ + "://"@
}

/// What a payload received on the single-instance socket asks for.
#[derive(Clone, Debug)]
pub enum Signal {
    File(String),
    Focus,
    Url(String),
}

pub ghost enum SignalView {
    File(Seq<char>),
    Focus,
    Url(Seq<char>),
}

impl View for Signal {
    type V = SignalView;

    open spec fn view(&self) -> SignalView {
        match self {
            Signal::File(p) => SignalView::File(p@),
            Signal::Focus => SignalView::Focus,
            Signal::Url(u) => SignalView::Url(u@),
        }
    }
}

/// The meaning of a payload: the focus ping; a pack-file path behind the file prefix; an
/// `eveauth-pod://` callback; or nothing.
pub open spec fn spec_classify(payload: Seq<char>) -> Option<SignalView> {
    if payload == FOCUS_PING@ {
        Some(SignalView::Focus)
    } else if has_prefix(payload, FILE_SIGNAL_PREFIX@) {
        Some(SignalView::File(payload.skip(FILE_SIGNAL_PREFIX@.len() as int)))
    } else if has_prefix(payload, callback_prefix()) {
        Some(SignalView::Url(payload))
    } else {
        None
    }
}

/// The payload unchanged when it is an `eveauth-pod://` callback.
pub fn validate(payload: &str) -> (r: Option<String>)
    ensures
        r is Some <==> has_prefix(payload@, callback_prefix()),
        r matches Some(u) ==> u@ == payload@,
{
    let mut prefix: Vec<char> = Vec::new();
    push_str(&mut prefix, SCHEME);
    push_str(&mut prefix, "://");
    let prefix = string_from_chars(&prefix);
    if crate::text::starts_with(payload, prefix.as_str()) {
        Some(payload.to_owned())
    } else {
        None
    }
}

/// The first of the launch arguments that is an `eveauth-pod://` callback.
pub open spec fn first_callback(args: Seq<String>) -> Option<Seq<char>>
    decreases args.len(),
{
    if args.len() == 0 {
        None
    } else if has_prefix(args[0]@, callback_prefix()) {
        Some(args[0]@)
    } else {
        first_callback(args.drop_first())
    }
}

/// The callback URL a launch was given: the first argument that is an `eveauth-pod://`
/// callback.
pub fn url_from_args(args: &Vec<String>) -> (r: Option<String>)
    ensures
        match r {
            Some(u) => first_callback(args@) == Some(u@),
            None => first_callback(args@) is None,
        },
{
    let mut i: usize = 0;
    assert(args@.skip(0) =~= args@);
    while i < args.len()
        invariant
            i <= args@.len(),
            first_callback(args@) == first_callback(args@.skip(i as int)),
        decreases args.len() - i,
    {
        assert(args@.skip(i as int).drop_first() =~= args@.skip(i + 1));
        match validate(args[i].as_str()) {
            Some(url) => return Some(url),
            None => {},
        }
        i = i + 1;
    }
    None
}

/// The characters of `s` from position `from` on.
pub fn chars_from(s: &str, from: usize) -> (v: Vec<char>)
    requires
        from <= s@.len(),
    ensures
        v@ == s@.skip(from as int),
{
    let n = s.unicode_len();
    let mut v: Vec<char> = Vec::new();
    let mut i: usize = from;
    while i < n
        invariant
            n == s@.len(),
            from <= i <= n,
            v@ == s@.subrange(from as int, i as int),
        decreases n - i,
    {
        v.push(s.get_char(i));
        i = i + 1;
        assert(v@ =~= s@.subrange(from as int, i as int));
    }
    assert(s@.subrange(from as int, n as int) =~= s@.skip(from as int));
    v
}

/// What a payload received from a second instance asks for.
pub fn classify(payload: &str) -> (r: Option<Signal>)
    ensures
        match r {
            Some(sig) => spec_classify(payload@) == Some(sig@),
            None => spec_classify(payload@) is None,
        },
{
    if crate::scopes::str_eq(payload, FOCUS_PING) {
        return Some(Signal::Focus);
    }
    if crate::text::starts_with(payload, FILE_SIGNAL_PREFIX) {
        let rest = chars_from(payload, FILE_SIGNAL_PREFIX.unicode_len());
        return Some(Signal::File(string_from_chars(&rest)));
    }
    match validate(payload) {
        Some(url) => Some(Signal::Url(url)),
        None => None,
    }
}

/// The payload that forwards a pack-file path to the primary.
pub fn file_signal(path: &str) -> (r: String)
    ensures
        r@ == FILE_SIGNAL_PREFIX@ + path@,
{
    let mut v: Vec<char> = Vec::new();
    push_str(&mut v, FILE_SIGNAL_PREFIX);
    push_str(&mut v, path);
    string_from_chars(&v)
}

/// A pack-file path forwarded with `file_signal` reads back on the primary as that same path.
pub proof fn lemma_file_signal_round_trip(path: Seq<char>)
    ensures
        spec_classify(FILE_SIGNAL_PREFIX@ + path) == Some(SignalView::File(path)),
{
    reveal_strlit("pod-deeplink:file:");
    reveal_strlit("pod-deeplink:focus");
    let payload = FILE_SIGNAL_PREFIX@ + path;
    assert(payload[14] == 'i');
    assert(FOCUS_PING@[14] == 'o');
    assert(payload.subrange(0, FILE_SIGNAL_PREFIX@.len() as int) =~= FILE_SIGNAL_PREFIX@);
    assert(payload.skip(FILE_SIGNAL_PREFIX@.len() as int) =~= path);
}

/// A callback URL forwarded to the primary reads back there as that same URL: it is neither
/// the focus ping nor a pack-file signal.
pub proof fn lemma_callback_round_trip(url: Seq<char>)
    requires
        has_prefix(url, callback_prefix()),
    ensures
        spec_classify(url) == Some(SignalView::Url(url)),
{
    reveal_strlit("pod-deeplink:file:");
    reveal_strlit("pod-deeplink:focus");
    reveal_strlit("eveauth-pod");
    reveal_strlit("://");
    assert(url.subrange(0, callback_prefix().len() as int)[0] == callback_prefix()[0]);
    assert(url[0] == 'e');
    assert(FOCUS_PING@[0] == 'p');
    if has_prefix(url, FILE_SIGNAL_PREFIX@) {
        assert(url.subrange(0, FILE_SIGNAL_PREFIX@.len() as int)[0] == FILE_SIGNAL_PREFIX@[0]);
    }
}

/// What the primary does with a payload: a file is delivered and the window raised; a
/// callback is delivered; a focus ping raises the window; anything else is dropped.
#[derive(Clone, Debug)]
pub enum Dispatch {
    DeliverFileAndFocus(String),
    DeliverUrl(String),
    Focus,
    Ignore,
}

/// What the primary does with a payload read from the socket.
pub fn dispatch_signal(payload: &str) -> (r: Dispatch)
    ensures
        match r {
            Dispatch::DeliverFileAndFocus(p) => spec_classify(payload@) == Some(SignalView::File(p@)),
            Dispatch::DeliverUrl(u) => spec_classify(payload@) == Some(SignalView::Url(u@)),
            Dispatch::Focus => spec_classify(payload@) == Some(SignalView::Focus),
            Dispatch::Ignore => spec_classify(payload@) is None,
        },
{
    match classify(payload) {
        Some(Signal::File(path)) => Dispatch::DeliverFileAndFocus(path),
        Some(Signal::Url(url)) => Dispatch::DeliverUrl(url),
        Some(Signal::Focus) => Dispatch::Focus,
        None => Dispatch::Ignore,
    }
}

/// What the primary does with a payload as it was read from the socket, surrounding
/// whitespace and all.
pub fn dispatch_received(raw: &str) -> (r: Dispatch)
    ensures
        match r {
            Dispatch::DeliverFileAndFocus(p) => spec_classify(trimmed(raw@)) == Some(SignalView::File(p@)),
            Dispatch::DeliverUrl(u) => spec_classify(trimmed(raw@)) == Some(SignalView::Url(u@)),
            Dispatch::Focus => spec_classify(trimmed(raw@)) == Some(SignalView::Focus),
            Dispatch::Ignore => spec_classify(trimmed(raw@)) is None,
        },
{
    let chars = trimmed_chars(raw);
    let payload = string_from_chars(&chars);
    dispatch_signal(payload.as_str())
}

/// How a launch resolved against the single-instance lock.
#[derive(Clone, Debug, PartialEq, Eq)]
pub enum Claim {
    Forwarded,
    Primary { pending: Option<String> },
}

/// What a launch tries first: forward its callback URL, or, without one, ask a running
/// primary to raise its window.
#[derive(Clone, Debug)]
pub enum ClaimAttempt {
    ForwardUrl(String),
    RequestFocus,
}

/// The first step of a launch: forward the callback URL when there is one, else ask for focus.
pub fn claim_attempt(url: &Option<String>) -> (r: ClaimAttempt)
    ensures
        match url {
            Some(u) => r matches ClaimAttempt::ForwardUrl(f) && f == u,
            None => r is RequestFocus,
        },
{
    match url {
        Some(u) => ClaimAttempt::ForwardUrl(u.clone()),
        None => ClaimAttempt::RequestFocus,
    }
}

/// How the launch ends once its attempt has run: reaching a primary forwards; otherwise this
/// launch becomes the primary and keeps its callback URL to handle locally.
pub fn resolve_claim(url: Option<String>, reached_primary: bool) -> (r: Claim)
    ensures
        reached_primary ==> r == Claim::Forwarded,
        !reached_primary ==> r == (Claim::Primary { pending: url }),
{
    if reached_primary {
        Claim::Forwarded
    } else {
        Claim::Primary { pending: url }
    }
}

/// Where deep links wait for the app: whether the callback and focus subscriptions have
/// registered, and a callback URL that arrived before the callback subscription did.
#[derive(Debug)]
pub struct Mailbox {
    pending: Option<String>,
    url_listener: bool,
    focus_listener: bool,
}

impl Mailbox {
    pub closed spec fn spec_pending(self) -> Option<Seq<char>> {
        match self.pending {
            Some(u) => Some(u@),
            None => None,
        }
    }

    pub closed spec fn spec_url_listener(self) -> bool {
        self.url_listener
    }

    pub closed spec fn spec_focus_listener(self) -> bool {
        self.focus_listener
    }

    /// Nothing registered and nothing waiting.
    pub fn new() -> (r: Mailbox)
        ensures
            r.spec_pending() is None,
            !r.spec_url_listener(),
            !r.spec_focus_listener(),
    {
        Mailbox { pending: None, url_listener: false, focus_listener: false }
    }

    /// A callback URL arrived: it goes to the callback subscription when one has registered,
    /// and is dropped otherwise.
    pub fn deliver(&self, url: String) -> (r: Option<String>)
        ensures
            self.spec_url_listener() ==> (r matches Some(u) && u@ == url@),
            !self.spec_url_listener() ==> r is None,
    {
        if self.url_listener {
            Some(url)
        } else {
            None
        }
    }

    /// A focus ping arrived: it goes to the focus subscription when one has registered.
    pub fn deliver_focus(&self) -> (r: bool)
        ensures
            r == self.spec_focus_listener(),
    {
        self.focus_listener
    }

    /// Keeps a callback URL for the callback subscription to take when it registers.
    pub fn set_pending(&mut self, url: String)
        ensures
            final(self).spec_pending() == Some(url@),
            final(self).spec_url_listener() == old(self).spec_url_listener(),
            final(self).spec_focus_listener() == old(self).spec_focus_listener(),
    {
        self.pending = Some(url);
    }

    /// The callback subscription started: it registers and takes the URL kept for it.
    pub fn register_url_listener(&mut self) -> (r: Option<String>)
        ensures
            match r {
                Some(u) => old(self).spec_pending() == Some(u@),
                None => old(self).spec_pending() is None,
            },
            final(self).spec_pending() is None,
            final(self).spec_url_listener(),
            final(self).spec_focus_listener() == old(self).spec_focus_listener(),
    {
        self.url_listener = true;
        let taken = self.pending.take();
        taken
    }

    /// The focus subscription started.
    pub fn register_focus_listener(&mut self)
        ensures
            final(self).spec_focus_listener(),
            final(self).spec_pending() == old(self).spec_pending(),
            final(self).spec_url_listener() == old(self).spec_url_listener(),
    {
        self.focus_listener = true;
    }
}

/// Whether the launch hands over to a running primary and should exit; a launch that became
/// the primary keeps its callback URL in the mailbox for the callback subscription.
pub fn forward_or_claim(claim: Claim, mailbox: &mut Mailbox) -> (r: bool)
    ensures
        r == (claim is Forwarded),
        final(mailbox).spec_url_listener() == old(mailbox).spec_url_listener(),
        final(mailbox).spec_focus_listener() == old(mailbox).spec_focus_listener(),
        final(mailbox).spec_pending() == (match claim {
            Claim::Primary { pending: Some(u) } => Some(u@),
            _ => old(mailbox).spec_pending(),
        }),
{
    match claim {
        Claim::Forwarded => true,
        Claim::Primary { pending } => {
            match pending {
                Some(url) => mailbox.set_pending(url),
                None => {},
            }
            false
        },
    }
}

/// The launch-log line for a claim.
pub open spec fn spec_breadcrumb(url: Option<Seq<char>>, claim: Claim) -> Seq<char> {
    match claim {
        Claim::Forwarded => match url {
            Some(u) => "[INFO] launch forwarded callback to the running primary url="@ + u,
            None => "[INFO] launch focused the running primary (no callback url)"@,
        },
        Claim::Primary { pending } => match pending {
            Some(u) => "[WARN] launch could not reach a primary; handling callback locally url="@ + u@,
            None => "[INFO] launch became the primary (no callback url)"@,
        },
    }
}

/// The launch-log line that records how a launch resolved.
pub fn breadcrumb_message(url: Option<&str>, claim: &Claim) -> (r: String)
    ensures
        r@ == spec_breadcrumb(
            match url {
                Some(u) => Some(u@),
                None => None,
            },
            *claim,
        ),
{
    let mut v: Vec<char> = Vec::new();
    match claim {
        Claim::Forwarded => match url {
            Some(u) => {
                push_str(&mut v, "[INFO] launch forwarded callback to the running primary url=");
                push_str(&mut v, u);
            },
            None => {
                push_str(&mut v, "[INFO] launch focused the running primary (no callback url)");
            },
        },
        Claim::Primary { pending } => match pending {
            Some(u) => {
                push_str(
                    &mut v,
                    "[WARN] launch could not reach a primary; handling callback locally url=",
                );
                push_str(&mut v, u.as_str());
            },
            None => {
                push_str(&mut v, "[INFO] launch became the primary (no callback url)");
            },
        },
    }
    string_from_chars(&v)
}

/// The value of an ASCII hex digit.
pub open spec fn hex_value(b: u8) -> Option<u8> {
    if 48 <= b <= 57 {
        Some((b - 48) as u8)
    } else if 97 <= b <= 102 {
        Some((b - 87) as u8)
    } else if 65 <= b <= 70 {
        Some((b - 55) as u8)
    } else {
        None
    }
}

/// Percent-decoding byte by byte: `%XY` with two hex digits becomes the byte `0xXY`; a `%`
/// followed by two other bytes keeps the `%` and drops those two bytes; a `%` with fewer than
/// two bytes after it keeps the `%` and ends the text; every other byte is kept.
pub open spec fn percent_decode(s: Seq<u8>) -> Seq<u8>
    decreases s.len(),
{
    if s.len() == 0 {
        seq![]
    } else if s[0] != 37 {
        seq![s[0]] + percent_decode(s.skip(1))
    } else if s.len() >= 3 {
        (match (hex_value(s[1]), hex_value(s[2])) {
            (Some(hi), Some(lo)) => seq![(hi * 16 + lo) as u8],
            _ => seq![37u8],
        }) + percent_decode(s.skip(3))
    } else {
        seq![37u8]
    }
}

/// The bytes of `file://` in UTF-8.
pub open spec fn file_scheme_bytes() -> Seq<u8> {
    seq![102u8, 105u8, 108u8, 101u8, 58u8, 47u8, 47u8]
}

/// The bytes of the path part of a file URL: without a leading `file://`, when present.
pub open spec fn file_url_path_bytes(url: Seq<u8>) -> Seq<u8> {
    if url.len() >= 7 && url.subrange(0, 7) == file_scheme_bytes() {
        url.skip(7)
    } else {
        url
    }
}

/// The text that `String::from_utf8_lossy` gives for these bytes.
pub uninterp spec fn utf8_lossy(bytes: Seq<u8>) -> Seq<char>;

/// Wraps std's `String::from_utf8_lossy`: the result is named by `utf8_lossy` of the bytes,
/// and, as its documentation says, valid UTF-8 comes back decoded unchanged.
#[verifier::external_body]
fn string_from_utf8_lossy(bytes: &Vec<u8>) -> (s: String)
    ensures
        s@ == utf8_lossy(bytes@),
        valid_utf8(bytes@) ==> s@ == decode_utf8(bytes@),
{
    String::from_utf8_lossy(bytes.as_slice()).into_owned()
}

/// The value of an ASCII hex digit.
pub fn hex_digit(b: u8) -> (r: Option<u8>)
    ensures
        r == hex_value(b),
{
    if 48 <= b && b <= 57 {
        Some(b - 48)
    } else if 97 <= b && b <= 102 {
        Some(b - 87)
    } else if 65 <= b && b <= 70 {
        Some(b - 55)
    } else {
        None
    }
}

/// Decodes the percent escapes of `bytes`, as `percent_decode` states.
pub fn percent_decode_bytes(bytes: &[u8]) -> (r: Vec<u8>)
    ensures
        r@ == percent_decode(bytes@),
{
    let n = bytes.len();
    let mut out: Vec<u8> = Vec::new();
    let mut i: usize = 0;
    assert(bytes@.skip(0) =~= bytes@);
    while i < n
        invariant
            n == bytes@.len(),
            i <= n,
            out@ + percent_decode(bytes@.skip(i as int)) == percent_decode(bytes@),
        decreases n - i,
    {
        let ghost rest = bytes@.skip(i as int);
        let b = bytes[i];
        if b != 37 {
            assert(rest.skip(1) =~= bytes@.skip(i + 1));
            out.push(b);
            assert(out@ + percent_decode(bytes@.skip(i + 1)) =~= (out@.drop_last() + seq![b])
                + percent_decode(rest.skip(1)));
            i = i + 1;
        } else if n - i >= 3 {
            assert(rest.skip(3) =~= bytes@.skip(i + 3));
            let decoded = match (hex_digit(bytes[i + 1]), hex_digit(bytes[i + 2])) {
                (Some(hi), Some(lo)) => hi * 16 + lo,
                _ => 37u8,
            };
            out.push(decoded);
            assert(out@ + percent_decode(bytes@.skip(i + 3)) =~= (out@.drop_last() + seq![decoded])
                + percent_decode(rest.skip(3)));
            i = i + 3;
        } else {
            out.push(37u8);
            assert(bytes@.skip(n as int) =~= Seq::<u8>::empty());
            assert(out@ + percent_decode(bytes@.skip(n as int)) =~= out@.drop_last() + seq![37u8]);
            i = n;
        }
    }
    assert(bytes@.skip(n as int) =~= Seq::<u8>::empty());
    assert(out@ + percent_decode(bytes@.skip(n as int)) =~= out@);
    out
}

/// The local path of a `file://` URL the OS handed over for an opened document: the scheme is
/// stripped, the percent escapes decoded byte by byte, and the bytes read back as UTF-8 with
/// invalid sequences replaced; valid UTF-8 reads back as the text it encodes.
pub fn file_url_to_path(url: &str) -> (r: String)
    ensures
        r@ == utf8_lossy(percent_decode(file_url_path_bytes(url.spec_bytes()))),
        valid_utf8(percent_decode(file_url_path_bytes(url.spec_bytes())))
            ==> r@ == decode_utf8(percent_decode(file_url_path_bytes(url.spec_bytes()))),
{
    let bytes = url.as_bytes();
    let n = bytes.len();
    let has_scheme = n >= 7 && bytes[0] == 102 && bytes[1] == 105 && bytes[2] == 108 && bytes[3]
        == 101 && bytes[4] == 58 && bytes[5] == 47 && bytes[6] == 47;
    proof {
        if n >= 7 {
            if has_scheme {
                assert(bytes@.subrange(0, 7) =~= file_scheme_bytes());
            } else if bytes@.subrange(0, 7) == file_scheme_bytes() {
                assert(bytes@.subrange(0, 7)[0] == bytes@[0]);
                assert(bytes@.subrange(0, 7)[1] == bytes@[1]);
                assert(bytes@.subrange(0, 7)[2] == bytes@[2]);
                assert(bytes@.subrange(0, 7)[3] == bytes@[3]);
                assert(bytes@.subrange(0, 7)[4] == bytes@[4]);
                assert(bytes@.subrange(0, 7)[5] == bytes@[5]);
                assert(bytes@.subrange(0, 7)[6] == bytes@[6]);
            }
        }
    }
    let mut path: Vec<u8> = Vec::new();
    let mut i: usize = if has_scheme { 7 } else { 0 };
    let start = i;
    while i < n
        invariant
            n == bytes@.len(),
            start <= i <= n,
            path@ == bytes@.subrange(start as int, i as int),
        decreases n - i,
    {
        path.push(bytes[i]);
        i = i + 1;
        assert(path@ =~= bytes@.subrange(start as int, i as int));
    }
    assert(path@ =~= file_url_path_bytes(url.spec_bytes()));
    let decoded = percent_decode_bytes(path.as_slice());
    string_from_utf8_lossy(&decoded)
}

/// The launcher path to record for the scheme handler: `$APPIMAGE` when it is set and not
/// empty (the AppImage's own mount point vanishes after exit), else none, and the caller falls
/// back to the running executable.
pub fn resolve_handler_exec(appimage: Option<String>) -> (r: Option<String>)
    ensures
        match appimage {
            Some(a) => if a@.len() > 0 { r == Some(a) } else { r is None },
            None => r is None,
        },
{
    match appimage {
        Some(value) => if value.as_str().is_empty() {
            None
        } else {
            Some(value)
        },
        None => None,
    }
}

/// The directory for the single-instance socket: the runtime directory when there is one,
/// else the app's data directory.
pub fn resolve_socket_dir(runtime: Option<String>, data_dir: String) -> (r: String)
    ensures
        r == (match runtime {
            Some(dir) => dir,
            None => data_dir,
        }),
{
    match runtime {
        Some(dir) => dir,
        None => data_dir,
    }
}

/// What a launch does after binding the single-instance socket failed.
#[derive(Clone, Copy, Debug, PartialEq, Eq, Structural)]
pub enum BindRecovery {
    /// Another primary holds the socket, or the failure was not about the address.
    GiveUp,
    /// The socket file is left over from a primary that is gone: remove it and bind again.
    RemoveAndRetry,
}

/// After a failed bind: an address in use with no primary answering on it is stale and is
/// taken over; anything else leaves this launch without the socket.
pub fn recover_stale(addr_in_use: bool, primary_answers: bool) -> (r: BindRecovery)
    ensures
        r == (if addr_in_use && !primary_answers {
            BindRecovery::RemoveAndRetry
        } else {
            BindRecovery::GiveUp
        }),
{
    if addr_in_use && !primary_answers {
        BindRecovery::RemoveAndRetry
    } else {
        BindRecovery::GiveUp
    }
}

} // verus!
