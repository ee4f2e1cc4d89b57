//! Sign-in: the EVE SSO scopes a character or corporation sign-in requests, derived from the
//! account's enabled features, and the state of the sign-in panel as the browser round trip,
//! the callback and the token exchange report back.

use vstd::prelude::*;
use crate::features::{baseline_corp_names, baseline_corp_scopes, FeatureFlags, SubFeature};
use crate::scopes::{insert_sorted, strictly_sorted, views};
use crate::text::{push_str, string_from_chars};

verus! {

/// The character scopes a sign-in requests: every scope of every sub-feature in effect.
pub open spec fn requested_scope_names(flags: FeatureFlags) -> Set<Seq<char>> {
    Set::new(
        |n: Seq<char>| exists|s: SubFeature| flags.active(s) && #[trigger] s.scope_names().contains(n),
    )
}

/// The scopes a corporation sign-in requests: the baseline companions, plus the corporation
/// scopes of every sub-feature in effect.
pub open spec fn requested_corp_scope_names(flags: FeatureFlags) -> Set<Seq<char>> {
    Set::new(
        |n: Seq<char>|
            baseline_corp_names().contains(n) || exists|s: SubFeature|
                flags.active(s) && #[trigger] s.corp_scope_names().contains(n),
    )
}

/// Adds every name of `names` to the ordered set `set`.
fn add_all(set: &mut Vec<&'static str>, names: &Vec<&'static str>)
    requires
        strictly_sorted(views(old(set)@)),
    ensures
        strictly_sorted(views(final(set)@)),
        views(final(set)@).to_set() == views(old(set)@).to_set().union(views(names@).to_set()),
{
    let ghost start = views(set@).to_set();
    let mut k: usize = 0;
    while k < names.len()
        invariant
            k <= names.len(),
            strictly_sorted(views(set@)),
            views(set@).to_set() == start.union(views(names@.take(k as int)).to_set()),
        decreases names.len() - k,
    {
        insert_sorted(set, names[k]);
        proof {
            assert(views(names@.take(k + 1)) =~= views(names@.take(k as int)).push(names@[k as int]@));
            assert(views(names@.take(k + 1)).to_set() =~= views(names@.take(k as int)).to_set().insert(
                names@[k as int]@,
            )) by {
                let a = views(names@.take(k as int));
                let b = views(names@.take(k + 1));
                assert forall|x: Seq<char>| b.to_set().contains(x) implies a.to_set().insert(
                    names@[k as int]@,
                ).contains(x) by {
                    let j = choose|j: int| 0 <= j < b.len() && b[j] == x;
                    if j < k {
                        assert(a[j] == x);
                    }
                }
                assert forall|x: Seq<char>| a.to_set().insert(names@[k as int]@).contains(x) implies b.to_set().contains(x) by {
                    if x == names@[k as int]@ {
                        assert(b[k as int] == x);
                    } else {
                        let j = choose|j: int| 0 <= j < a.len() && a[j] == x;
                        assert(b[j] == x);
                    }
                }
            }
        }
        k = k + 1;
    }
    assert(names@.take(names.len() as int) =~= names@);
}

proof fn lemma_views_to_set(names: Seq<&'static str>, n: Seq<char>)
    ensures
        views(names).to_set().contains(n) == views(names).contains(n),
{
}

/// The character scopes to request at sign-in: the union of the scopes of every sub-feature in
/// effect, without duplicates, in code-point order.
pub fn scopes_for(features: &FeatureFlags) -> (r: Vec<&'static str>)
    ensures
        strictly_sorted(views(r@)),
        views(r@).to_set() == requested_scope_names(*features),
{
    let subs = features.enabled_sub_features();
    let mut out: Vec<&'static str> = Vec::new();
    let mut i: usize = 0;
    while i < subs.len()
        invariant
            i <= subs.len(),
            strictly_sorted(views(out@)),
            forall|s: SubFeature| subs@.contains(s) <==> features.active(s),
            views(out@).to_set() == Set::new(
                |n: Seq<char>| exists|j: int| 0 <= j < i && #[trigger] subs@[j].scope_names().contains(n),
            ),
        decreases subs.len() - i,
    {
        let names = subs[i].scopes();
        let ghost before = views(out@).to_set();
        add_all(&mut out, &names);
        proof {
            assert(views(out@).to_set() =~= Set::new(
                |n: Seq<char>| exists|j: int| 0 <= j < i + 1 && #[trigger] subs@[j].scope_names().contains(n),
            )) by {
                assert forall|n: Seq<char>| #![auto] views(out@).to_set().contains(n) implies exists|j: int|
                    0 <= j < i + 1 && #[trigger] subs@[j].scope_names().contains(n) by {
                    if !before.contains(n) {
                        lemma_views_to_set(names@, n);
                        assert(subs@[i as int].scope_names().contains(n));
                    }
                }
                assert forall|n: Seq<char>| (exists|j: int| 0 <= j < i + 1 && #[trigger] subs@[j].scope_names().contains(n)) implies #[trigger] views(out@).to_set().contains(n) by {
                    let j = choose|j: int| 0 <= j < i + 1 && #[trigger] subs@[j].scope_names().contains(n);
                    if j == i {
                        lemma_views_to_set(names@, n);
                    } else {
                        assert(before.contains(n));
                    }
                }
            }
        }
        i = i + 1;
    }
    proof {
        assert(views(out@).to_set() =~= requested_scope_names(*features)) by {
            assert forall|n: Seq<char>| #![auto] views(out@).to_set().contains(n) implies requested_scope_names(
                *features,
            ).contains(n) by {
                let j = choose|j: int| 0 <= j < subs.len() && #[trigger] subs@[j].scope_names().contains(n);
                assert(subs@.contains(subs@[j]));
            }
            assert forall|n: Seq<char>| #![auto] requested_scope_names(*features).contains(n) implies views(
                out@,
            ).to_set().contains(n) by {
                let s = choose|s: SubFeature| features.active(s) && #[trigger] s.scope_names().contains(n);
                assert(subs@.contains(s));
                let j = choose|j: int| 0 <= j < subs.len() && subs@[j] == s;
                assert(subs@[j].scope_names().contains(n));
            }
        }
    }
    out
}

/// The scopes to request when adding a corporation: the baseline corporation scopes plus the
/// corporation scopes of every sub-feature in effect, without duplicates, in code-point order.
pub fn corp_scopes_for(features: &FeatureFlags) -> (r: Vec<&'static str>)
    ensures
        strictly_sorted(views(r@)),
        views(r@).to_set() == requested_corp_scope_names(*features),
{
    let subs = features.enabled_sub_features();
    let mut out: Vec<&'static str> = Vec::new();
    let baseline = baseline_corp_scopes();
    add_all(&mut out, &baseline);
    proof {
        assert(views(out@).to_set() =~= views(baseline@).to_set());
    }
    let mut i: usize = 0;
    while i < subs.len()
        invariant
            i <= subs.len(),
            strictly_sorted(views(out@)),
            views(baseline@) == baseline_corp_names(),
            forall|s: SubFeature| subs@.contains(s) <==> features.active(s),
            views(out@).to_set() == Set::new(
                |n: Seq<char>|
                    baseline_corp_names().contains(n) || exists|j: int|
                        0 <= j < i && #[trigger] subs@[j].corp_scope_names().contains(n),
            ),
        decreases subs.len() - i,
    {
        let names = subs[i].corp_scopes();
        let ghost before = views(out@).to_set();
        add_all(&mut out, &names);
        proof {
            assert(views(out@).to_set() =~= Set::new(
                |n: Seq<char>|
                    baseline_corp_names().contains(n) || exists|j: int|
                        0 <= j < i + 1 && #[trigger] subs@[j].corp_scope_names().contains(n),
            )) by {
                assert forall|n: Seq<char>| #![auto] views(out@).to_set().contains(n) implies baseline_corp_names().contains(n) || exists|j: int|
                    0 <= j < i + 1 && #[trigger] subs@[j].corp_scope_names().contains(n) by {
                    if !before.contains(n) {
                        lemma_views_to_set(names@, n);
                        assert(subs@[i as int].corp_scope_names().contains(n));
                    }
                }
                assert forall|n: Seq<char>| (baseline_corp_names().contains(n) || exists|j: int| 0 <= j < i + 1 && #[trigger] subs@[j].corp_scope_names().contains(n)) implies #[trigger] views(out@).to_set().contains(n) by {
                    if !baseline_corp_names().contains(n) {
                        let j = choose|j: int| 0 <= j < i + 1 && #[trigger] subs@[j].corp_scope_names().contains(n);
                        if j == i {
                            lemma_views_to_set(names@, n);
                        } else {
                            assert(before.contains(n));
                        }
                    } else {
                        assert(before.contains(n));
                    }
                }
            }
        }
        i = i + 1;
    }
    proof {
        assert(views(out@).to_set() =~= requested_corp_scope_names(*features)) by {
            assert forall|n: Seq<char>| #![auto] views(out@).to_set().contains(n) implies requested_corp_scope_names(
                *features,
            ).contains(n) by {
                if !baseline_corp_names().contains(n) {
                    let j = choose|j: int| 0 <= j < subs.len() && #[trigger] subs@[j].corp_scope_names().contains(n);
                    assert(subs@.contains(subs@[j]));
                }
            }
            assert forall|n: Seq<char>| #![auto] requested_corp_scope_names(*features).contains(n) implies views(
                out@,
            ).to_set().contains(n) by {
                if !baseline_corp_names().contains(n) {
                    let s = choose|s: SubFeature| features.active(s) && #[trigger] s.corp_scope_names().contains(n);
                    assert(subs@.contains(s));
                    let j = choose|j: int| 0 <= j < subs.len() && subs@[j] == s;
                    assert(subs@[j].corp_scope_names().contains(n));
                }
            }
        }
    }
    out
}

/// Which sign-in the panel is running.
#[derive(Clone, Copy, Debug, PartialEq, Eq, Structural)]
pub enum Kind {
    AddCorporation,
    SignIn,
}

/// Where a sign-in stands.
#[derive(Clone, Debug)]
pub enum Status {
    Completing,
    Failed(String),
    Waiting,
}

pub ghost enum StatusView {
    Completing,
    Failed(Seq<char>),
    Waiting,
}

impl View for Status {
    type V = StatusView;

    open spec fn view(&self) -> StatusView {
        match self {
            Status::Completing => StatusView::Completing,
            Status::Failed(e) => StatusView::Failed(e@),
            Status::Waiting => StatusView::Waiting,
        }
    }
}

/// An SSO authorization the app started: the CSRF state it sent, the page the pilot signs in
/// on, and the PKCE verifier the code exchange proves itself with.
#[derive(Clone, Debug)]
pub struct PendingAuth {
    pub state: String,
    pub url: String,
    pub verifier: String,
}

pub ghost struct PendingAuthView {
    pub state: Seq<char>,
    pub url: Seq<char>,
    pub verifier: Seq<char>,
}

impl View for PendingAuth {
    type V = PendingAuthView;

    open spec fn view(&self) -> PendingAuthView {
        PendingAuthView { state: self.state@, url: self.url@, verifier: self.verifier@ }
    }
}

/// The view of an authorization that may not be there yet.
pub open spec fn pending_view(pending: Option<PendingAuth>) -> Option<PendingAuthView> {
    match pending {
        Some(p) => Some(p@),
        None => None,
    }
}

fn copy_pending(pending: &Option<PendingAuth>) -> (r: Option<PendingAuth>)
    ensures
        pending_view(r) == pending_view(*pending),
{
    match pending {
        Some(p) => Some(PendingAuth { state: p.state.clone(), url: p.url.clone(), verifier: p.verifier.clone() }),
        None => None,
    }
}

/// A sign-in in progress: the features it was started with, its kind, the SSO authorization
/// it runs under once the app handed it back, and its status.
#[derive(Clone, Debug)]
pub struct Flow {
    pub features: FeatureFlags,
    pub kind: Kind,
    pub pending: Option<PendingAuth>,
    pub status: Status,
}

/// A character that finished signing in.
#[derive(Clone, Debug)]
pub struct SignedIn {
    pub character_id: i64,
    pub character_name: String,
}

/// A corporation that a director's sign-in added.
#[derive(Clone, Copy, Debug)]
pub struct CorporationAdded {
    pub authorizing_character_id: i64,
    pub corporation_id: i64,
}

/// What a finished sign-in tells the rest of the app.
#[derive(Clone, Debug)]
pub enum Event {
    CorporationAdded(CorporationAdded),
    SignedIn(SignedIn),
}

/// The code and state the SSO redirect carried back.
#[derive(Clone, Debug)]
pub struct Callback {
    pub code: String,
    pub state: String,
}

/// What reaches the sign-in panel.
#[derive(Debug)]
pub enum Message {
    /// The SSO authorization the app started for the running flow.
    Authorized(PendingAuth),
    BrowserOpened(Result<(), String>),
    /// The callback URL, read into its code and state; `None` when either was missing.
    CallbackReceived(Option<Callback>),
    Cancel,
    Completed(Result<SignedIn, String>),
    CorporationCompleted(Result<CorporationAdded, String>),
    Start(FeatureFlags),
    StartAddCorporation(FeatureFlags),
}

/// The outside work a message asks for.
#[derive(Debug)]
pub enum Effect {
    /// Nothing to do.
    Nothing,
    /// Start an SSO authorization for these scopes and hand it back with `Message::Authorized`.
    Authorize { kind: Kind, scopes: Vec<&'static str> },
    /// Open the authorization's sign-in page in the browser.
    OpenBrowser(String),
    /// Exchange the callback, under the flow's authorization, for a character's tokens and
    /// store the character.
    CompleteSignIn { pending: Option<PendingAuth>, callback: Callback },
    /// Exchange the callback under the flow's authorization, check the director's
    /// corporation and store it.
    AddCorporation { pending: Option<PendingAuth>, callback: Callback },
}

/// The text a failed browser launch leaves on the panel.
pub open spec fn browser_failure(error: Seq<char>) -> Seq<char> {
    "Couldn't open your browser ("@ + error + "). Open the EVE sign-in page manually to continue."@
}

/// The text a callback without its code or state leaves on the panel.
pub const MALFORMED_CALLBACK: &'static str = "The sign-in callback was malformed (missing code or state).";

/// The sign-in panel: idle, or running one flow.
#[derive(Debug)]
pub struct State {
    flow: Option<Flow>,
}

impl State {
    /// The flow in progress.
    pub closed spec fn spec_flow(self) -> Option<Flow> {
        self.flow
    }

    /// An idle panel.
    pub fn new() -> (r: State)
        ensures
            r.spec_flow() is None,
    {
        State { flow: None }
    }

    /// A panel already running `flow`.
    pub fn with_flow(flow: Flow) -> (r: State)
        ensures
            r.spec_flow() == Some(flow),
    {
        State { flow: Some(flow) }
    }

    /// Whether a sign-in is in progress.
    pub fn is_active(&self) -> (r: bool)
        ensures
            r == self.spec_flow() is Some,
    {
        self.flow.is_some()
    }

    /// The sign-in in progress.
    pub fn flow(&self) -> (r: Option<&Flow>)
        ensures
            r matches Some(f) ==> self.spec_flow() == Some(*f),
            r is None ==> self.spec_flow() is None,
    {
        match &self.flow {
            Some(f) => Some(f),
            None => None,
        }
    }

    /// Marks the flow in progress failed with `error`; an idle panel stays idle.
    fn fail_active_flow(&mut self, error: String)
        ensures
            match old(self).spec_flow() {
                Some(f) => final(self).spec_flow() matches Some(g) && g.features == f.features && g.kind == f.kind
                    && g.pending == f.pending && g.status@ == StatusView::Failed(error@),
                None => final(self).spec_flow() is None,
            },
    {
        match &mut self.flow {
            Some(flow) => {
                flow.status = Status::Failed(error);
            },
            None => {},
        }
    }
}

impl Default for State {
    fn default() -> (r: State)
        ensures
            r.spec_flow() is None,
    {
        State::new()
    }
}

fn browser_failure_text(error: &str) -> (r: String)
    ensures
        r@ == browser_failure(error@),
{
    let mut v: Vec<char> = Vec::new();
    push_str(&mut v, "Couldn't open your browser (");
    push_str(&mut v, error);
    push_str(&mut v, "). Open the EVE sign-in page manually to continue.");
    string_from_chars(&v)
}

/// How a message moves the panel from `before` to `after`, with the work and event `r`.
pub open spec fn stepped(before: State, message: Message, after: State, r: (Effect, Option<Event>)) -> bool {
    match message {
        Message::Start(features) => {
            &&& after.spec_flow() matches Some(f) && f.features == features && f.kind == Kind::SignIn
                && f.pending is None && f.status@ == StatusView::Waiting
            &&& r.0 matches Effect::Authorize { kind, scopes } && kind == Kind::SignIn
                && strictly_sorted(views(scopes@)) && views(scopes@).to_set() == requested_scope_names(features)
            &&& r.1 is None
        },
        Message::StartAddCorporation(features) => {
            &&& after.spec_flow() matches Some(f) && f.features == features && f.kind == Kind::AddCorporation
                && f.pending is None && f.status@ == StatusView::Waiting
            &&& r.0 matches Effect::Authorize { kind, scopes } && kind == Kind::AddCorporation
                && strictly_sorted(views(scopes@)) && views(scopes@).to_set() == requested_corp_scope_names(features)
            &&& r.1 is None
        },
        Message::Authorized(pending) => {
            &&& r.1 is None
            &&& match before.spec_flow() {
                Some(f) => {
                    &&& after.spec_flow() matches Some(g) && g.features == f.features && g.kind == f.kind
                        && g.status == f.status && g.pending == Some(pending)
                    &&& r.0 matches Effect::OpenBrowser(url) && url@ == pending.url@
                },
                None => after.spec_flow() is None && r.0 is Nothing,
            }
        },
        Message::BrowserOpened(Ok(())) => after.spec_flow() == before.spec_flow() && r.0 is Nothing && r.1 is None,
        Message::BrowserOpened(Err(error)) => {
            &&& r.0 is Nothing && r.1 is None
            &&& match before.spec_flow() {
                Some(f) => after.spec_flow() matches Some(g) && g.features == f.features && g.kind == f.kind
                    && g.pending == f.pending && g.status@ == StatusView::Failed(browser_failure(error@)),
                None => after.spec_flow() is None,
            }
        },
        Message::CallbackReceived(callback) => {
            &&& r.1 is None
            &&& match before.spec_flow() {
                None => after.spec_flow() is None && r.0 is Nothing,
                Some(f) => match callback {
                    None => {
                        &&& r.0 is Nothing
                        &&& after.spec_flow() matches Some(g) && g.features == f.features
                            && g.kind == f.kind && g.pending == f.pending
                            && g.status@ == StatusView::Failed(MALFORMED_CALLBACK@)
                    },
                    Some(cb) => {
                        &&& after.spec_flow() matches Some(g) && g.features == f.features && g.kind == f.kind
                            && g.pending == f.pending && g.status@ == StatusView::Completing
                        &&& f.kind == Kind::SignIn ==> (r.0 matches Effect::CompleteSignIn { pending, callback }
                            && pending_view(pending) == pending_view(f.pending) && callback == cb)
                        &&& f.kind == Kind::AddCorporation ==> (r.0 matches Effect::AddCorporation { pending, callback }
                            && pending_view(pending) == pending_view(f.pending) && callback == cb)
                    },
                },
            }
        },
        Message::Cancel => after.spec_flow() is None && r.0 is Nothing && r.1 is None,
        Message::Completed(Ok(signed)) => after.spec_flow() is None && r.0 is Nothing
            && (r.1 matches Some(Event::SignedIn(s)) && s == signed),
        Message::CorporationCompleted(Ok(added)) => after.spec_flow() is None && r.0 is Nothing
            && (r.1 matches Some(Event::CorporationAdded(a)) && a == added),
        Message::Completed(Err(error)) | Message::CorporationCompleted(Err(error)) => {
            &&& r.0 is Nothing && r.1 is None
            &&& match before.spec_flow() {
                Some(f) => after.spec_flow() matches Some(g) && g.features == f.features && g.kind == f.kind
                    && g.pending == f.pending && g.status@ == StatusView::Failed(error@),
                None => after.spec_flow() is None,
            }
        },
    }
}

/// The code exchange runs under the authorization the flow was handed: after the app hands
/// back an authorization for a running flow, a callback asks for the exchange with that same
/// authorization, for a sign-in or a corporation alike.
pub proof fn lemma_exchange_uses_the_authorization(
    a: State,
    pending: PendingAuth,
    b: State,
    r1: (Effect, Option<Event>),
    callback: Callback,
    c: State,
    r2: (Effect, Option<Event>),
)
    requires
        a.spec_flow() is Some,
        stepped(a, Message::Authorized(pending), b, r1),
        stepped(b, Message::CallbackReceived(Some(callback)), c, r2),
    ensures
        match r2.0 {
            Effect::CompleteSignIn { pending: p, callback: cb } => pending_view(p) == Some(pending@) && cb == callback,
            Effect::AddCorporation { pending: p, callback: cb } => pending_view(p) == Some(pending@) && cb == callback,
            _ => false,
        },
        c.spec_flow() matches Some(g) && g.pending == Some(pending),
{
}

/// The panel's next state and the outside work a message asks for.
///
/// A start replaces any flow with a waiting one of its kind, and asks to authorize the scopes
/// its features derive; the authorization handed back is kept in the running flow and its page
/// opened; a callback moves the running flow to completing and asks for the exchange its kind
/// needs, under the flow's authorization, or fails it when the callback lacked its code or
/// state; a finished
/// exchange clears the flow and reports the character or corporation; a failure of any step
/// marks the running flow failed; a cancel clears it. Messages that reach an idle panel, other
/// than a start, change nothing.
pub fn update(state: &mut State, message: Message) -> (r: (Effect, Option<Event>))
    ensures
        stepped(*old(state), message, *final(state), r),
{
    match message {
        Message::Start(features) => {
            let scopes = scopes_for(&features);
            state.flow = Some(Flow { features, kind: Kind::SignIn, pending: None, status: Status::Waiting });
            (Effect::Authorize { kind: Kind::SignIn, scopes }, None)
        },
        Message::StartAddCorporation(features) => {
            let scopes = corp_scopes_for(&features);
            state.flow = Some(Flow { features, kind: Kind::AddCorporation, pending: None, status: Status::Waiting });
            (Effect::Authorize { kind: Kind::AddCorporation, scopes }, None)
        },
        Message::Authorized(pending) => {
            match &mut state.flow {
                None => (Effect::Nothing, None),
                Some(flow) => {
                    let url = pending.url.clone();
                    flow.pending = Some(pending);
                    (Effect::OpenBrowser(url), None)
                },
            }
        },
        Message::BrowserOpened(Ok(())) => (Effect::Nothing, None),
        Message::BrowserOpened(Err(error)) => {
            let text = browser_failure_text(error.as_str());
            state.fail_active_flow(text);
            (Effect::Nothing, None)
        },
        Message::CallbackReceived(callback) => {
            match &mut state.flow {
                None => (Effect::Nothing, None),
                Some(flow) => match callback {
                    None => {
                        flow.status = Status::Failed(MALFORMED_CALLBACK.to_owned());
                        (Effect::Nothing, None)
                    },
                    Some(cb) => {
                        flow.status = Status::Completing;
                        let pending = copy_pending(&flow.pending);
                        match flow.kind {
                            Kind::AddCorporation => (Effect::AddCorporation { pending, callback: cb }, None),
                            Kind::SignIn => (Effect::CompleteSignIn { pending, callback: cb }, None),
                        }
                    },
                },
            }
        },
        Message::Cancel => {
            state.flow = None;
            (Effect::Nothing, None)
        },
        Message::Completed(Ok(signed)) => {
            state.flow = None;
            (Effect::Nothing, Some(Event::SignedIn(signed)))
        },
        Message::Completed(Err(error)) => {
            state.fail_active_flow(error);
            (Effect::Nothing, None)
        },
        Message::CorporationCompleted(Ok(added)) => {
            state.flow = None;
            (Effect::Nothing, Some(Event::CorporationAdded(added)))
        },
        Message::CorporationCompleted(Err(error)) => {
            state.fail_active_flow(error);
            (Effect::Nothing, None)
        },
    }
}

} // verus!
