//! The bridge server's decisions: what each request does to the shared state and what is
//! answered. Reading a request from the wire and writing the answer to it are the caller's.

use crate::convert::decodes_to;
use crate::convert::refusal;
use crate::convert::shown_items;
use crate::convert::shows_listing;
use crate::decode::decode_component;
use crate::decode::decoded_or_empty;
use crate::decode::percent_decoding;
use crate::escape::json_string;
use crate::escape::quote_json;
use crate::queue::pointed_at;
use crate::queue::polled;
use crate::queue::published;
use crate::queue::without_id;
use crate::queue::FillCommandState;
use crate::route::CommandRoute;
use crate::route::PlainRoute;
use crate::route::Route;
use crate::route::SnapshotRoute;
use crate::route::VaultRoute;
use crate::snapshot::FormSnapshotState;
use crate::store::VaultStore;
use crate::timestamp::Timestamp;
use crate::vault::VaultError;
use crate::vault::VaultItem;
use crate::wire::FillCommandJson;
use crate::wire::FormSnapshotJson;
use crate::wire::VaultItemJson;
use vstd::prelude::*;
use vstd::string::*;

verus! {

/// The status of an answer to a preflight request.
pub const STATUS_NO_CONTENT: u16 = 204;

/// The status of an answer to a request that was carried out.
pub const STATUS_OK: u16 = 200;

/// The status of an answer to a request whose body could not be used.
pub const STATUS_BAD_REQUEST: u16 = 400;

/// The status of an answer to a request that no route matches.
pub const STATUS_NOT_FOUND: u16 = 404;

/// The status of an answer to a request that could not reach the shared state.
pub const STATUS_UNAVAILABLE: u16 = 500;

/// What the caller made of a request's body.
#[derive(Debug)]
pub enum Body {
    /// No body was read.
    Absent,
    /// The body could not be read.
    Unreadable,
    /// The body could not be decoded; the decoder's message says why.
    Malformed(String),
    /// The body held a form snapshot.
    Snapshot(FormSnapshotJson),
    /// The body held a vault item.
    VaultItem(VaultItemJson),
    /// The body held a fill command.
    FillCommand(FillCommandJson),
}

/// What an answer carries.
#[derive(Debug)]
pub enum Content<'a> {
    /// Nothing.
    Empty,
    /// Plain text.
    Text(String),
    /// The object that says that the request was carried out.
    StatusOk,
    /// The object that holds an error message.
    Error(String),
    /// The latest snapshot, `null` where there is none.
    Snapshot(Option<&'a FormSnapshotJson>),
    /// An array of vault items.
    VaultItems(Vec<VaultItemJson>),
    /// An array of fill commands.
    Commands(Vec<&'a FillCommandJson>),
}

/// An answer: its status and what it carries.
#[derive(Debug)]
pub struct Reply<'a> {
    pub status: u16,
    pub content: Content<'a>,
}

/// Whether an answer's content is JSON, and is announced as such.
pub open spec fn is_json(content: Content) -> bool {
    !(content is Empty || content is Text)
}

/// The name and the value of a header, as character sequences.
pub open spec fn header_view(header: (String, String)) -> (Seq<char>, Seq<char>) {
    (header.0@, header.1@)
}

/// The headers that every answer carries, so that a page of any origin may read it.
pub open spec fn cors_headers() -> Seq<(Seq<char>, Seq<char>)> {
    seq![
        ("Access-Control-Allow-Origin"@, "*"@),
        ("Access-Control-Allow-Methods"@, "GET, POST, DELETE, OPTIONS"@),
        ("Access-Control-Allow-Headers"@, "Content-Type"@),
    ]
}

/// The headers of an answer: the content type where the content is JSON, then the headers
/// that every answer carries.
pub open spec fn headers_of(content: Content) -> Seq<(Seq<char>, Seq<char>)> {
    if is_json(content) {
        seq![("Content-Type"@, "application/json"@)] + cors_headers()
    } else {
        cors_headers()
    }
}

/// The text of the object that says that a request was carried out.
pub open spec fn ok_text() -> Seq<char> {
    "{\"status\":\"ok\"}"@
}

/// The text of the object that holds the error message `why`: a JSON object with the one
/// member `error`, whose value is the message as a JSON string.
pub open spec fn error_text(why: Seq<char>) -> Seq<char> {
    "{\"error\":"@ + json_string(why) + "}"@
}

/// The text of an answer whose content is text already or is made of fixed words; `None`
/// where the content has to be encoded.
pub open spec fn fixed_text(content: Content) -> Option<Seq<char>> {
    match content {
        Content::Empty => Some(Seq::empty()),
        Content::Text(t) => Some(t@),
        Content::StatusOk => Some(ok_text()),
        Content::Error(why) => Some(error_text(why@)),
        _ => None,
    }
}

impl<'a> Reply<'a> {
    /// Whether the answer's content is JSON.
    pub fn announces_json(&self) -> (r: bool)
        ensures
            r == is_json(self.content),
    {
        match &self.content {
            Content::Empty => false,
            Content::Text(_) => false,
            _ => true,
        }
    }

    /// The answer's headers, in the order in which they are sent.
    pub fn headers(&self) -> (r: Vec<(String, String)>)
        ensures
            r@.map_values(|h: (String, String)| header_view(h)) == headers_of(self.content),
    {
        let mut out: Vec<(String, String)> = Vec::new();
        if self.announces_json() {
            out.push((String::from_str("Content-Type"), String::from_str("application/json")));
        }
        out.push((String::from_str("Access-Control-Allow-Origin"), String::from_str("*")));
        out.push(
            (
                String::from_str("Access-Control-Allow-Methods"),
                String::from_str("GET, POST, DELETE, OPTIONS"),
            ),
        );
        out.push(
            (String::from_str("Access-Control-Allow-Headers"), String::from_str("Content-Type")),
        );
        assert(out@.map_values(|h: (String, String)| header_view(h)) =~= headers_of(
            self.content,
        ));
        out
    }

    /// The answer's text, where its content is text already or is made of fixed words.
    pub fn text(&self) -> (r: Option<String>)
        ensures
            match r {
                Some(t) => fixed_text(self.content) == Some(t@),
                None => fixed_text(self.content) is None,
            },
    {
        match &self.content {
            Content::Empty => Some(String::new()),
            Content::Text(t) => Some(t.clone()),
            Content::StatusOk => Some(String::from_str("{\"status\":\"ok\"}")),
            Content::Error(why) => {
                let quoted: String = quote_json(why.as_str());
                Some(String::from_str("{\"error\":").concat(quoted.as_str()).concat("}"))
            },
            _ => None,
        }
    }
}

/// What an answer looks like on the wire, where it is made of fixed words: its status,
/// whether its content is JSON, and its text.
pub struct Fixed {
    pub status: u16,
    pub json: bool,
    pub text: Seq<char>,
}

/// Whether `reply` is the answer that `fixed` describes.
pub open spec fn is_fixed(reply: Reply, fixed: Fixed) -> bool {
    reply.status == fixed.status && is_json(reply.content) == fixed.json && fixed_text(
        reply.content,
    ) == Some(fixed.text)
}

/// The answer that says that the request was carried out.
pub open spec fn accepted() -> Fixed {
    Fixed { status: STATUS_OK, json: true, text: ok_text() }
}

/// The answer that refuses a request with the message `why`.
pub open spec fn refused(why: Seq<char>) -> Fixed {
    Fixed { status: STATUS_BAD_REQUEST, json: true, text: error_text(why) }
}

/// The answer to a request that could not reach the shared state, with the message `why`.
pub open spec fn unavailable(why: Seq<char>) -> Fixed {
    Fixed { status: STATUS_UNAVAILABLE, json: true, text: error_text(why) }
}

/// The answer to a request whose body cannot be used: the decoder's message where the body
/// could not be decoded, two plain words where it could not be read or is not of the kind
/// that the route takes.
pub open spec fn rejection(body: Body) -> Fixed {
    match body {
        Body::Malformed(why) => refused(why@),
        _ => Fixed { status: STATUS_BAD_REQUEST, json: false, text: "Bad Request"@ },
    }
}

/// The answer to a request that touches no shared state.
pub open spec fn plain_answer(route: PlainRoute) -> Fixed {
    match route {
        PlainRoute::Preflight => Fixed {
            status: STATUS_NO_CONTENT,
            json: false,
            text: Seq::empty(),
        },
        PlainRoute::Health => Fixed { status: STATUS_OK, json: false, text: "OK"@ },
        PlainRoute::NotFound => Fixed { status: STATUS_NOT_FOUND, json: false, text: "Not Found"@ },
    }
}

/// The snapshot cache after a request to it.
pub open spec fn snapshot_after(
    held: Option<FormSnapshotJson>,
    route: SnapshotRoute,
    body: Body,
) -> Option<FormSnapshotJson> {
    match (route, body) {
        (SnapshotRoute::Post, Body::Snapshot(s)) => Some(s),
        _ => held,
    }
}

/// Whether `reply` answers a request to the snapshot cache that held `held`.
pub open spec fn snapshot_answer_fits(
    reply: Reply,
    held: Option<FormSnapshotJson>,
    route: SnapshotRoute,
    body: Body,
) -> bool {
    match route {
        SnapshotRoute::Get => {
            &&& reply.status == STATUS_OK
            &&& reply.content matches Content::Snapshot(s)
            &&& match s {
                Some(x) => held == Some(*x),
                None => held is None,
            }
        },
        SnapshotRoute::Post => match body {
            Body::Snapshot(_) => is_fixed(reply, accepted()),
            _ => is_fixed(reply, rejection(body)),
        },
    }
}

/// The text that stands for a component of an address: the component percent-decoded, and
/// the empty text where it cannot be decoded.
pub open spec fn component(raw: Seq<char>) -> Seq<char> {
    decoded_or_empty(percent_decoding(raw))
}

/// The domain that a poll asks for, decoded; `None` where the address names none.
pub open spec fn wanted_domain(domain: Option<String>) -> Option<Seq<char>> {
    match domain {
        Some(d) => Some(component(d@)),
        None => None,
    }
}

/// The command queue after a request to it.
pub open spec fn queue_after(queue: Seq<FillCommandJson>, route: CommandRoute, body: Body) -> Seq<
    FillCommandJson,
> {
    match (route, body) {
        (CommandRoute::Post, Body::FillCommand(c)) => published(queue, c),
        (CommandRoute::Ack { id }, _) => without_id(queue, component(id@)),
        _ => queue,
    }
}

/// Whether `reply` answers a poll of the queue `queue` for `domain` at the instant `now`: it
/// carries the commands that have not expired at `now`, in the order of the queue.
pub open spec fn poll_answer_fits(
    reply: Reply,
    queue: Seq<FillCommandJson>,
    domain: Option<String>,
    now: (i64, u32),
) -> bool {
    &&& reply.status == STATUS_OK
    &&& reply.content matches Content::Commands(found)
    &&& pointed_at(found@) == polled(queue, wanted_domain(domain), now)
}

/// Whether `reply` answers a request that changes the command queue: a publication or an
/// acknowledgement.
pub open spec fn change_answer_fits(reply: Reply, route: CommandRoute, body: Body) -> bool {
    match route {
        CommandRoute::Post => match body {
            Body::FillCommand(_) => is_fixed(reply, accepted()),
            _ => is_fixed(reply, rejection(body)),
        },
        _ => is_fixed(reply, accepted()),
    }
}

/// Whether `reply` answers a request to the command queue `queue` at the instant `now`,
/// which only a poll looks at.
pub open spec fn command_answer_fits(
    reply: Reply,
    queue: Seq<FillCommandJson>,
    route: CommandRoute,
    body: Body,
    now: (i64, u32),
) -> bool {
    match route {
        CommandRoute::Poll { domain } => poll_answer_fits(reply, queue, domain, now),
        _ => change_answer_fits(reply, route, body),
    }
}

/// Whether `reply` answers a request to the command queue `queue` that was carried out by
/// the clock: a poll at some instant outside any leap second, every other request as it is
/// answered at any time.
pub open spec fn command_answer_fits_some_time(
    reply: Reply,
    queue: Seq<FillCommandJson>,
    route: CommandRoute,
    body: Body,
) -> bool {
    match route {
        CommandRoute::Poll { domain } => exists|now: (i64, u32)|
            now.1 < 1_000_000_000 && #[trigger] poll_answer_fits(reply, queue, domain, now),
        _ => change_answer_fits(reply, route, body),
    }
}

/// Whether the vault went from `before` to `after` by a store of the item that `json`
/// describes.
pub open spec fn stored(
    before: Map<Seq<char>, VaultItem>,
    after: Map<Seq<char>, VaultItem>,
    json: VaultItemJson,
) -> bool {
    let key = json.key@;
    after.dom().contains(key) && decodes_to(json, after[key]) && after == before.insert(
        key,
        after[key],
    )
}

/// Whether `reply` hands the error of a backend on: status 400 and the error in words.
pub open spec fn reports(reply: Reply, e: VaultError) -> bool {
    is_fixed(reply, refused(e.prefix() + e.detail()))
}

/// Whether `reply` and the vault `after` are what a request makes of the vault `before`.
///
/// A listing shows the vault; where the backend fails, it is empty instead. An item that
/// cannot be decoded is refused with its first fault. An item that the backend refuses, as
/// it does one with an empty key, is answered with the backend's error, and the vault stays
/// as it was; an item that the backend takes is answered as carried out. A delete is
/// answered as carried out whether or not the key held anything.
pub open spec fn vault_request_fits(
    reply: Reply,
    before: Map<Seq<char>, VaultItem>,
    after: Map<Seq<char>, VaultItem>,
    dependable: bool,
    route: VaultRoute,
    body: Body,
) -> bool {
    match route {
        VaultRoute::List => {
            &&& after == before
            &&& reply.status == STATUS_OK
            &&& reply.content matches Content::VaultItems(shown)
            &&& shown@.len() == 0 || shows_listing(shown@, before)
            &&& dependable ==> shows_listing(shown@, before)
        },
        VaultRoute::Post => match body {
            Body::VaultItem(json) => match refusal(json) {
                Some(why) => after == before && is_fixed(reply, refused(why)),
                None => {
                    &&& reply.status == STATUS_OK || reply.status == STATUS_BAD_REQUEST
                    &&& reply.status == STATUS_OK ==> is_fixed(reply, accepted()) && stored(
                        before,
                        after,
                        json,
                    )
                    &&& reply.status == STATUS_BAD_REQUEST ==> after == before && exists|
                        e: VaultError,
                    | #[trigger]
                        reports(reply, e) && (json.key@.len() == 0 ==> e is InvalidKey)
                    &&& json.key@.len() == 0 ==> reply.status == STATUS_BAD_REQUEST
                    &&& dependable && json.key@.len() > 0 ==> reply.status == STATUS_OK
                },
            },
            _ => after == before && is_fixed(reply, rejection(body)),
        },
        VaultRoute::Delete { key } => {
            let k = component(key@);
            &&& is_fixed(reply, accepted())
            &&& after == before || after == before.remove(k)
            &&& dependable ==> after == before.remove(k)
        },
    }
}

/// The answer with a fixed text.
fn plain(status: u16, words: &str) -> (r: Reply<'static>)
    ensures
        is_fixed(r, Fixed { status, json: false, text: words@ }),
{
    Reply { status, content: Content::Text(words.to_owned()) }
}

/// The answer that says that the request was carried out.
fn carried_out() -> (r: Reply<'static>)
    ensures
        is_fixed(r, accepted()),
{
    Reply { status: STATUS_OK, content: Content::StatusOk }
}

/// The answer to a request whose body cannot be used.
fn rejected(body: Body) -> (r: Reply<'static>)
    ensures
        is_fixed(r, rejection(body)),
{
    match body {
        Body::Malformed(why) => Reply { status: STATUS_BAD_REQUEST, content: Content::Error(why) },
        _ => plain(STATUS_BAD_REQUEST, "Bad Request"),
    }
}

/// Answers a request that touches no shared state.
pub fn answer_plain(route: PlainRoute) -> (r: Reply<'static>)
    ensures
        is_fixed(r, plain_answer(route)),
{
    match route {
        PlainRoute::Preflight => Reply { status: STATUS_NO_CONTENT, content: Content::Empty },
        PlainRoute::Health => plain(STATUS_OK, "OK"),
        PlainRoute::NotFound => plain(STATUS_NOT_FOUND, "Not Found"),
    }
}

/// Answers a request that could not reach the shared state, as when a lock was poisoned:
/// an error status with the reason in words. The state is not touched.
pub fn answer_unavailable(why: &str) -> (r: Reply<'static>)
    ensures
        is_fixed(r, unavailable(why@)),
{
    Reply { status: STATUS_UNAVAILABLE, content: Content::Error(why.to_owned()) }
}

/// Carries out a request to the snapshot cache and says what to answer. A body that is no
/// snapshot counts as one that could not be read.
pub fn answer_snapshots<'a>(
    snapshots: &'a mut FormSnapshotState,
    route: SnapshotRoute,
    body: Body,
) -> (r: Reply<'a>)
    ensures
        final(snapshots).latest == snapshot_after(old(snapshots).latest, route, body),
        snapshot_answer_fits(r, old(snapshots).latest, route, body),
{
    match route {
        SnapshotRoute::Get => Reply {
            status: STATUS_OK,
            content: Content::Snapshot(snapshots.latest()),
        },
        SnapshotRoute::Post => match body {
            Body::Snapshot(s) => {
                snapshots.publish(s);
                carried_out()
            },
            other => rejected(other),
        },
    }
}

/// Carries out a request to the vault and says what to answer. A body that is no vault item
/// counts as one that could not be read; the key of a delete is percent-decoded.
pub fn answer_vault<S: VaultStore>(vault: &mut S, route: VaultRoute, body: Body) -> (r: Reply<
    'static,
>)
    ensures
        final(vault).dependable() == old(vault).dependable(),
        vault_request_fits(
            r,
            old(vault).contents(),
            final(vault).contents(),
            old(vault).dependable(),
            route,
            body,
        ),
{
    match route {
        VaultRoute::List => {
            let shown: Vec<VaultItemJson> = match vault.list() {
                Ok(items) => shown_items(items),
                Err(_) => Vec::new(),
            };
            Reply { status: STATUS_OK, content: Content::VaultItems(shown) }
        },
        VaultRoute::Post => match body {
            Body::VaultItem(json) => match VaultItem::try_from(json) {
                Ok(item) => {
                    let key: String = item.key.clone();
                    match vault.set(key, item) {
                        Ok(()) => carried_out(),
                        Err(e) => {
                            let r = Reply {
                                status: STATUS_BAD_REQUEST,
                                content: Content::Error(e.message()),
                            };
                            assert(reports(r, e));
                            r
                        },
                    }
                },
                Err(why) => Reply { status: STATUS_BAD_REQUEST, content: Content::Error(why) },
            },
            other => rejected(other),
        },
        VaultRoute::Delete { key } => {
            let k: String = decode_component(key.as_str());
            let ghost before = vault.contents();
            let _ = vault.delete(k.as_str());
            proof {
                if !before.dom().contains(k@) {
                    assert(before.remove(k@) =~= before);
                }
            }
            carried_out()
        },
    }
}

/// Publishes the command that a body holds and says what to answer.
fn answer_publication(commands: &mut FillCommandState, body: Body) -> (r: Reply<'static>)
    ensures
        final(commands).commands@ == queue_after(
            old(commands).commands@,
            CommandRoute::Post,
            body,
        ),
        change_answer_fits(r, CommandRoute::Post, body),
{
    match body {
        Body::FillCommand(c) => {
            commands.publish(c);
            carried_out()
        },
        other => rejected(other),
    }
}

/// Takes the command of an id out of the queue and says what to answer.
fn answer_acknowledgement(commands: &mut FillCommandState, id: String) -> (r: Reply<'static>)
    ensures
        final(commands).commands@ == without_id(old(commands).commands@, component(id@)),
        is_fixed(r, accepted()),
{
    let which: String = decode_component(id.as_str());
    commands.acknowledge(which.as_str());
    carried_out()
}

/// Answers a poll at the instant `now`.
fn answer_poll<'a>(commands: &'a FillCommandState, domain: Option<String>, now: Timestamp) -> (r:
    Reply<'a>)
    ensures
        poll_answer_fits(r, commands.commands@, domain, now.instant()),
{
    let wanted: Option<String> = match domain {
        Some(d) => Some(decode_component(d.as_str())),
        None => None,
    };
    let found: Vec<&'a FillCommandJson> = match &wanted {
        Some(d) => commands.poll(Some(d.as_str()), now),
        None => commands.poll(None, now),
    };
    Reply { status: STATUS_OK, content: Content::Commands(found) }
}

/// Carries out a request to the command queue and says what to answer. `now` is the instant
/// of the request, which only a poll looks at. A body that is no fill command counts as one
/// that could not be read; the domain of a poll and the id of an acknowledgement are
/// percent-decoded.
pub fn answer_commands<'a>(
    commands: &'a mut FillCommandState,
    route: CommandRoute,
    body: Body,
    now: Timestamp,
) -> (r: Reply<'a>)
    ensures
        final(commands).commands@ == queue_after(old(commands).commands@, route, body),
        command_answer_fits(r, old(commands).commands@, route, body, now.instant()),
{
    match route {
        CommandRoute::Post => answer_publication(commands, body),
        CommandRoute::Poll { domain } => answer_poll(commands, domain, now),
        CommandRoute::Ack { id } => answer_acknowledgement(commands, id),
    }
}

/// Carries out a request to the command queue at the current time and says what to answer.
/// The clock is read for a poll and for no other request.
pub fn answer_commands_now<'a>(
    commands: &'a mut FillCommandState,
    route: CommandRoute,
    body: Body,
) -> (r: Reply<'a>)
    ensures
        final(commands).commands@ == queue_after(old(commands).commands@, route, body),
        command_answer_fits_some_time(r, old(commands).commands@, route, body),
{
    match route {
        CommandRoute::Post => answer_publication(commands, body),
        CommandRoute::Poll { domain } => {
            let now: Timestamp = Timestamp::now();
            let r = answer_poll(commands, domain, now);
            assert(now.instant().1 < 1_000_000_000 && poll_answer_fits(
                r,
                old(commands).commands@,
                domain,
                now.instant(),
            ));
            r
        },
        CommandRoute::Ack { id } => answer_acknowledgement(commands, id),
    }
}

/// Whether the shared state went from before to after as the route asks, and `reply`
/// answers the request. Only the part of the state that the route names may change.
pub open spec fn request_fits(
    reply: Reply,
    held: Option<FormSnapshotJson>,
    held_after: Option<FormSnapshotJson>,
    vault: Map<Seq<char>, VaultItem>,
    vault_after: Map<Seq<char>, VaultItem>,
    dependable: bool,
    queue: Seq<FillCommandJson>,
    queue_then: Seq<FillCommandJson>,
    route: Route,
    body: Body,
) -> bool {
    &&& route is Snapshots || held_after == held
    &&& route is Vault || vault_after == vault
    &&& route is Commands || queue_then == queue
    &&& match route {
        Route::Plain(p) => is_fixed(reply, plain_answer(p)),
        Route::Snapshots(s) => held_after == snapshot_after(held, s, body) && snapshot_answer_fits(
            reply,
            held,
            s,
            body,
        ),
        Route::Vault(v) => vault_request_fits(reply, vault, vault_after, dependable, v, body),
        Route::Commands(c) => queue_then == queue_after(queue, c, body),
    }
}

/// Carries out a request and says what to answer, with all of the shared state at hand.
/// `now` is the instant of the request, which only a poll looks at. Only the part of the
/// state that the route names is touched.
pub fn respond<'a, S: VaultStore>(
    vault: &mut S,
    snapshots: &'a mut FormSnapshotState,
    commands: &'a mut FillCommandState,
    route: Route,
    body: Body,
    now: Timestamp,
) -> (r: Reply<'a>)
    ensures
        final(vault).dependable() == old(vault).dependable(),
        request_fits(
            r,
            old(snapshots).latest,
            final(snapshots).latest,
            old(vault).contents(),
            final(vault).contents(),
            old(vault).dependable(),
            old(commands).commands@,
            final(commands).commands@,
            route,
            body,
        ),
        route matches Route::Commands(c) ==> command_answer_fits(
            r,
            old(commands).commands@,
            c,
            body,
            now.instant(),
        ),
{
    match route {
        Route::Plain(p) => answer_plain(p),
        Route::Snapshots(s) => answer_snapshots(snapshots, s, body),
        Route::Vault(v) => answer_vault(vault, v, body),
        Route::Commands(c) => answer_commands(commands, c, body, now),
    }
}

/// Carries out a request at the current time and says what to answer, with all of the
/// shared state at hand. The clock is read for a poll and for no other request.
pub fn respond_now<'a, S: VaultStore>(
    vault: &mut S,
    snapshots: &'a mut FormSnapshotState,
    commands: &'a mut FillCommandState,
    route: Route,
    body: Body,
) -> (r: Reply<'a>)
    ensures
        final(vault).dependable() == old(vault).dependable(),
        request_fits(
            r,
            old(snapshots).latest,
            final(snapshots).latest,
            old(vault).contents(),
            final(vault).contents(),
            old(vault).dependable(),
            old(commands).commands@,
            final(commands).commands@,
            route,
            body,
        ),
        route matches Route::Commands(c) ==> command_answer_fits_some_time(
            r,
            old(commands).commands@,
            c,
            body,
        ),
{
    match route {
        Route::Plain(p) => answer_plain(p),
        Route::Snapshots(s) => answer_snapshots(snapshots, s, body),
        Route::Vault(v) => answer_vault(vault, v, body),
        Route::Commands(c) => answer_commands_now(commands, c, body),
    }
}

} // verus!
