//! The routes of the bridge: which operation a request's method and address ask for.

use crate::text::chars_of;
use crate::text::find_in;
use crate::text::first_occurrence;
use crate::text::same_text;
use crate::text::starts_with;
use crate::text::text_after;
use vstd::prelude::*;
use vstd::string::*;

verus! {

/// A request that touches no shared state.
#[derive(Debug)]
pub enum PlainRoute {
    /// A preflight request, whatever its address.
    Preflight,
    /// The liveness check.
    Health,
    /// No route matches.
    NotFound,
}

/// A request to the form snapshot cache.
#[derive(Debug)]
pub enum SnapshotRoute {
    /// Read the latest form snapshot.
    Get,
    /// Publish a form snapshot.
    Post,
}

/// A request to the vault. The key stands as it does in the address, still percent-encoded.
#[derive(Debug)]
pub enum VaultRoute {
    /// List the vault.
    List,
    /// Store a vault item.
    Post,
    /// Delete the vault item of a key.
    Delete { key: String },
}

/// A request to the fill command queue. The domain and the id stand as they do in the
/// address, still percent-encoded.
#[derive(Debug)]
pub enum CommandRoute {
    /// Publish a fill command.
    Post,
    /// Poll the fill commands, for one domain where one is named.
    Poll { domain: Option<String> },
    /// Acknowledge the fill command of an id.
    Ack { id: String },
}

/// The operation that a request asks for, by the part of the shared state that it touches.
#[derive(Debug)]
pub enum Route {
    Plain(PlainRoute),
    Snapshots(SnapshotRoute),
    Vault(VaultRoute),
    Commands(CommandRoute),
}

/// A route with its texts as character sequences.
pub enum RouteShape {
    Preflight,
    Health,
    GetSnapshot,
    PostSnapshot,
    ListVault,
    PostVault,
    DeleteVault { key: Seq<char> },
    PostFillCommand,
    PollFillCommands { domain: Option<Seq<char>> },
    AckFillCommand { id: Seq<char> },
    NotFound,
}

impl View for Route {
    type V = RouteShape;

    open spec fn view(&self) -> RouteShape {
        match self {
            Route::Plain(PlainRoute::Preflight) => RouteShape::Preflight,
            Route::Plain(PlainRoute::Health) => RouteShape::Health,
            Route::Plain(PlainRoute::NotFound) => RouteShape::NotFound,
            Route::Snapshots(SnapshotRoute::Get) => RouteShape::GetSnapshot,
            Route::Snapshots(SnapshotRoute::Post) => RouteShape::PostSnapshot,
            Route::Vault(VaultRoute::List) => RouteShape::ListVault,
            Route::Vault(VaultRoute::Post) => RouteShape::PostVault,
            Route::Vault(VaultRoute::Delete { key }) => RouteShape::DeleteVault { key: key@ },
            Route::Commands(CommandRoute::Post) => RouteShape::PostFillCommand,
            Route::Commands(CommandRoute::Poll { domain }) => RouteShape::PollFillCommands {
                domain: match domain {
                    Some(d) => Some(d@),
                    None => None,
                },
            },
            Route::Commands(CommandRoute::Ack { id }) => RouteShape::AckFillCommand { id: id@ },
        }
    }
}

/// The domain that the address of a poll names: what stands between the first `?domain=`
/// and the next one, or the end of the address; `None` where the address holds no
/// `?domain=`.
pub open spec fn domain_named(url: Seq<char>) -> Option<Seq<char>> {
    let mark = "?domain="@;
    match first_occurrence(url, mark) {
        None => None,
        Some(i) => {
            let rest = url.skip(i + mark.len());
            match first_occurrence(rest, mark) {
                None => Some(rest),
                Some(j) => Some(rest.take(j)),
            }
        },
    }
}

/// The route of a request, by its method and its address. The first line that matches
/// decides.
pub open spec fn route_of(method: Seq<char>, url: Seq<char>) -> RouteShape {
    if method == "OPTIONS"@ {
        RouteShape::Preflight
    } else if method == "GET"@ && url == "/health"@ {
        RouteShape::Health
    } else if method == "GET"@ && url == "/v1/form-snapshots"@ {
        RouteShape::GetSnapshot
    } else if method == "POST"@ && url == "/v1/form-snapshots"@ {
        RouteShape::PostSnapshot
    } else if method == "GET"@ && url == "/v1/vault"@ {
        RouteShape::ListVault
    } else if method == "POST"@ && url == "/v1/vault"@ {
        RouteShape::PostVault
    } else if method == "DELETE"@ && "/v1/vault?key="@.is_prefix_of(url) {
        RouteShape::DeleteVault { key: url.skip("/v1/vault?key="@.len() as int) }
    } else if method == "POST"@ && url == "/v1/fill-commands"@ {
        RouteShape::PostFillCommand
    } else if method == "GET"@ && "/v1/fill-commands"@.is_prefix_of(url) {
        RouteShape::PollFillCommands { domain: domain_named(url) }
    } else if method == "DELETE"@ && "/v1/fill-commands?id="@.is_prefix_of(url) {
        RouteShape::AckFillCommand { id: url.skip("/v1/fill-commands?id="@.len() as int) }
    } else {
        RouteShape::NotFound
    }
}

/// The domain that the address of a poll names.
pub fn domain_of(url: &str) -> (r: Option<String>)
    ensures
        match r {
            Some(d) => domain_named(url@) == Some(d@),
            None => domain_named(url@) is None,
        },
{
    let mark: Vec<char> = chars_of("?domain=");
    let whole: Vec<char> = chars_of(url);
    match find_in(&whole, &mark, 0) {
        None => None,
        Some(i) => {
            proof {
                crate::text::lemma_find_from_is_least(whole@, mark@, 0);
                assert(crate::text::occurs_at(whole@, mark@, i as int));
                assert(i + mark.len() <= whole.len());
            }
            let rest: String = text_after(url, i + mark.len());
            let rest_chars: Vec<char> = chars_of(rest.as_str());
            match find_in(&rest_chars, &mark, 0) {
                None => Some(rest),
                Some(j) => {
                    proof {
                        crate::text::lemma_find_from_is_least(rest_chars@, mark@, 0);
                        assert(crate::text::occurs_at(rest_chars@, mark@, j as int));
                    }
                    let piece: &str = rest.as_str().substring_char(0, j);
                    let r = piece.to_owned();
                    assert(r@ =~= rest@.take(j as int));
                    Some(r)
                },
            }
        },
    }
}

/// What is left of `url` behind `prefix`.
fn behind(url: &str, prefix: &str) -> (r: String)
    requires
        prefix@.is_prefix_of(url@),
    ensures
        r@ == url@.skip(prefix@.len() as int),
{
    text_after(url, prefix.unicode_len())
}

/// The route of a request, by its method and its address.
pub fn route(method: &str, url: &str) -> (r: Route)
    ensures
        r@ == route_of(method@, url@),
{
    if same_text(method, "OPTIONS") {
        return Route::Plain(PlainRoute::Preflight);
    }
    let get: bool = same_text(method, "GET");
    let post: bool = same_text(method, "POST");
    let delete: bool = same_text(method, "DELETE");
    if get && same_text(url, "/health") {
        Route::Plain(PlainRoute::Health)
    } else if get && same_text(url, "/v1/form-snapshots") {
        Route::Snapshots(SnapshotRoute::Get)
    } else if post && same_text(url, "/v1/form-snapshots") {
        Route::Snapshots(SnapshotRoute::Post)
    } else if get && same_text(url, "/v1/vault") {
        Route::Vault(VaultRoute::List)
    } else if post && same_text(url, "/v1/vault") {
        Route::Vault(VaultRoute::Post)
    } else if delete && starts_with(url, "/v1/vault?key=") {
        Route::Vault(VaultRoute::Delete { key: behind(url, "/v1/vault?key=") })
    } else if post && same_text(url, "/v1/fill-commands") {
        Route::Commands(CommandRoute::Post)
    } else if get && starts_with(url, "/v1/fill-commands") {
        Route::Commands(CommandRoute::Poll { domain: domain_of(url) })
    } else if delete && starts_with(url, "/v1/fill-commands?id=") {
        Route::Commands(CommandRoute::Ack { id: behind(url, "/v1/fill-commands?id=") })
    } else {
        Route::Plain(PlainRoute::NotFound)
    }
}

} // verus!
