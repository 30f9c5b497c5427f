//! The event router: every decoded delivery reaches exactly one of the
//! issue path, the comment path, or the ignored path. This is the whole of
//! one event's processing over the store model.

use vstd::prelude::*;
use crate::comment::{apply_comment_event, comment_calls, comment_store};
use crate::event::{Config, Event};
use crate::gateway::{calls_view, CallView, GatewayCall};
use crate::issue::{apply_issue_event, issue_calls, issue_store, RemoteIds};
use crate::store::MemStore;

verus! {

/// The gateway calls one delivery gives rise to.
pub open spec fn event_calls(cfg: Config, m: Map<Seq<char>, u64>, ev: Event, r: RemoteIds) -> Seq<
    CallView,
> {
    match ev {
        Event::Issue(ie) => issue_calls(cfg, m, ie, r),
        Event::Comment(ce) => comment_calls(m, ce),
        Event::Other => Seq::<CallView>::empty(),
    }
}

/// The store after one delivery.
pub open spec fn event_store(cfg: Config, m: Map<Seq<char>, u64>, ev: Event, r: RemoteIds) -> Map<
    Seq<char>,
    u64,
> {
    match ev {
        Event::Issue(ie) => issue_store(cfg, m, ie, r),
        Event::Comment(ce) => comment_store(m, ce, r.message_id),
        Event::Other => m,
    }
}

/// Routes one delivery: issue events go through the label filter to the
/// issue dispatcher, comment events to the comment dispatcher, everything
/// else is dropped. For a comment event the mirror message's granted id
/// travels in `remote.message_id`.
pub fn route_event(cfg: &Config, store: &mut MemStore, ev: &Event, remote: RemoteIds) -> (calls:
    Vec<GatewayCall>)
    ensures
        calls_view(calls@) == event_calls(*cfg, old(store)@, *ev, remote),
        final(store)@ == event_store(*cfg, old(store)@, *ev, remote),
{
    match ev {
        Event::Issue(ie) => apply_issue_event(cfg, store, ie, remote),
        Event::Comment(ce) => apply_comment_event(store, ce, remote.message_id),
        Event::Other => {
            let calls: Vec<GatewayCall> = Vec::new();
            proof {
                assert(calls_view(calls@) =~= Seq::<CallView>::empty());
            }
            calls
        },
    }
}

} // verus!
