//! Messages of the live-update protocol: the control frames a viewer
//! sends, and the frames the connection actor queues for the wire.

use vstd::prelude::*;

use crate::listing::{Listing, ListingView};

verus! {

/// A logical subscription topic.  A closed enumeration: adding a topic
/// adds a variant, not a protocol redesign.
#[derive(Clone, Copy, PartialEq, Eq, Structural, Debug)]
pub enum Channel {
    Listings,
}

/// A control frame from the viewer, already decoded.
#[derive(Clone, Copy, PartialEq, Eq, Structural, Debug)]
pub enum InboundMsg {
    Subscribe { channel: Channel },
    Unsubscribe { channel: Channel },
}

/// A frame queued for the viewer.  The queue is drained strictly in
/// order, one wire frame per message.
#[derive(Clone, PartialEq, Eq, Debug)]
pub enum OutboundMsg {
    /// Acknowledges a subscribe, idempotently.
    Subscribed { channel: Channel },
    /// Acknowledges an unsubscribe, idempotently.
    Unsubscribed { channel: Channel },
    /// One broadcast batch forwarded to this viewer.
    Listings { listings: Vec<Listing> },
    /// Report of a malformed inbound frame; the connection stays open.
    /// Carried on the wire with the `err` discriminator.
    Error { message: Vec<u8> },
}

/// Mathematical image of an [`OutboundMsg`].
pub enum OutboundMsgView {
    Subscribed { channel: Channel },
    Unsubscribed { channel: Channel },
    Listings { listings: Seq<ListingView> },
    Error { message: Seq<u8> },
}

impl View for OutboundMsg {
    type V = OutboundMsgView;

    open spec fn view(&self) -> OutboundMsgView {
        match self {
            OutboundMsg::Subscribed { channel } => OutboundMsgView::Subscribed { channel: *channel },
            OutboundMsg::Unsubscribed { channel } => OutboundMsgView::Unsubscribed {
                channel: *channel,
            },
            OutboundMsg::Listings { listings } => OutboundMsgView::Listings {
                listings: listings.deep_view(),
            },
            OutboundMsg::Error { message } => OutboundMsgView::Error { message: message@ },
        }
    }
}

impl DeepView for OutboundMsg {
    type V = OutboundMsgView;

    open spec fn deep_view(&self) -> OutboundMsgView {
        self@
    }
}

} // verus!
