//! The event receiver that is registered with the client before the
//! framework it delegates to exists.

use vstd::prelude::*;
use crate::cell::SetOnce;
use crate::options::ApplicationId;

verus! {

/// Receives raw events on behalf of a framework that is constructed later.
///
/// The bridge is created empty and handed to the client under construction.
/// Once the framework is assembled it is bound to the bridge, and from then on
/// every raw event is delivered to it.
pub struct EventBridge {
    target: SetOnce,
}

impl View for EventBridge {
    type V = Option<ApplicationId>;

    closed spec fn view(&self) -> Option<ApplicationId> {
        match self.target@ {
            Some(id) => Some(ApplicationId(id)),
            None => None,
        }
    }
}

impl EventBridge {
    /// The framework a bridge delivers to once `id` is offered to a bridge
    /// that delivered to `before`: the first binding stays.
    pub open spec fn bound(before: Option<ApplicationId>, id: ApplicationId) -> Option<
        ApplicationId,
    > {
        match before {
            Some(kept) => Some(kept),
            None => Some(id),
        }
    }

    /// A bridge that is bound to no framework yet.
    pub fn create() -> (bridge: Self)
        ensures
            bridge@ is None,
    {
        EventBridge { target: SetOnce::create() }
    }

    /// Binds the bridge to the framework `id` unless it is bound already, and
    /// reports whether it did. A second binding changes nothing.
    pub fn bind(&mut self, id: ApplicationId) -> (newly_bound: bool)
        ensures
            newly_bound == (old(self)@ is None),
            final(self)@ == Self::bound(old(self)@, id),
    {
        self.target.set(id.0)
    }

    /// Decides where a raw event goes: to the bound framework, or nowhere
    /// (`None`) while no framework is bound. Receiving an event never binds
    /// the bridge, so no event is delivered before a framework is bound.
    pub fn raw_event(&self) -> (delivery: Option<ApplicationId>)
        ensures
            delivery == self@,
            self@ is None ==> delivery is None,
    {
        match self.target.get() {
            Some(id) => Some(ApplicationId(id)),
            None => None,
        }
    }
}

} // verus!
