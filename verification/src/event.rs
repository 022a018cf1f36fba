//! Events of the foreign runtime, and the monitors through which host
//! closures receive them.

use crate::flags::{category_of, to_category_mask, EventMask, NSUInteger};
use crate::handle::{action_on_release, ForeignHandle, HandleError, Ownership, RefAction, NIL};
use crate::string::{decode, try_decode};
use vstd::prelude::*;
use vstd::utf8::*;

verus! {

/// A wrapper over a foreign event, valid for the one callback invocation
/// that it was made for. It borrows the foreign object, and it borrows for
/// `'call` the UTF-8 bytes of the characters that the event carries, so it
/// cannot be kept beyond the call in which those bytes were read.
#[derive(Debug)]
pub struct Event<'call> {
    objc: ForeignHandle,
    characters: &'call [u8],
}

/// A host closure registered for one category of events, together with the
/// handle on the monitor object that the foreign runtime gave for it, once
/// it has given one.
pub struct EventMonitor<F> {
    objc: Option<ForeignHandle>,
    mask: NSUInteger,
    handler: F,
    seen: Ghost<Seq<usize>>,
}

/// What the foreign runtime is told for a closure's result: the address of
/// the event to go on with, or the null sentinel for none.
pub open spec fn reply_of(outcome: Option<Event<'_>>) -> usize {
    match outcome {
        Some(event) => event.handle().address(),
        None => NIL,
    }
}

/// Whether `reply` is what the foreign runtime is told for some result that
/// `handler` may give on `event`.
pub open spec fn answers<F: Fn(Event<'_>) -> Option<Event<'_>>>(
    handler: F,
    event: Event<'_>,
    reply: usize,
) -> bool {
    exists|outcome: Option<Event<'_>>| #[trigger]
        handler.ensures((event,), outcome) && reply == reply_of(outcome)
}

/// The addresses of a run of events, in order.
pub open spec fn addresses_of(events: Seq<Event<'_>>) -> Seq<usize> {
    events.map_values(|event: Event<'_>| event.handle().address())
}

/// Turns a closure's result into what the foreign runtime is told.
pub fn reply_for(outcome: Option<Event<'_>>) -> (reply: usize)
    ensures
        reply == reply_of(outcome),
        reply == NIL <==> outcome is None,
{
    match outcome {
        Some(event) => event.objc.as_ptr(),
        None => NIL,
    }
}

/// Calls `handler` once on `event` and turns its result into what the
/// foreign runtime is told.
pub fn trampoline<F>(handler: &F, event: Event<'_>) -> (reply: usize) where
    F: Fn(Event<'_>) -> Option<Event<'_>>,

    requires
        handler.requires((event,)),
    ensures
        answers(*handler, event, reply),
{
    let outcome = handler(event);
    reply_for(outcome)
}

impl<'call> Event<'call> {
    /// The handle on the foreign event.
    pub closed spec fn handle(&self) -> ForeignHandle {
        self.objc
    }

    /// The UTF-8 bytes of the characters that the event carries.
    pub closed spec fn characters_utf8(&self) -> Seq<u8> {
        self.characters@
    }

    /// Wraps the foreign event at `objc`, borrowing it. `characters` is what
    /// the event's character string holds, as read for this call.
    pub fn new(objc: usize, characters: &'call [u8]) -> (made: Result<Event<'call>, HandleError>)
        ensures
            made is Ok <==> objc != NIL,
            made matches Ok(event) ==> {
                &&& event.handle().address() == objc
                &&& event.handle().ownership() == Ownership::Borrow
                &&& event.characters_utf8() == characters@
            },
            made matches Err(e) ==> e == HandleError::InvalidPointer,
    {
        match ForeignHandle::borrow(objc) {
            Ok(objc) => Ok(Event { objc, characters }),
            Err(e) => Err(e),
        }
    }

    /// The handle on the foreign event.
    pub fn objc(&self) -> (objc: &ForeignHandle)
        ensures
            *objc == self.handle(),
    {
        &self.objc
    }

    /// The characters that the event carries, decoded anew at each call.
    /// The bytes must be valid UTF-8.
    pub fn characters(&self) -> (text: String)
        requires
            valid_utf8(self.characters_utf8()),
        ensures
            text@ == decode_utf8(self.characters_utf8()),
    {
        let text = decode(self.characters);
        text.to_owned()
    }

    /// The characters that the event carries, or nothing where the bytes are
    /// not valid UTF-8.
    pub fn try_characters(&self) -> (text: Option<String>)
        ensures
            text is Some <==> valid_utf8(self.characters_utf8()),
            text matches Some(s) ==> s@ == decode_utf8(self.characters_utf8()),
    {
        match try_decode(self.characters) {
            Some(text) => Some(text.to_owned()),
            None => None,
        }
    }

    /// Registers `handler` for the events of category `mask` that occur
    /// within the application. The registration is ready to receive events;
    /// the foreign runtime is to be given an adapter for it under
    /// [`EventMonitor::mask`], and the monitor object that the runtime gives
    /// back goes to [`EventMonitor::install`].
    pub fn local_monitor<F>(mask: EventMask, handler: F) -> (registered: EventMonitor<F>) where
        F: Fn(Event<'_>) -> Option<Event<'_>> + Send + Sync + 'static,

        ensures
            registered.handle() is None,
            registered.category() == category_of(mask),
            registered.handler() == handler,
            registered.delivered() == Seq::<usize>::empty(),
    {
        EventMonitor {
            objc: None,
            mask: to_category_mask(mask),
            handler,
            seen: Ghost(Seq::empty()),
        }
    }
}

impl<F> EventMonitor<F> where F: Fn(Event<'_>) -> Option<Event<'_>> {
    /// The handle on the foreign monitor object, if the runtime gave one.
    pub closed spec fn handle(&self) -> Option<ForeignHandle> {
        self.objc
    }

    /// The bit-mask of the category that the monitor was registered for.
    pub closed spec fn category(&self) -> NSUInteger {
        self.mask
    }

    /// The registered closure.
    pub closed spec fn handler(&self) -> F {
        self.handler
    }

    /// The addresses of the events on which the closure was called, in the
    /// order of the calls.
    pub closed spec fn delivered(&self) -> Seq<usize> {
        self.seen@
    }

    /// The handle on the foreign monitor object, if the runtime gave one.
    pub fn objc(&self) -> (objc: Option<&ForeignHandle>)
        ensures
            objc is Some <==> self.handle() is Some,
            objc matches Some(handle) ==> *handle == self.handle()->0,
    {
        self.objc.as_ref()
    }

    /// Records the monitor object that the foreign runtime gave when the
    /// adapter was installed. The registration owns it from now on: an
    /// increment is owed now and a decrement when the registration is
    /// cancelled. The result is the handle that was recorded before, if any,
    /// which the caller has to release. The null sentinel is refused and
    /// changes nothing.
    pub fn install(&mut self, monitor: usize) -> (done: Result<Option<ForeignHandle>, HandleError>)
        ensures
            done is Ok <==> monitor != NIL,
            done matches Ok(previous) ==> {
                &&& previous == old(self).handle()
                &&& final(self).handle() matches Some(handle)
                &&& handle.address() == monitor
                &&& handle.ownership() == Ownership::Retain
            },
            done matches Err(e) ==> e == HandleError::InvalidPointer && final(self).handle() == old(
                self,
            ).handle(),
            final(self).delivered() == old(self).delivered(),
            final(self).handler() == old(self).handler(),
            final(self).category() == old(self).category(),
    {
        match ForeignHandle::from_owned_retain(monitor) {
            Ok(objc) => {
                let previous = self.objc.take();
                self.objc = Some(objc);
                Ok(previous)
            },
            Err(e) => Err(e),
        }
    }

    /// The bit-mask of the category that the monitor was registered for.
    pub fn mask(&self) -> (mask: NSUInteger)
        ensures
            mask == self.category(),
    {
        self.mask
    }

    /// Hands one event of the foreign runtime to the closure, which is
    /// called exactly once, and returns what the runtime is told.
    pub fn deliver(&mut self, event: Event<'_>) -> (reply: usize)
        requires
            old(self).handler().requires((event,)),
        ensures
            answers(old(self).handler(), event, reply),
            final(self).delivered() == old(self).delivered().push(event.handle().address()),
            final(self).handler() == old(self).handler(),
            final(self).handle() == old(self).handle(),
            final(self).category() == old(self).category(),
    {
        let ghost address = event.handle().address();
        let reply = trampoline(&self.handler, event);
        proof {
            self.seen@ = self.seen@.push(address);
        }
        reply
    }

    /// Hands a run of events to the closure, first to last. The closure is
    /// called exactly once for each, and the replies come in the same order.
    pub fn deliver_all(&mut self, events: Vec<Event<'_>>) -> (replies: Vec<usize>)
        requires
            forall|i: int|
                0 <= i < events.len() ==> old(self).handler().requires((#[trigger] events[i],)),
        ensures
            replies.len() == events.len(),
            forall|i: int|
                0 <= i < events.len() ==> #[trigger] answers(
                    old(self).handler(),
                    events[i],
                    replies[i],
                ),
            final(self).delivered() == old(self).delivered() + addresses_of(events@),
            final(self).handler() == old(self).handler(),
            final(self).handle() == old(self).handle(),
            final(self).category() == old(self).category(),
    {
        let ghost all = events@;
        let ghost before = self.delivered();
        let ghost handler = self.handler();
        let ghost handle = self.handle();
        let ghost category = self.category();
        let mut pending = events;
        let mut replies: Vec<usize> = Vec::new();
        while pending.len() > 0
            invariant
                replies.len() + pending.len() == all.len(),
                pending@ == all.skip(replies.len() as int),
                forall|i: int| 0 <= i < all.len() ==> handler.requires((#[trigger] all[i],)),
                forall|i: int|
                    0 <= i < replies.len() ==> #[trigger] answers(handler, all[i], replies[i]),
                self.delivered() == before + addresses_of(all.take(replies.len() as int)),
                self.handler() == handler,
                self.handle() == handle,
                self.category() == category,
            decreases pending.len(),
        {
            let ghost done = replies.len() as int;
            let event = pending.remove(0);
            assert(event == all[done]);
            let reply = self.deliver(event);
            replies.push(reply);
            proof {
                assert(pending@ =~= all.skip(done + 1));
                assert(addresses_of(all.take(done + 1)) =~= addresses_of(all.take(done)).push(
                    all[done].handle().address(),
                ));
                assert(self.delivered() =~= before + addresses_of(all.take(done + 1)));
            }
        }
        proof {
            assert(all.take(replies.len() as int) =~= all);
        }
        replies
    }

    /// Cancels the registration. The result is the address of the monitor
    /// that the foreign runtime must remove and the operation owed to it, or
    /// nothing where the runtime never gave a monitor. The closure is dropped
    /// with the registration, so it is never called again.
    pub fn unregister(self) -> (due: Option<(usize, RefAction)>)
        ensures
            due is Some <==> self.handle() is Some,
            due matches Some(removal) ==> {
                &&& removal.0 == self.handle()->0.address()
                &&& removal.0 != NIL
                &&& removal.1 == action_on_release(self.handle()->0.ownership())
            },
    {
        match self.objc {
            Some(objc) => Some(objc.release()),
            None => None,
        }
    }
}

} // verus!
