//! The context: how one is negotiated and created, how it becomes the
//! calling thread's current context and ceases to be, and how its handle is
//! given up.

use crate::attribs::{attribute_list, build_attributes};
use crate::buffer::OsMesaBuffer;
use crate::config::{ContextBuilderWrapper, GlProfile, Robustness, Version};
use crate::error::{Abort, Error, ErrorView, OsError};
use crate::native::{bind_args, clear_args, to_c_int, MakeCurrentArgs, GL_UNSIGNED_BYTE, NO_CONTEXT};
use vstd::prelude::*;

verus! {

/// An OpenGL context of the rasterizer, known by its handle's address. The
/// handle is not null from creation until `release` has given it up, and
/// null from then on.
#[derive(Debug)]
pub struct OsMesaContext {
    context: usize,
}

/// What follows from a request for a new context.
#[derive(Debug, PartialEq, Eq)]
pub enum Negotiation {
    /// Ask the rasterizer for a context with this attribute list, and with
    /// no context to share with.
    Create(Vec<i32>),
    /// Hand this error back.
    Fail(Error),
    /// Stop.
    Abort(Abort),
}

/// A `Negotiation` over sequences.
pub enum NegotiationView {
    Create(Seq<i32>),
    Fail(ErrorView),
    Abort(Abort),
}

impl View for Negotiation {
    type V = NegotiationView;

    open spec fn view(&self) -> NegotiationView {
        match *self {
            Negotiation::Create(attribs) => NegotiationView::Create(attribs@),
            Negotiation::Fail(error) => NegotiationView::Fail(error@),
            Negotiation::Abort(abort) => NegotiationView::Abort(abort),
        }
    }
}

/// The loader's diagnostic, where loading the rasterizer's library failed.
pub open spec fn load_failure(loaded: Result<(), String>) -> Option<Seq<char>> {
    match loaded {
        Ok(_) => None,
        Err(diagnostic) => Some(diagnostic@),
    }
}

/// The rules of negotiation, in their order. A library that did not load
/// ends everything, before any preference is looked at. A context to share
/// with is an abort. A robustness policy that demands a guarantee is an
/// error. Otherwise the rasterizer is asked, with the list for the profile
/// and the version.
pub open spec fn negotiation(
    load_failure: Option<Seq<char>>,
    sharing: bool,
    robustness: Robustness,
    profile: Option<GlProfile>,
    version: Version,
) -> NegotiationView {
    if let Some(diagnostic) = load_failure {
        NegotiationView::Fail(ErrorView::OsMesaLoadingError(diagnostic))
    } else if sharing {
        NegotiationView::Abort(Abort::SharingNotPossible)
    } else if robustness.demands_guarantee() {
        NegotiationView::Fail(ErrorView::RobustnessNotSupported)
    } else {
        NegotiationView::Create(attribute_list(profile, version))
    }
}

/// The text of the error for a null handle from the rasterizer.
pub open spec fn creation_failed_text() -> Seq<char> {
    "OSMesaCreateContextAttribs failed"@
}

impl OsMesaContext {
    /// The handle's address; zero once the handle has been given up.
    pub closed spec fn handle(&self) -> usize {
        self.context
    }

    /// Whether the context still owns its handle.
    pub open spec fn is_live(&self) -> bool {
        self.handle() != 0
    }

    /// Decides what a request for a new context leads to. `loaded` is the
    /// outcome of loading the rasterizer's library, which the caller
    /// attempts before anything else.
    pub fn negotiate(
        cb: &ContextBuilderWrapper<&OsMesaContext>,
        version: Version,
        loaded: Result<(), String>,
    ) -> (plan: Negotiation)
        ensures
            plan@ == negotiation(
                load_failure(loaded),
                cb.sharing is Some,
                cb.robustness,
                cb.profile,
                version,
            ),
            cb.sharing is Some ==> !(plan is Create),
            cb.sharing is Some && loaded is Ok ==> plan == Negotiation::Abort(
                Abort::SharingNotPossible,
            ),
            cb.robustness.demands_guarantee() ==> !(plan is Create),
            cb.robustness.demands_guarantee() && loaded is Ok && cb.sharing is None ==> plan
                == Negotiation::Fail(Error::RobustnessNotSupported),
    {
        if let Err(diagnostic) = loaded {
            return Negotiation::Fail(Error::OsError(OsError::OsMesaLoadingError(diagnostic)));
        }
        if cb.sharing.is_some() {
            return Negotiation::Abort(Abort::SharingNotPossible);
        }
        match cb.robustness {
            Robustness::RobustNoResetNotification | Robustness::RobustLoseContextOnReset => {
                return Negotiation::Fail(Error::RobustnessNotSupported);
            },
            _ => (),
        }
        Negotiation::Create(build_attributes(cb.profile, version))
    }

    /// Takes over the handle that the rasterizer answered a creation
    /// request with. A null handle says that creation failed, which is an
    /// error to hand back; any other handle is owned from here on.
    pub fn new(handle: usize) -> (created: Result<OsMesaContext, Error>)
        ensures
            match created {
                Ok(context) => handle != 0 && context.handle() == handle,
                Err(error) => handle == 0 && error@ == ErrorView::Misc(creation_failed_text()),
            },
    {
        if handle == 0 {
            return Err(Error::OsError(OsError::Misc("OSMesaCreateContextAttribs failed".to_owned())));
        }
        Ok(OsMesaContext { context: handle })
    }

    /// Whether the context is the current one of a thread whose current
    /// context has the handle `current`. A context that has given up its
    /// handle is current nowhere.
    pub open spec fn is_current_on(&self, current: usize) -> bool {
        self.is_live() && current == self.handle()
    }

    /// What unbinding asks of the rasterizer on a thread whose current
    /// context has the handle `current`: to clear it where it is this
    /// context, and nothing where it is not.
    pub open spec fn unbind_call(&self, current: usize) -> Option<MakeCurrentArgs> {
        if self.is_current_on(current) {
            Some(clear_args())
        } else {
            None
        }
    }

    /// The call that binds the context to `buffer` and makes it the calling
    /// thread's current context: the context's handle, the buffer's
    /// storage, the RGBA format of unsigned bytes, and the buffer's
    /// dimensions. `MakeCurrentArgs::outcome` reads the answer. The buffer
    /// has to stay alive for as long as the context is bound to it, and no
    /// other use of the thread's current context may run beside the call:
    /// both are left to the caller.
    pub fn make_current(&self, buffer: &OsMesaBuffer) -> (call: MakeCurrentArgs)
        requires
            self.is_live(),
        ensures
            call == bind_args(self.handle(), buffer@.width, buffer@.height),
    {
        MakeCurrentArgs {
            context: self.context,
            buffer: Some(buffer.storage().len()),
            format: GL_UNSIGNED_BYTE,
            width: to_c_int(buffer.width()),
            height: to_c_int(buffer.height()),
        }
    }

    /// The call, if any, that makes the context cease to be the calling
    /// thread's current one. `current` is the handle that the rasterizer
    /// reports as current on the calling thread, zero for none. Where that
    /// is another context or none, nothing is asked of the rasterizer, so
    /// that no answer can be a failure.
    pub fn make_not_current(&self, current: usize) -> (call: Option<MakeCurrentArgs>)
        ensures
            call == self.unbind_call(current),
            !self.is_current_on(current) ==> call is None,
    {
        if self.is_current(current) {
            Some(
                MakeCurrentArgs {
                    context: NO_CONTEXT,
                    buffer: None,
                    format: 0,
                    width: 0,
                    height: 0,
                },
            )
        } else {
            None
        }
    }

    /// Whether the context is the calling thread's current one. `current`
    /// is the handle that the rasterizer reports as current there, zero for
    /// none.
    pub fn is_current(&self, current: usize) -> (current_here: bool)
        ensures
            current_here == self.is_current_on(current),
    {
        self.context != 0 && current == self.context
    }

    /// The handle's address, for those who talk to the rasterizer
    /// themselves. It names the context as long as the context is live.
    pub fn raw_handle(&self) -> (handle: usize)
        ensures
            handle == self.handle(),
    {
        self.context
    }

    /// Decides whether the rasterizer may be asked for the address of a
    /// function. `current` is `None` where the caller does not validate, as
    /// in optimized builds; otherwise it holds the handle that the
    /// rasterizer reports as current on the calling thread, and asking is
    /// an error unless the context is current there.
    pub fn get_proc_address(&self, current: Option<usize>) -> (allowed: Result<(), Error>)
        ensures
            match allowed {
                Ok(_) => current matches Some(handle) ==> self.is_current_on(handle),
                Err(error) => {
                    &&& current matches Some(handle) && !self.is_current_on(handle)
                    &&& error@ == ErrorView::BadApiUsage(not_current_text())
                },
            },
    {
        if let Some(handle) = current {
            if !self.is_current(handle) {
                return Err(
                    Error::BadApiUsage(
                        "`get_proc_address` called on context that is not current.".to_owned(),
                    ),
                );
            }
        }
        Ok(())
    }

    /// Gives up the handle, for the caller to destroy the rasterizer's
    /// context with. The handle is handed out the first time and never
    /// again.
    pub fn release(&mut self) -> (handle: Option<usize>)
        ensures
            released(*old(self), *final(self), handle),
    {
        if self.context == 0 {
            None
        } else {
            let handle: usize = self.context;
            self.context = 0;
            Some(handle)
        }
    }
}

/// The text of the error for asking for a function's address through a
/// context that is not current.
pub open spec fn not_current_text() -> Seq<char> {
    "`get_proc_address` called on context that is not current."@
}

/// What `release` does: it takes `before` to `after`, which owns no handle,
/// and hands out the handle that `before` owned, if it owned one.
pub open spec fn released(
    before: OsMesaContext,
    after: OsMesaContext,
    handle: Option<usize>,
) -> bool {
    &&& !after.is_live()
    &&& handle == if before.is_live() {
        Some(before.handle())
    } else {
        None::<usize>
    }
}

/// Once the rasterizer has accepted the call that binds a live context to a
/// buffer, the context is the thread's current one. Unbinding then asks
/// the rasterizer to clear the current context, and once that is accepted
/// the context is current no more.
pub proof fn lemma_current_from_bind_to_unbind(context: OsMesaContext, width: u32, height: u32)
    requires
        context.is_live(),
    ensures
        ({
            let bound = bind_args(context.handle(), width, height).current_after_success();
            &&& context.is_current_on(bound)
            &&& context.unbind_call(bound) == Some(clear_args())
            &&& !context.is_current_on(clear_args().current_after_success())
        }),
{
}

/// Whatever was current before, the context is not current once unbinding
/// is through: either there was nothing to do, or the rasterizer has
/// accepted the call that clears.
pub proof fn lemma_not_current_after_unbind(context: OsMesaContext, current: usize)
    ensures
        match context.unbind_call(current) {
            Some(call) => !context.is_current_on(call.current_after_success()),
            None => !context.is_current_on(current),
        },
{
}

/// A thread has at most one current context: of two contexts with different
/// handles, no more than one is current there, and once the rasterizer has
/// accepted the call that binds one of them, the other is not.
pub proof fn lemma_one_current_context(
    context: OsMesaContext,
    other: OsMesaContext,
    current: usize,
    width: u32,
    height: u32,
)
    requires
        context.handle() != other.handle(),
    ensures
        !(context.is_current_on(current) && other.is_current_on(current)),
        !other.is_current_on(
            bind_args(context.handle(), width, height).current_after_success(),
        ),
{
}

/// A handle is handed out for destruction at most once: of two releases of
/// one context, the second hands out nothing, and the first hands out the
/// handle exactly if the context was live.
pub proof fn lemma_release_hands_out_once(
    live: OsMesaContext,
    once: OsMesaContext,
    twice: OsMesaContext,
    first: Option<usize>,
    second: Option<usize>,
)
    requires
        released(live, once, first),
        released(once, twice, second),
    ensures
        second is None,
        live.is_live() ==> first == Some(live.handle()),
        !live.is_live() ==> first is None,
{
}

} // verus!
