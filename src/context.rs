use parking_lot::RwLock;
use vstd::prelude::*;
use vstd::utf8::encode_utf8;

use crate::node::{c_string_of, to_c_string};

verus! {

/// Return code of the native runtime for a call that succeeded.
pub const RCL_RET_OK: i32 = 0;

/// Return code of native init for arguments that are not valid ROS arguments.
pub const RCL_RET_INVALID_ROS_ARGS: i32 = 1001;

/// Errors that initializing the runtime reports to its caller.
#[derive(Debug, PartialEq, Eq, Structural)]
pub enum RosInitError {
    InvalidROSArguments,
}

/// Where a native init options value stands in its lifecycle.
#[derive(Debug, Clone, Copy, PartialEq, Eq, Structural)]
pub enum OptionsPhase {
    Uninitialized,
    Initialized,
    Finalized,
}

/// Where a native context stands in its lifecycle.
#[derive(Debug, Clone, Copy, PartialEq, Eq, Structural)]
pub enum ContextPhase {
    ZeroInitialized,
    Live,
    ShutDown,
    Finalized,
}

/// A native context may be finalized when it was never initialized, or after
/// it was shut down; never while live, and never twice.
pub open spec fn finalizable(p: ContextPhase) -> bool {
    p == ContextPhase::ZeroInitialized || p == ContextPhase::ShutDown
}

/// The phase of a context after native init returned `ret` on it.
pub open spec fn phase_after_init(p: ContextPhase, ret: i32) -> ContextPhase {
    if ret == RCL_RET_OK {
        ContextPhase::Live
    } else {
        p
    }
}

/// The phase of a context after native shutdown returned `ret` on it.
pub open spec fn phase_after_shutdown(p: ContextPhase, ret: i32) -> ContextPhase {
    if ret == RCL_RET_OK {
        ContextPhase::ShutDown
    } else {
        p
    }
}

/// The phase of a context after native fini returned `ret` on it.
pub open spec fn phase_after_fini(p: ContextPhase, ret: i32) -> ContextPhase {
    if ret == RCL_RET_OK {
        ContextPhase::Finalized
    } else {
        p
    }
}

/// A successful native init on a fresh context yields a live context, which a
/// session reports as valid; no other documented return code does.
pub proof fn lemma_init_then_live(ret: i32)
    requires
        init_verdict(ret) is Some,
    ensures
        (init_verdict(ret) == Some(Ok::<(), RosInitError>(()))) == (phase_after_init(
            ContextPhase::ZeroInitialized,
            ret,
        ) == ContextPhase::Live),
        ret == RCL_RET_OK ==> phase_after_init(ContextPhase::ZeroInitialized, ret)
            == ContextPhase::Live,
{
}

/// The context phase at the end of one create/destroy cycle on a fresh
/// context: init, shutdown if init made it live, then fini.
pub open spec fn cycle_end(init_ret: i32, shutdown_ret: i32, fini_ret: i32) -> ContextPhase {
    let after_init = phase_after_init(ContextPhase::ZeroInitialized, init_ret);
    let before_fini = if after_init == ContextPhase::Live {
        phase_after_shutdown(after_init, shutdown_ret)
    } else {
        after_init
    };
    phase_after_fini(before_fini, fini_ret)
}

/// A create/destroy cycle on a fresh context whose shutdown and fini succeed
/// issues fini once, on a context that may be finalized, and leaves it
/// finalized, where a second fini is not allowed. Each cycle starts from its
/// own zero-initialized context, so any number of cycles in sequence succeed.
pub proof fn lemma_cycle_finalizes_once(init_ret: i32, shutdown_ret: i32, fini_ret: i32)
    requires
        init_verdict(init_ret) is Some,
        shutdown_ret == RCL_RET_OK,
        fini_ret == RCL_RET_OK,
    ensures
        finalizable(
            if phase_after_init(ContextPhase::ZeroInitialized, init_ret) == ContextPhase::Live {
                phase_after_shutdown(ContextPhase::Live, shutdown_ret)
            } else {
                phase_after_init(ContextPhase::ZeroInitialized, init_ret)
            },
        ),
        cycle_end(init_ret, shutdown_ret, fini_ret) == ContextPhase::Finalized,
        !finalizable(cycle_end(init_ret, shutdown_ret, fini_ret)),
{
}

/// The native argument vector made from the process arguments `args`: each
/// one as a zero-terminated string, in order, leaving out those that hold a
/// zero byte.
pub open spec fn native_arguments(args: Seq<Seq<u8>>) -> Seq<Seq<u8>>
    decreases args.len(),
{
    if args.len() == 0 {
        Seq::empty()
    } else {
        let kept = native_arguments(args.drop_last());
        match c_string_of(args.last()) {
            Ok(c) => kept.push(c),
            Err(_) => kept,
        }
    }
}

/// The bytes of each argument.
pub open spec fn argument_bytes(args: Seq<String>) -> Seq<Seq<u8>> {
    args.map_values(|a: String| encode_utf8(a@))
}

/// Builds the argument vector handed to native init from the process
/// arguments; an argument that cannot be a native string is dropped.
pub fn init_arguments(args: &Vec<String>) -> (r: Vec<Vec<u8>>)
    ensures
        r@.map_values(|v: Vec<u8>| v@) == native_arguments(argument_bytes(args@)),
{
    let ghost all = argument_bytes(args@);
    let mut out: Vec<Vec<u8>> = Vec::new();
    let mut i: usize = 0;
    while i < args.len()
        invariant
            all == argument_bytes(args@),
            0 <= i <= args.len(),
            out@.map_values(|v: Vec<u8>| v@) == native_arguments(all.take(i as int)),
        decreases args.len() - i,
    {
        let ghost before = out@;
        proof {
            assert(all.take(i + 1).drop_last() =~= all.take(i as int));
            assert(all.take(i + 1).last() == encode_utf8(args@[i as int]@));
        }
        match to_c_string(args[i].as_str()) {
            Ok(c) => {
                out.push(c);
                proof {
                    assert(out@.map_values(|v: Vec<u8>| v@) =~= before.map_values(
                        |v: Vec<u8>| v@,
                    ).push(out@.last()@));
                }
            },
            Err(_) => {},
        }
        i = i + 1;
    }
    assert(all.take(i as int) =~= all);
    out
}

/// What a native init return code means: `None` where the runtime broke its
/// own contract (it documents no other failure for a fresh context).
pub open spec fn init_verdict(ret: i32) -> Option<Result<(), RosInitError>> {
    if ret == RCL_RET_OK {
        Some(Ok(()))
    } else if ret == RCL_RET_INVALID_ROS_ARGS {
        Some(Err(RosInitError::InvalidROSArguments))
    } else {
        None
    }
}

/// The lifecycle of the native init options owned by the caller.
pub struct RosOptions {
    phase: OptionsPhase,
}

impl RosOptions {
    /// The options' current phase.
    pub closed spec fn phase(&self) -> OptionsPhase {
        self.phase
    }

    /// Options that are zero-initialized and not yet usable.
    pub fn new() -> (r: RosOptions)
        ensures
            r.phase() == OptionsPhase::Uninitialized,
    {
        RosOptions { phase: OptionsPhase::Uninitialized }
    }

    /// Whether the options may be read by native init.
    pub fn is_initialized(&self) -> (r: bool)
        ensures
            r == (self.phase() == OptionsPhase::Initialized),
    {
        self.phase == OptionsPhase::Initialized
    }

    /// Records the return code of native options init. Returns whether it
    /// succeeded; a failure means the native installation is broken.
    pub fn record_init(&mut self, ret: i32) -> (r: bool)
        requires
            old(self).phase() == OptionsPhase::Uninitialized,
        ensures
            r == (ret == RCL_RET_OK),
            final(self).phase() == if r {
                OptionsPhase::Initialized
            } else {
                OptionsPhase::Uninitialized
            },
    {
        if ret == RCL_RET_OK {
            self.phase = OptionsPhase::Initialized;
            true
        } else {
            false
        }
    }

    /// Records the return code of native options fini, which is due exactly
    /// once on initialized options. Returns whether it succeeded.
    pub fn record_fini(&mut self, ret: i32) -> (r: bool)
        requires
            old(self).phase() == OptionsPhase::Initialized,
        ensures
            r == (ret == RCL_RET_OK),
            final(self).phase() == if r {
                OptionsPhase::Finalized
            } else {
                OptionsPhase::Initialized
            },
    {
        if ret == RCL_RET_OK {
            self.phase = OptionsPhase::Finalized;
            true
        } else {
            false
        }
    }
}

/// The lifecycle of one native context.
pub struct RosContext {
    phase: ContextPhase,
}

impl RosContext {
    /// The context's current phase.
    pub closed spec fn phase(&self) -> ContextPhase {
        self.phase
    }

    /// Whether the context is live: initialized and not yet shut down.
    pub fn is_valid(&self) -> (r: bool)
        ensures
            r == (self.phase() == ContextPhase::Live),
    {
        self.phase == ContextPhase::Live
    }

    /// Whether native fini may be issued on the context now.
    pub fn may_finalize(&self) -> (r: bool)
        ensures
            r == finalizable(self.phase()),
    {
        self.phase == ContextPhase::ZeroInitialized || self.phase == ContextPhase::ShutDown
    }

    /// Records the return code of native init on this zero-initialized context,
    /// which read the initialized `options`. On success the context is live; on
    /// a failure the native runtime leaves it zero-initialized. `None` means the
    /// runtime returned a code it does not document for this call.
    pub fn record_init(&mut self, options: &RosOptions, ret: i32) -> (r: Option<
        Result<(), RosInitError>,
    >)
        requires
            old(self).phase() == ContextPhase::ZeroInitialized,
            options.phase() == OptionsPhase::Initialized,
        ensures
            r == init_verdict(ret),
            final(self).phase() == phase_after_init(old(self).phase(), ret),
    {
        if ret == RCL_RET_OK {
            self.phase = ContextPhase::Live;
            Some(Ok(()))
        } else if ret == RCL_RET_INVALID_ROS_ARGS {
            Some(Err(RosInitError::InvalidROSArguments))
        } else {
            None
        }
    }

    /// Records the return code of native shutdown on this live context.
    /// Returns whether it succeeded.
    pub fn record_shutdown(&mut self, ret: i32) -> (r: bool)
        requires
            old(self).phase() == ContextPhase::Live,
        ensures
            r == (ret == RCL_RET_OK),
            final(self).phase() == phase_after_shutdown(old(self).phase(), ret),
    {
        if ret == RCL_RET_OK {
            self.phase = ContextPhase::ShutDown;
            true
        } else {
            false
        }
    }

    /// Records the return code of native fini, issued on a context that may be
    /// finalized. Returns whether it succeeded.
    pub fn record_fini(&mut self, ret: i32) -> (r: bool)
        requires
            finalizable(old(self).phase()),
        ensures
            r == (ret == RCL_RET_OK),
            final(self).phase() == phase_after_fini(old(self).phase(), ret),
    {
        if ret == RCL_RET_OK {
            self.phase = ContextPhase::Finalized;
            true
        } else {
            false
        }
    }
}

impl Default for RosContext {
    /// A zero-initialized context.
    fn default() -> (r: RosContext)
        ensures
            r.phase() == ContextPhase::ZeroInitialized,
    {
        RosContext { phase: ContextPhase::ZeroInitialized }
    }
}

#[verifier::external_type_specification]
#[verifier::external_body]
#[verifier::reject_recursive_types(R)]
#[verifier::reject_recursive_types(T)]
pub struct ExRwLock<R, T: ?Sized>(parking_lot::lock_api::RwLock<R, T>);

#[verifier::external_type_specification]
#[verifier::external_body]
pub struct ExRawRwLock(parking_lot::RawRwLock);

/// The context that a lock holds.
pub uninterp spec fn locked_context(l: RwLock<RosContext>) -> RosContext;

/// Relies on parking_lot's `RwLock::new`: the lock holds the given value.
#[verifier::external_body]
fn new_lock(c: RosContext) -> (r: RwLock<RosContext>)
    ensures
        locked_context(r) == c,
{
    RwLock::new(c)
}

/// Relies on parking_lot's `RwLock::into_inner`: hands back the held value.
#[verifier::external_body]
fn lock_into_inner(l: RwLock<RosContext>) -> (r: RosContext)
    ensures
        r == locked_context(l),
{
    l.into_inner()
}

/// Relies on parking_lot's `RwLock::read`: shared access to the held value,
/// of which the phase is read.
#[verifier::external_body]
fn read_locked_phase(l: &RwLock<RosContext>) -> (r: ContextPhase)
    ensures
        r == locked_context(*l).phase(),
{
    l.read().phase
}

/// A running session of the native runtime.
///
/// A value exists only for a context whose native init succeeded; it holds
/// that context, live, behind a read/write lock until it is shut down.
pub struct Ros {
    context: RwLock<RosContext>,
}

impl Ros {
    #[verifier::type_invariant]
    spec fn inv(&self) -> bool {
        locked_context(self.context).phase() == ContextPhase::Live
    }

    /// The phase of the session's context.
    pub closed spec fn context_phase(&self) -> ContextPhase {
        locked_context(self.context).phase()
    }

    /// Starts a session from the return code `ret` of native init, issued on
    /// the zero-initialized `context` with the initialized `options`.
    ///
    /// `None` means the runtime returned a code it does not document for this
    /// call. On an error the native context was left zero-initialized.
    pub fn init(options: &RosOptions, context: RosContext, ret: i32) -> (r: Option<
        Result<Ros, RosInitError>,
    >)
        requires
            context.phase() == ContextPhase::ZeroInitialized,
            options.phase() == OptionsPhase::Initialized,
        ensures
            match init_verdict(ret) {
                Some(Ok(())) => r matches Some(Ok(h)) && h.context_phase() == phase_after_init(
                    context.phase(),
                    ret,
                ),
                Some(Err(e)) => r == Some(Err::<Ros, RosInitError>(e)),
                None => r is None,
            },
    {
        let mut context = context;
        match context.record_init(options, ret) {
            Some(Ok(())) => {
                let h = Ros { context: new_lock(context) };
                proof {
                    use_type_invariant(&h);
                }
                Some(Ok(h))
            },
            Some(Err(e)) => Some(Err(e)),
            None => None,
        }
    }

    /// Whether the session's context is live; it always is.
    pub fn is_valid(&self) -> (r: bool)
        ensures
            r == (self.context_phase() == ContextPhase::Live),
            r,
    {
        proof {
            use_type_invariant(self);
        }
        read_locked_phase(&self.context) == ContextPhase::Live
    }

    /// Ends the session with the return code `ret` of native shutdown on its
    /// context. `Ok` holds the shut-down context, which may now be finalized;
    /// `Err` holds the context, still live, where shutdown failed.
    pub fn shutdown(self, ret: i32) -> (r: Result<RosContext, RosContext>)
        ensures
            match r {
                Ok(c) => ret == RCL_RET_OK && c.phase() == phase_after_shutdown(
                    ContextPhase::Live,
                    ret,
                ),
                Err(c) => ret != RCL_RET_OK && c.phase() == ContextPhase::Live,
            },
    {
        proof {
            use_type_invariant(&self);
        }
        let Ros { context } = self;
        let mut c = lock_into_inner(context);
        if c.record_shutdown(ret) {
            Ok(c)
        } else {
            Err(c)
        }
    }
}

} // verus!
