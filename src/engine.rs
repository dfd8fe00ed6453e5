use crate::marshal::{all_str, marshal, marshals, strings_in, EngineValue};
use crate::models::{Error, JsMsg, JsRequest, Reply};
use crate::registry::FunctionRegistry;
use crate::sanitize::{sanitize_variable_name, sanitized};
use crate::value::Value;
use tokio::sync::oneshot;
use vstd::prelude::*;

verus! {

/// The engine-side binding that lists the functions a loaded program exposes.
pub const DISCOVERY_BINDING: &'static str = "_tauri_plugin_functions";

/// Where the engine thread stands in its life.
#[derive(Debug, Clone, Copy, PartialEq, Eq, Structural)]
pub enum Phase {
    /// The engine is being built and the program loaded.
    Bootstrapping,
    /// The engine's own task queue is run until it is empty.
    Draining,
    /// The discovery binding is being read.
    Discovering,
    /// The discovered names are being resolved one by one.
    Registering,
    /// Requests are served, one at a time.
    Ready,
    /// Bootstrap failed; the bridge is unavailable for good.
    Terminated,
}

/// What the engine thread reports after carrying out a bootstrap step.
pub enum BootEvent<H> {
    /// The engine was built and the program loaded, or why not.
    Started(Result<(), String>),
    /// The engine's task queue ran empty, or why it failed.
    Drained(Result<(), String>),
    /// What the discovery binding evaluated to.
    Listing(Result<EngineValue, String>),
    /// The handle of the name last asked for, or why it did not resolve.
    Resolved(Result<H, String>),
}

/// What the core asks the engine thread to do next while it boots.
#[derive(Debug)]
pub enum BootStep {
    /// Build the engine and load the program.
    Start,
    /// Run the engine's task queue until it is empty.
    Drain,
    /// Read the discovery binding.
    ReadListing,
    /// Resolve this name to a callable handle.
    Resolve(String),
    /// Bootstrap is complete: serve requests.
    Serve,
    /// Bootstrap failed: stop, reporting this error.
    Halt(Error),
}

/// One request, ready for the engine, with the reply slot of its caller.
pub enum Job<'a, H> {
    /// Execute `source` as a top-level script.
    Execute { source: String, slot: oneshot::Sender<Reply> },
    /// Evaluate the (already sanitised) binding `name`.
    Evaluate { name: String, slot: oneshot::Sender<Reply> },
    /// Resolve `name` and register it.
    Register { name: String, slot: oneshot::Sender<Reply> },
    /// Invoke `function` with `args`.
    Invoke { function: &'a H, args: Vec<Value>, slot: oneshot::Sender<Reply> },
}

/// The phase after `event`, from `phase` with `left` names still to resolve.
/// An event that does not answer the step the phase asked for changes nothing.
pub open spec fn phase_after<H>(phase: Phase, left: int, event: BootEvent<H>) -> Phase {
    match phase {
        Phase::Bootstrapping => match event {
            BootEvent::Started(Ok(_)) => Phase::Draining,
            BootEvent::Started(Err(_)) => Phase::Terminated,
            _ => phase,
        },
        Phase::Draining => match event {
            BootEvent::Drained(Ok(_)) => Phase::Discovering,
            BootEvent::Drained(Err(_)) => Phase::Terminated,
            _ => phase,
        },
        Phase::Discovering => match event {
            BootEvent::Listing(Ok(EngineValue::Array(items))) => if !all_str(items@) || items@.len()
                == 0 {
                Phase::Ready
            } else {
                Phase::Registering
            },
            BootEvent::Listing(_) => Phase::Ready,
            _ => phase,
        },
        Phase::Registering => match event {
            BootEvent::Resolved(Ok(_)) => if left <= 1 {
                Phase::Ready
            } else {
                Phase::Registering
            },
            BootEvent::Resolved(Err(_)) => Phase::Terminated,
            _ => phase,
        },
        Phase::Ready => phase,
        Phase::Terminated => phase,
    }
}

/// The names still to resolve after `event`.
pub open spec fn to_register_after<H>(
    phase: Phase,
    left: Seq<Seq<char>>,
    event: BootEvent<H>,
) -> Seq<Seq<char>> {
    match phase {
        Phase::Discovering => match event {
            BootEvent::Listing(Ok(EngineValue::Array(items))) => if all_str(items@) {
                items@.map_values(|v: EngineValue| v->Str_0@)
            } else {
                left
            },
            _ => left,
        },
        Phase::Registering => match event {
            BootEvent::Resolved(Ok(_)) => left.drop_first(),
            _ => left,
        },
        _ => left,
    }
}

/// The registered functions after `event`: a resolved name is bound to its
/// handle.
pub open spec fn functions_after<H>(
    phase: Phase,
    functions: Map<Seq<char>, H>,
    left: Seq<Seq<char>>,
    event: BootEvent<H>,
) -> Map<Seq<char>, H> {
    match phase {
        Phase::Registering => match event {
            BootEvent::Resolved(Ok(h)) => functions.insert(left[0], h),
            _ => functions,
        },
        _ => functions,
    }
}

/// The recorded cause of a bootstrap failure after `event`.
pub open spec fn cause_after<H>(phase: Phase, cause: Seq<char>, event: BootEvent<H>) -> Seq<char> {
    match (phase, event) {
        (Phase::Bootstrapping, BootEvent::Started(Err(e))) => e@,
        (Phase::Draining, BootEvent::Drained(Err(e))) => e@,
        (Phase::Registering, BootEvent::Resolved(Err(e))) => e@,
        _ => cause,
    }
}

/// The function a call of `name` reaches, if `name` is registered.
pub open spec fn call_target<H>(functions: Map<Seq<char>, H>, name: Seq<char>) -> Option<H> {
    if functions.contains_key(name) {
        Some(functions[name])
    } else {
        None
    }
}

/// Whether `r` is the reply to a request whose engine operation produced
/// `outcome`: the value checked against the closed set, or the engine's
/// error.
pub open spec fn replies(outcome: Result<EngineValue, String>, r: Reply) -> bool {
    match outcome {
        Ok(v) => match r {
            Ok(x) => marshals(v, Ok(x)),
            Err(Error::Unsupported(shape)) => marshals(v, Err(shape)),
            Err(_) => false,
        },
        Err(e) => r == Err::<Value, Error>(Error::Dispatch(e)),
    }
}

/// The decisions of the engine thread: its lifecycle, its function registry
/// and how each request is turned into engine work. The engine itself is
/// driven by the caller, which reports back what happened.
pub struct EngineCore<H> {
    phase: Phase,
    functions: FunctionRegistry<H>,
    listed: Vec<String>,
    next: usize,
    cause: String,
}

impl<H> View for EngineCore<H> {
    type V = Map<Seq<char>, H>;

    /// The registered functions.
    closed spec fn view(&self) -> Map<Seq<char>, H> {
        self.functions@
    }
}

impl<H> EngineCore<H> {
    /// Where the engine thread stands.
    pub closed spec fn phase(&self) -> Phase {
        self.phase
    }

    /// Discovered names not yet resolved, in the order they were listed.
    pub closed spec fn to_register(&self) -> Seq<Seq<char>> {
        self.listed@.subrange(self.next as int, self.listed@.len() as int).map_values(
            |s: String| s@,
        )
    }

    /// Why bootstrap failed, once it has.
    pub closed spec fn cause(&self) -> Seq<char> {
        self.cause@
    }

    /// The registry is well formed, and while names are being resolved there
    /// is one left to resolve.
    pub closed spec fn wf(&self) -> bool {
        &&& self.functions.wf()
        &&& self.next <= self.listed@.len()
        &&& self.phase == Phase::Registering ==> self.next < self.listed@.len()
    }

    /// Whether `step` is what the core asks for in its present state.
    pub open spec fn demands(&self, step: BootStep) -> bool {
        match self.phase() {
            Phase::Bootstrapping => step is Start,
            Phase::Draining => step is Drain,
            Phase::Discovering => step is ReadListing,
            Phase::Registering => step matches BootStep::Resolve(n) && n@ == self.to_register()[0],
            Phase::Ready => step is Serve,
            Phase::Terminated => step matches BootStep::Halt(Error::Bootstrap(c)) && c@
                == self.cause(),
        }
    }

    /// A core that has not started the engine yet.
    pub fn new() -> (r: Self)
        ensures
            r.wf(),
            r.phase() == Phase::Bootstrapping,
            r@ == Map::<Seq<char>, H>::empty(),
            r.to_register() == Seq::<Seq<char>>::empty(),
    {
        let r = EngineCore {
            phase: Phase::Bootstrapping,
            functions: FunctionRegistry::new(),
            listed: Vec::new(),
            next: 0,
            cause: String::new(),
        };
        assert(r.to_register() =~= Seq::<Seq<char>>::empty());
        r
    }

    /// The phase the core is in.
    pub fn current_phase(&self) -> (r: Phase)
        ensures
            r == self.phase(),
    {
        self.phase
    }

    /// Whether a function is registered under `name`.
    pub fn is_registered(&self, name: &String) -> (r: bool)
        requires
            self.wf(),
        ensures
            r == self@.contains_key(name@),
    {
        self.functions.contains(name)
    }

    /// The step the core asks for now.
    pub fn demand(&self) -> (step: BootStep)
        requires
            self.wf(),
        ensures
            self.demands(step),
    {
        match self.phase {
            Phase::Bootstrapping => BootStep::Start,
            Phase::Draining => BootStep::Drain,
            Phase::Discovering => BootStep::ReadListing,
            Phase::Registering => BootStep::Resolve(self.listed[self.next].clone()),
            Phase::Ready => BootStep::Serve,
            Phase::Terminated => BootStep::Halt(Error::Bootstrap(self.cause.clone())),
        }
    }

    /// Takes in what the engine thread reports and says what it must do next.
    pub fn boot_step(&mut self, event: BootEvent<H>) -> (step: BootStep)
        requires
            old(self).wf(),
        ensures
            final(self).wf(),
            final(self).phase() == phase_after(
                old(self).phase(),
                old(self).to_register().len() as int,
                event,
            ),
            final(self).to_register() == to_register_after(
                old(self).phase(),
                old(self).to_register(),
                event,
            ),
            final(self)@ == functions_after(
                old(self).phase(),
                old(self)@,
                old(self).to_register(),
                event,
            ),
            final(self).cause() == cause_after(old(self).phase(), old(self).cause(), event),
            final(self).demands(step),
    {
        let ghost left = self.to_register();
        match self.phase {
            Phase::Bootstrapping => match event {
                BootEvent::Started(Ok(())) => {
                    self.phase = Phase::Draining;
                },
                BootEvent::Started(Err(e)) => {
                    self.phase = Phase::Terminated;
                    self.cause = e;
                },
                _ => {},
            },
            Phase::Draining => match event {
                BootEvent::Drained(Ok(())) => {
                    self.phase = Phase::Discovering;
                },
                BootEvent::Drained(Err(e)) => {
                    self.phase = Phase::Terminated;
                    self.cause = e;
                },
                _ => {},
            },
            Phase::Discovering => match event {
                BootEvent::Listing(Ok(EngineValue::Array(items))) => match strings_in(&items) {
                    Some(names) => {
                        self.phase = if names.len() == 0 {
                            Phase::Ready
                        } else {
                            Phase::Registering
                        };
                        self.listed = names;
                        self.next = 0;
                        assert(self.listed@.subrange(0, self.listed@.len() as int) =~= self.listed@);
                        assert(self.to_register() =~= items@.map_values(
                            |v: EngineValue| v->Str_0@,
                        ));
                    },
                    None => {
                        self.phase = Phase::Ready;
                    },
                },
                BootEvent::Listing(_) => {
                    self.phase = Phase::Ready;
                },
                _ => {},
            },
            Phase::Registering => match event {
                BootEvent::Resolved(Ok(h)) => {
                    let i = self.next;
                    let n = self.listed.len();
                    let name = self.listed[i].clone();
                    self.functions.insert(name, h);
                    self.next = i + 1;
                    if self.next == n {
                        self.phase = Phase::Ready;
                    }
                    assert(self.to_register() =~= left.drop_first());
                },
                BootEvent::Resolved(Err(e)) => {
                    self.phase = Phase::Terminated;
                    self.cause = e;
                },
                _ => {},
            },
            Phase::Ready => {},
            Phase::Terminated => {},
        }
        self.demand()
    }

    /// Turns one request into engine work, keeping the caller's reply slot
    /// with it; or answers at once, with that same slot, where no engine work
    /// is due.
    ///
    /// Before bootstrap has completed, and for good after it failed, every
    /// request is answered `ChannelClosed`. A variable name is sanitised
    /// before it reaches the engine. A call of a name that was never
    /// registered is answered `Unregistered`.
    pub fn accept<'a>(&'a self, msg: JsMsg) -> (r: Result<Job<'a, H>, (oneshot::Sender<Reply>, Reply)>)
        requires
            self.wf(),
        ensures
            self.phase() != Phase::Ready ==> (r matches Err((slot, reply)) && slot == msg.responder
                && reply == Err::<Value, Error>(Error::ChannelClosed)),
            self.phase() == Phase::Ready ==> match msg.req {
                JsRequest::RunCodeRequest(q) => r matches Ok(Job::Execute { source, slot })
                    && source == q.value && slot == msg.responder,
                JsRequest::ReadVarRequest(q) => r matches Ok(Job::Evaluate { name, slot })
                    && name@ == sanitized(q.value@) && slot == msg.responder,
                JsRequest::RegisterRequest(q) => r matches Ok(Job::Register { name, slot })
                    && name == q.function_name && slot == msg.responder,
                JsRequest::CallFnRequest(q) => match call_target(self@, q.function_name@) {
                    Some(h) => r matches Ok(Job::Invoke { function, args, slot }) && *function == h
                        && args == q.args && slot == msg.responder,
                    None => r matches Err((slot, reply)) && slot == msg.responder && reply
                        == Err::<Value, Error>(Error::Unregistered(q.function_name)),
                },
            },
    {
        let JsMsg { req, responder } = msg;
        match self.phase {
            Phase::Ready => {},
            _ => {
                return Err((responder, Err(Error::ChannelClosed)));
            },
        }
        match req {
            JsRequest::RunCodeRequest(q) => Ok(Job::Execute { source: q.value, slot: responder }),
            JsRequest::ReadVarRequest(q) => Ok(
                Job::Evaluate { name: sanitize_variable_name(q.value.as_str()), slot: responder },
            ),
            JsRequest::RegisterRequest(q) => Ok(
                Job::Register { name: q.function_name, slot: responder },
            ),
            JsRequest::CallFnRequest(q) => match self.functions.get(&q.function_name) {
                Some(function) => Ok(Job::Invoke { function, args: q.args, slot: responder }),
                None => Err((responder, Err(Error::Unregistered(q.function_name)))),
            },
        }
    }

    /// Resolving `name` in the engine gave `outcome`: on success the handle is
    /// registered under `name`, replacing any earlier one, and the reply is
    /// `Bool(true)`; on failure nothing changes and the reply carries the
    /// engine's error.
    pub fn complete_registration(&mut self, name: String, outcome: Result<H, String>) -> (r: Reply)
        requires
            old(self).wf(),
        ensures
            final(self).wf(),
            final(self).phase() == old(self).phase(),
            final(self).to_register() == old(self).to_register(),
            final(self).cause() == old(self).cause(),
            outcome matches Ok(h) ==> final(self)@ == old(self)@.insert(name@, h) && r
                == Ok::<Value, Error>(Value::Bool(true)),
            outcome matches Err(e) ==> final(self)@ == old(self)@ && r == Err::<Value, Error>(
                Error::Dispatch(e),
            ),
    {
        match outcome {
            Ok(h) => {
                self.functions.insert(name, h);
                Ok(Value::Bool(true))
            },
            Err(e) => Err(Error::Dispatch(e)),
        }
    }
}

/// The reply to an executed, evaluated or invoked request: the engine's value
/// checked against the closed set, or its error as a dispatch failure.
pub fn reply_for(outcome: Result<EngineValue, String>) -> (r: Reply)
    ensures
        replies(outcome, r),
{
    match outcome {
        Ok(v) => match marshal(v) {
            Ok(x) => Ok(x),
            Err(shape) => Err(Error::Unsupported(shape)),
        },
        Err(e) => Err(Error::Dispatch(e)),
    }
}

} // verus!
