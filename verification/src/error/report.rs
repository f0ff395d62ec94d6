//! The text of the detailed error types, and their conversion into a
//! `NexusError` that carries that text as its message and the details as
//! its context.

use vstd::prelude::*;
use crate::error::{
    AccessOp,
    DependencyCycleContext,
    DependencyCycleError,
    ErrorContext,
    ErrorKind,
    HeartbeatTimeoutContext,
    HeartbeatTimeoutError,
    LockTimeoutContext,
    LockTimeoutError,
    NamespaceViolationContext,
    NamespaceViolationError,
    NexusError,
    access_op_text,
};
use crate::error::NexusResult;
use crate::outside::{duration_debug_string, duration_debug_text, io_error_string};
use crate::text::{decimal, decimal_string};

verus! {

/// The key=value text of a lock timeout, as log aggregators parse it.
pub open spec fn lock_timeout_text(e: LockTimeoutError) -> Seq<char> {
    lock_timeout_text_with(e, duration_debug_text(e.timeout_duration))
}

/// The text of a lock timeout whose duration reads `duration_text`.
pub open spec fn lock_timeout_text_with(e: LockTimeoutError, duration_text: Seq<char>) -> Seq<char> {
    "error=LockTimeout slot_id="@ + e.slot_name@ + " holder_agent_id="@ + match e.holder_agent_id {
        Some(id) => decimal(id as nat),
        None => "none"@,
    } + match e.holder_thread_id {
        Some(t) => " holder_thread_id="@ + decimal(t as nat),
        None => Seq::<char>::empty(),
    } + " timeout="@ + duration_text
}

/// The text of a namespace violation.
pub open spec fn namespace_violation_text(e: NamespaceViolationError) -> Seq<char> {
    "namespace violation: agent "@ + decimal(e.agent_id as nat) + " attempted "@ + access_op_text(
        e.operation,
    ) + " on slot "@ + decimal(e.slot_id as nat) + " for goal "@ + decimal(e.goal_id as nat)
        + match e.expected_namespace {
        Some(x) => " (expected namespace "@ + decimal(x as nat) + ", was in namespace "@ + decimal(
            e.actual_namespace as nat,
        ) + ")"@,
        None => Seq::<char>::empty(),
    }
}

/// The goals of a cycle path, in decimal, joined by arrows.
pub open spec fn arrow_path(path: Seq<u64>) -> Seq<char>
    decreases path.len(),
{
    if path.len() == 0 {
        Seq::empty()
    } else if path.len() == 1 {
        decimal(path[0] as nat)
    } else {
        arrow_path(path.drop_last()) + " -> "@ + decimal(path.last() as nat)
    }
}

/// The text of a dependency cycle.
pub open spec fn dependency_cycle_text(e: DependencyCycleError) -> Seq<char> {
    "dependency cycle detected at goal "@ + decimal(e.goal_id as nat) + ": "@ + arrow_path(
        e.cycle_path@,
    )
}

/// The text of a heartbeat timeout.
pub open spec fn heartbeat_timeout_text(e: HeartbeatTimeoutError) -> Seq<char> {
    "heartbeat timeout: expected every "@ + decimal(e.expected_interval_ms as nat)
        + "ms, but "@ + decimal(e.elapsed_ms as nat) + "ms elapsed (threshold "@ + decimal(
        e.stall_threshold_ms as nat,
    ) + "ms)"@
}

fn push_decimal(s: &mut String, n: u64)
    ensures
        final(s)@ == old(s)@ + decimal(n as nat),
{
    let d = decimal_string(n);
    s.append(d.as_str());
}

impl LockTimeoutError {
    /// The key=value text of this error.
    pub fn to_display_string(&self) -> (r: String)
        ensures
            r@ == lock_timeout_text(*self),
    {
        let d = duration_debug_string(self.timeout_duration);
        self.text_with_duration(d.as_str())
    }

    /// The key=value text of this error, with `duration_text` written for
    /// the time waited.
    pub fn text_with_duration(&self, duration_text: &str) -> (r: String)
        ensures
            r@ == lock_timeout_text_with(*self, duration_text@),
    {
        proof {
            reveal_strlit("error=LockTimeout slot_id=");
            reveal_strlit(" holder_agent_id=");
            reveal_strlit("none");
            reveal_strlit(" holder_thread_id=");
            reveal_strlit(" timeout=");
        }
        let mut s = String::from_str("error=LockTimeout slot_id=");
        s.append(self.slot_name.as_str());
        s.append(" holder_agent_id=");
        match self.holder_agent_id {
            Some(id) => push_decimal(&mut s, id),
            None => s.append("none"),
        }
        match self.holder_thread_id {
            Some(t) => {
                s.append(" holder_thread_id=");
                push_decimal(&mut s, t);
            },
            None => {},
        }
        s.append(" timeout=");
        s.append(duration_text);
        assert(s@ =~= lock_timeout_text_with(*self, duration_text@));
        s
    }

    /// A `Timeout` error whose message is this error's text and whose context
    /// holds its slot and holder.
    pub fn into_nexus_error(self) -> (r: NexusError)
        ensures
            r.spec_kind() == ErrorKind::Timeout,
            r.spec_message() == lock_timeout_text(self),
            r.spec_source() is None,
            r.spec_context() matches Some(ErrorContext::LockTimeout(c)) && c.slot_id
                == self.slot_id && c.slot_name@ == self.slot_name@ && c.holder_agent_id
                == self.holder_agent_id && c.holder_thread_id == self.holder_thread_id,
    {
        let msg = self.to_display_string();
        NexusError::new(ErrorKind::Timeout, msg.as_str()).with_context(
            ErrorContext::LockTimeout(
                LockTimeoutContext {
                    slot_id: self.slot_id,
                    slot_name: self.slot_name,
                    holder_agent_id: self.holder_agent_id,
                    holder_thread_id: self.holder_thread_id,
                },
            ),
        )
    }
}

impl NamespaceViolationError {
    /// The text of this error.
    pub fn to_display_string(&self) -> (r: String)
        ensures
            r@ == namespace_violation_text(*self),
    {
        proof {
            reveal_strlit("namespace violation: agent ");
            reveal_strlit(" attempted ");
            reveal_strlit(" on slot ");
            reveal_strlit(" for goal ");
            reveal_strlit(" (expected namespace ");
            reveal_strlit(", was in namespace ");
            reveal_strlit(")");
        }
        let mut s = String::from_str("namespace violation: agent ");
        push_decimal(&mut s, self.agent_id);
        s.append(" attempted ");
        s.append(self.operation.as_str());
        s.append(" on slot ");
        push_decimal(&mut s, self.slot_id);
        s.append(" for goal ");
        push_decimal(&mut s, self.goal_id);
        match self.expected_namespace {
            Some(expected) => {
                s.append(" (expected namespace ");
                push_decimal(&mut s, expected);
                s.append(", was in namespace ");
                push_decimal(&mut s, self.actual_namespace);
                s.append(")");
            },
            None => {},
        }
        assert(s@ =~= namespace_violation_text(*self));
        s
    }

    /// A `PermissionDenied` error whose message is this error's text and
    /// whose context holds its goal, slot, agent, operation and namespace.
    pub fn into_nexus_error(self) -> (r: NexusError)
        ensures
            r.spec_kind() == ErrorKind::PermissionDenied,
            r.spec_message() == namespace_violation_text(self),
            r.spec_source() is None,
            r.spec_context() == Some(
                ErrorContext::NamespaceViolation(
                    NamespaceViolationContext {
                        goal_id: self.goal_id,
                        slot_id: self.slot_id,
                        agent_id: self.agent_id,
                        operation: self.operation,
                        actual_namespace: self.actual_namespace,
                    },
                ),
            ),
    {
        let msg = self.to_display_string();
        NexusError::new(ErrorKind::PermissionDenied, msg.as_str()).with_context(
            ErrorContext::NamespaceViolation(
                NamespaceViolationContext {
                    goal_id: self.goal_id,
                    slot_id: self.slot_id,
                    agent_id: self.agent_id,
                    operation: self.operation,
                    actual_namespace: self.actual_namespace,
                },
            ),
        )
    }
}

impl DependencyCycleError {
    /// The text of this error: the goal, then the cycle joined by arrows.
    pub fn to_display_string(&self) -> (r: String)
        ensures
            r@ == dependency_cycle_text(*self),
    {
        proof {
            reveal_strlit("dependency cycle detected at goal ");
            reveal_strlit(": ");
            reveal_strlit(" -> ");
        }
        let mut s = String::from_str("dependency cycle detected at goal ");
        push_decimal(&mut s, self.goal_id);
        s.append(": ");
        let ghost prefix = s@;
        let mut i: usize = 0;
        while i < self.cycle_path.len()
            invariant
                i <= self.cycle_path@.len(),
                s@ == prefix + arrow_path(self.cycle_path@.take(i as int)),
            decreases self.cycle_path@.len() - i,
        {
            proof {
                reveal_strlit(" -> ");
            }
            if i > 0 {
                s.append(" -> ");
            }
            push_decimal(&mut s, self.cycle_path[i]);
            proof {
                let t = self.cycle_path@.take(i + 1);
                assert(t.drop_last() =~= self.cycle_path@.take(i as int));
                assert(t.last() == self.cycle_path@[i as int]);
                if i == 0 {
                    assert(self.cycle_path@.take(0) =~= Seq::<u64>::empty());
                }
            }
            i = i + 1;
        }
        assert(self.cycle_path@.take(self.cycle_path@.len() as int) =~= self.cycle_path@);
        s
    }

    /// An `InvariantViolation` error whose message is this error's text and
    /// whose context holds its goal and cycle.
    pub fn into_nexus_error(self) -> (r: NexusError)
        ensures
            r.spec_kind() == ErrorKind::InvariantViolation,
            r.spec_message() == dependency_cycle_text(self),
            r.spec_source() is None,
            r.spec_context() matches Some(ErrorContext::DependencyCycle(c)) && c.goal_id
                == self.goal_id && c.cycle_path@ == self.cycle_path@,
    {
        let msg = self.to_display_string();
        NexusError::new(ErrorKind::InvariantViolation, msg.as_str()).with_context(
            ErrorContext::DependencyCycle(
                DependencyCycleContext { goal_id: self.goal_id, cycle_path: self.cycle_path },
            ),
        )
    }
}

impl HeartbeatTimeoutError {
    /// The text of this error.
    pub fn to_display_string(&self) -> (r: String)
        ensures
            r@ == heartbeat_timeout_text(*self),
    {
        proof {
            reveal_strlit("heartbeat timeout: expected every ");
            reveal_strlit("ms, but ");
            reveal_strlit("ms elapsed (threshold ");
            reveal_strlit("ms)");
        }
        let mut s = String::from_str("heartbeat timeout: expected every ");
        push_decimal(&mut s, self.expected_interval_ms);
        s.append("ms, but ");
        push_decimal(&mut s, self.elapsed_ms);
        s.append("ms elapsed (threshold ");
        push_decimal(&mut s, self.stall_threshold_ms);
        s.append("ms)");
        assert(s@ =~= heartbeat_timeout_text(*self));
        s
    }

    /// A `HeartbeatMissed` error whose message is this error's text and
    /// whose context holds the last heartbeat and the time elapsed.
    pub fn into_nexus_error(self) -> (r: NexusError)
        ensures
            r.spec_kind() == ErrorKind::HeartbeatMissed,
            r.spec_message() == heartbeat_timeout_text(self),
            r.spec_source() is None,
            r.spec_context() == Some(
                ErrorContext::HeartbeatTimeout(
                    HeartbeatTimeoutContext {
                        last_heartbeat: self.last_heartbeat,
                        elapsed_ms: self.elapsed_ms,
                    },
                ),
            ),
    {
        let msg = self.to_display_string();
        NexusError::new(ErrorKind::HeartbeatMissed, msg.as_str()).with_context(
            ErrorContext::HeartbeatTimeout(
                HeartbeatTimeoutContext {
                    last_heartbeat: self.last_heartbeat,
                    elapsed_ms: self.elapsed_ms,
                },
            ),
        )
    }
}

/// Adding context to the error of a result.
pub trait ResultExt<T>: Sized {
    /// Turns the error, if any, into a `NexusError` and adds `message` to its
    /// chain: a new head error of the same kind whose message and context are
    /// `message` and whose source is the error; a success passes through.
    fn context(self, message: &str) -> NexusResult<T>;

    /// As `context`, with the message computed only when there is an error.
    fn with_context<F: FnOnce() -> String>(self, f: F) -> NexusResult<T>
        requires
            f.requires(()),
    ;
}

/// `message` put at the head of the chain of `e`: an error of the same kind,
/// with `message` as its message and its context, no backtrace, and `e` as
/// its source.
pub fn context_link(e: NexusError, message: String) -> (r: NexusError)
    ensures
        r.spec_kind() == e.spec_kind(),
        r.spec_message() == message@,
        r.spec_source() == Some(e),
        !r.spec_has_backtrace(),
        r.spec_context() == Some(ErrorContext::Message(message)),
{
    let kind = e.kind();
    let head = NexusError::new_no_backtrace(kind, message.as_str());
    head.with_context(ErrorContext::Message(message)).with_source(e)
}

impl<T> ResultExt<T> for Result<T, NexusError> {
    fn context(self, message: &str) -> (r: NexusResult<T>)
        ensures
            match self {
                Ok(v) => r == Ok::<T, NexusError>(v),
                Err(e) => ({
                    &&& r matches Err(e2)
                    &&& r->Err_0.spec_kind() == e.spec_kind()
                    &&& r->Err_0.spec_message() == message@
                    &&& r->Err_0.spec_source() == Some(e)
                    &&& r->Err_0.spec_context() matches Some(ErrorContext::Message(m))
                    &&& r->Err_0.spec_context()->Some_0->Message_0@ == message@
                }),
            },
    {
        match self {
            Ok(v) => Ok(v),
            Err(e) => Err(context_link(e, String::from_str(message))),
        }
    }

    fn with_context<F: FnOnce() -> String>(self, f: F) -> (r: NexusResult<T>)
        ensures
            match self {
                Ok(v) => r == Ok::<T, NexusError>(v),
                Err(e) => ({
                    &&& r matches Err(e2)
                    &&& r->Err_0.spec_kind() == e.spec_kind()
                    &&& r->Err_0.spec_source() == Some(e)
                    &&& r->Err_0.spec_context() matches Some(ErrorContext::Message(m))
                    &&& r->Err_0.spec_context()->Some_0->Message_0@ == r->Err_0.spec_message()
                    &&& f.ensures((), r->Err_0.spec_context()->Some_0->Message_0)
                }),
            },
    {
        match self {
            Ok(v) => Ok(v),
            Err(e) => {
                let m = f();
                Err(context_link(e, m))
            },
        }
    }
}

/// An `Io` error for an I/O error: its text is the message, repeated in an
/// `Io` source error without a backtrace.
pub fn io_nexus_error(err: &std::io::Error) -> (r: NexusError)
    ensures
        r.spec_kind() == ErrorKind::Io,
        r.spec_context() is None,
        r.spec_source() matches Some(s) && s.spec_kind() == ErrorKind::Io && s.spec_message()
            == r.spec_message() && s.spec_source() is None,
{
    let text = io_error_string(err);
    NexusError::new(ErrorKind::Io, text.as_str()).with_source(
        NexusError::new_no_backtrace(ErrorKind::Io, text.as_str()),
    )
}

impl<T> ResultExt<T> for Result<T, std::io::Error> {
    fn context(self, message: &str) -> (r: NexusResult<T>)
        ensures
            match self {
                Ok(v) => r == Ok::<T, NexusError>(v),
                Err(_) => ({
                    &&& r matches Err(e2)
                    &&& r->Err_0.spec_kind() == ErrorKind::Io
                    &&& r->Err_0.spec_message() == message@
                    &&& r->Err_0.spec_context() matches Some(ErrorContext::Message(m))
                    &&& r->Err_0.spec_context()->Some_0->Message_0@ == message@
                    &&& r->Err_0.spec_source() matches Some(io)
                    &&& r->Err_0.spec_source()->Some_0.spec_kind() == ErrorKind::Io
                    &&& r->Err_0.spec_source()->Some_0.spec_source() matches Some(inner)
                    &&& r->Err_0.spec_source()->Some_0.spec_source()->Some_0.spec_kind()
                        == ErrorKind::Io
                    &&& r->Err_0.spec_source()->Some_0.spec_source()->Some_0.spec_message()
                        == r->Err_0.spec_source()->Some_0.spec_message()
                }),
            },
    {
        match self {
            Ok(v) => Ok(v),
            Err(e) => Err(context_link(io_nexus_error(&e), String::from_str(message))),
        }
    }

    fn with_context<F: FnOnce() -> String>(self, f: F) -> (r: NexusResult<T>)
        ensures
            match self {
                Ok(v) => r == Ok::<T, NexusError>(v),
                Err(_) => ({
                    &&& r matches Err(e2)
                    &&& r->Err_0.spec_kind() == ErrorKind::Io
                    &&& r->Err_0.spec_context() matches Some(ErrorContext::Message(m))
                    &&& r->Err_0.spec_context()->Some_0->Message_0@ == r->Err_0.spec_message()
                    &&& f.ensures((), r->Err_0.spec_context()->Some_0->Message_0)
                    &&& r->Err_0.spec_source() matches Some(io)
                    &&& r->Err_0.spec_source()->Some_0.spec_kind() == ErrorKind::Io
                    &&& r->Err_0.spec_source()->Some_0.spec_source() matches Some(inner)
                    &&& r->Err_0.spec_source()->Some_0.spec_source()->Some_0.spec_kind()
                        == ErrorKind::Io
                    &&& r->Err_0.spec_source()->Some_0.spec_source()->Some_0.spec_message()
                        == r->Err_0.spec_source()->Some_0.spec_message()
                }),
            },
    {
        match self {
            Ok(v) => Ok(v),
            Err(e) => {
                let m = f();
                Err(context_link(io_nexus_error(&e), m))
            },
        }
    }
}

} // verus!
