//! Error types with kinds, severities, error chains and lock timeout details.

use std::sync::Arc;
use std::time::Duration;
use vstd::prelude::*;

pub mod report;

verus! {

/// Categories of errors in NEXUS.
///
/// Error kinds are organized by subsystem and severity, enabling
/// programmatic error handling based on error category.
#[derive(Debug, Clone, Copy, PartialEq, Eq, Hash, Structural)]
pub enum ErrorKind {
    /// The input provided was invalid or malformed.
    InvalidInput,
    /// A required parameter was missing.
    MissingParameter,
    /// An operation was attempted on an invalid state.
    InvalidState,
    /// An operation exceeded its allowed bounds.
    OutOfBounds,
    /// The requested resource was not found.
    NotFound,
    /// The requested entity already exists.
    AlreadyExists,
    /// A lock acquisition failed due to contention.
    LockContention,
    /// A timeout occurred while waiting for a resource.
    Timeout,
    /// A deadlock was detected.
    Deadlock,
    /// Channel send operation failed (receiver dropped).
    ChannelSend,
    /// Channel receive operation failed (sender dropped).
    ChannelReceive,
    /// Capacity limit exceeded.
    CapacityExceeded,
    /// Timer drift exceeded acceptable threshold.
    TimerDrift,
    /// Heartbeat missed.
    HeartbeatMissed,
    /// Clock synchronization failure.
    ClockSync,
    /// Invalid timestamp.
    InvalidTimestamp,
    /// Ring buffer is empty.
    BufferEmpty,
    /// Ring buffer is full.
    BufferFull,
    /// Invalid buffer position.
    InvalidPosition,
    /// Hash map operation failed.
    HashMapError,
    /// Memory allocation failed.
    AllocationFailed,
    /// Memory layout is invalid.
    InvalidLayout,
    /// Cache miss.
    CacheMiss,
    /// I/O operation failed.
    Io,
    /// Configuration error.
    Config,
    /// Serialization/deserialization error.
    Serialization,
    /// System call failed.
    SystemError,
    /// Permission denied.
    PermissionDenied,
    /// Resource exhausted.
    ResourceExhausted,
    /// Interrupted operation.
    Interrupted,
    /// An invariant was violated.
    InvariantViolation,
    /// An internal assertion failed.
    InternalError,
    /// Feature not implemented.
    NotImplemented,
}

/// The text that names an error kind.
pub open spec fn kind_text(k: ErrorKind) -> Seq<char> {
    match k {
        ErrorKind::InvalidInput => "Invalid input"@,
        ErrorKind::MissingParameter => "Missing parameter"@,
        ErrorKind::InvalidState => "Invalid state"@,
        ErrorKind::OutOfBounds => "Out of bounds"@,
        ErrorKind::NotFound => "Not found"@,
        ErrorKind::AlreadyExists => "Already exists"@,
        ErrorKind::LockContention => "Lock contention"@,
        ErrorKind::Timeout => "Timeout"@,
        ErrorKind::Deadlock => "Deadlock detected"@,
        ErrorKind::ChannelSend => "Channel send error"@,
        ErrorKind::ChannelReceive => "Channel receive error"@,
        ErrorKind::CapacityExceeded => "Capacity exceeded"@,
        ErrorKind::TimerDrift => "Timer drift"@,
        ErrorKind::HeartbeatMissed => "Heartbeat missed"@,
        ErrorKind::ClockSync => "Clock sync error"@,
        ErrorKind::InvalidTimestamp => "Invalid timestamp"@,
        ErrorKind::BufferEmpty => "Buffer empty"@,
        ErrorKind::BufferFull => "Buffer full"@,
        ErrorKind::InvalidPosition => "Invalid position"@,
        ErrorKind::HashMapError => "Hash map error"@,
        ErrorKind::AllocationFailed => "Allocation failed"@,
        ErrorKind::InvalidLayout => "Invalid layout"@,
        ErrorKind::CacheMiss => "Cache miss"@,
        ErrorKind::Io => "I/O error"@,
        ErrorKind::Config => "Configuration error"@,
        ErrorKind::Serialization => "Serialization error"@,
        ErrorKind::SystemError => "System error"@,
        ErrorKind::PermissionDenied => "Permission denied"@,
        ErrorKind::ResourceExhausted => "Resource exhausted"@,
        ErrorKind::Interrupted => "Interrupted"@,
        ErrorKind::InvariantViolation => "Invariant violation"@,
        ErrorKind::InternalError => "Internal error"@,
        ErrorKind::NotImplemented => "Not implemented"@,
    }
}

/// Kinds that can be handled and the operation retried.
pub open spec fn recoverable_kind(k: ErrorKind) -> bool {
    k == ErrorKind::Timeout || k == ErrorKind::LockContention || k == ErrorKind::CapacityExceeded || k == ErrorKind::ResourceExhausted || k == ErrorKind::Interrupted || k == ErrorKind::CacheMiss
}

/// Kinds that may resolve themselves after a delay.
pub open spec fn transient_kind(k: ErrorKind) -> bool {
    k == ErrorKind::Timeout || k == ErrorKind::LockContention || k == ErrorKind::Interrupted
}

/// Kinds that require system-level intervention.
pub open spec fn fatal_kind(k: ErrorKind) -> bool {
    k == ErrorKind::Deadlock || k == ErrorKind::InvariantViolation || k == ErrorKind::AllocationFailed || k == ErrorKind::SystemError
}

/// The kinds that are worth retrying or handling with a fallback are
/// exactly timeouts, lock contention, exceeded capacity, exhausted
/// resources, interruptions and cache misses. Every transient kind is among
/// them, and no fatal kind is.
pub proof fn lemma_recoverable_kinds(k: ErrorKind)
    ensures
        recoverable_kind(k) <==> set![
            ErrorKind::Timeout,
            ErrorKind::LockContention,
            ErrorKind::CapacityExceeded,
            ErrorKind::ResourceExhausted,
            ErrorKind::Interrupted,
            ErrorKind::CacheMiss,
        ].contains(k),
        transient_kind(k) ==> recoverable_kind(k),
        fatal_kind(k) ==> !recoverable_kind(k),
        transient_kind(k) <==> set![ErrorKind::Timeout, ErrorKind::LockContention, ErrorKind::Interrupted].contains(k),
        fatal_kind(k) <==> set![
            ErrorKind::Deadlock,
            ErrorKind::InvariantViolation,
            ErrorKind::AllocationFailed,
            ErrorKind::SystemError,
        ].contains(k),
{
}

/// The severity level of each error kind.
pub open spec fn kind_severity(k: ErrorKind) -> ErrorSeverity {
    if k == ErrorKind::InvalidInput || k == ErrorKind::MissingParameter || k == ErrorKind::NotFound || k == ErrorKind::AlreadyExists {
        ErrorSeverity::Warning
    } else if k == ErrorKind::LockContention || k == ErrorKind::Timeout || k == ErrorKind::CapacityExceeded || k == ErrorKind::BufferEmpty || k == ErrorKind::CacheMiss {
        ErrorSeverity::Info
    } else if k == ErrorKind::InvariantViolation || k == ErrorKind::InternalError || k == ErrorKind::NotImplemented {
        ErrorSeverity::Critical
    } else {
        ErrorSeverity::Error
    }
}

impl ErrorKind {
    /// Returns `true` if this error kind represents a recoverable error.
    pub fn is_recoverable(&self) -> (r: bool)
        ensures
            r == recoverable_kind(*self),
    {
        match self {
            ErrorKind::Timeout
            | ErrorKind::LockContention
            | ErrorKind::CapacityExceeded
            | ErrorKind::ResourceExhausted
            | ErrorKind::Interrupted
            | ErrorKind::CacheMiss => true,
            _ => false,
        }
    }

    /// Returns `true` if this error kind indicates a transient condition.
    pub fn is_transient(&self) -> (r: bool)
        ensures
            r == transient_kind(*self),
    {
        match self {
            ErrorKind::Timeout | ErrorKind::LockContention | ErrorKind::Interrupted => true,
            _ => false,
        }
    }

    /// Returns `true` if this error kind indicates a fatal condition.
    pub fn is_fatal(&self) -> (r: bool)
        ensures
            r == fatal_kind(*self),
    {
        match self {
            ErrorKind::Deadlock
            | ErrorKind::InvariantViolation
            | ErrorKind::AllocationFailed
            | ErrorKind::SystemError => true,
            _ => false,
        }
    }

    /// Returns the severity level for this error kind.
    pub fn severity(&self) -> (r: ErrorSeverity)
        ensures
            r == kind_severity(*self),
    {
        match self {
            ErrorKind::InvalidInput
            | ErrorKind::MissingParameter
            | ErrorKind::NotFound
            | ErrorKind::AlreadyExists => ErrorSeverity::Warning,
            ErrorKind::LockContention
            | ErrorKind::Timeout
            | ErrorKind::CapacityExceeded
            | ErrorKind::BufferEmpty
            | ErrorKind::CacheMiss => ErrorSeverity::Info,
            ErrorKind::InvariantViolation
            | ErrorKind::InternalError
            | ErrorKind::NotImplemented => ErrorSeverity::Critical,
            _ => ErrorSeverity::Error,
        }
    }

    /// The text that names this kind, as the error display shows it.
    pub fn as_str(&self) -> (r: &'static str)
        ensures
            r@ == kind_text(*self),
    {
        match self {
            ErrorKind::InvalidInput => "Invalid input",
            ErrorKind::MissingParameter => "Missing parameter",
            ErrorKind::InvalidState => "Invalid state",
            ErrorKind::OutOfBounds => "Out of bounds",
            ErrorKind::NotFound => "Not found",
            ErrorKind::AlreadyExists => "Already exists",
            ErrorKind::LockContention => "Lock contention",
            ErrorKind::Timeout => "Timeout",
            ErrorKind::Deadlock => "Deadlock detected",
            ErrorKind::ChannelSend => "Channel send error",
            ErrorKind::ChannelReceive => "Channel receive error",
            ErrorKind::CapacityExceeded => "Capacity exceeded",
            ErrorKind::TimerDrift => "Timer drift",
            ErrorKind::HeartbeatMissed => "Heartbeat missed",
            ErrorKind::ClockSync => "Clock sync error",
            ErrorKind::InvalidTimestamp => "Invalid timestamp",
            ErrorKind::BufferEmpty => "Buffer empty",
            ErrorKind::BufferFull => "Buffer full",
            ErrorKind::InvalidPosition => "Invalid position",
            ErrorKind::HashMapError => "Hash map error",
            ErrorKind::AllocationFailed => "Allocation failed",
            ErrorKind::InvalidLayout => "Invalid layout",
            ErrorKind::CacheMiss => "Cache miss",
            ErrorKind::Io => "I/O error",
            ErrorKind::Config => "Configuration error",
            ErrorKind::Serialization => "Serialization error",
            ErrorKind::SystemError => "System error",
            ErrorKind::PermissionDenied => "Permission denied",
            ErrorKind::ResourceExhausted => "Resource exhausted",
            ErrorKind::Interrupted => "Interrupted",
            ErrorKind::InvariantViolation => "Invariant violation",
            ErrorKind::InternalError => "Internal error",
            ErrorKind::NotImplemented => "Not implemented",
        }
    }
}

/// Severity levels for errors.
#[derive(Debug, Clone, Copy, PartialEq, Eq, PartialOrd, Ord, Hash, Structural)]
pub enum ErrorSeverity {
    /// Informational - no action required.
    Info,
    /// Warning - may require attention.
    Warning,
    /// Error - operation failed, recovery possible.
    Error,
    /// Critical - system integrity at risk.
    Critical,
}

/// The rank of a severity, from `Info` (0) up to `Critical` (3).
pub open spec fn severity_rank(s: ErrorSeverity) -> int {
    match s {
        ErrorSeverity::Info => 0,
        ErrorSeverity::Warning => 1,
        ErrorSeverity::Error => 2,
        ErrorSeverity::Critical => 3,
    }
}

/// The text that names a severity.
pub open spec fn severity_text(s: ErrorSeverity) -> Seq<char> {
    match s {
        ErrorSeverity::Info => "INFO"@,
        ErrorSeverity::Warning => "WARN"@,
        ErrorSeverity::Error => "ERROR"@,
        ErrorSeverity::Critical => "CRITICAL"@,
    }
}

impl ErrorSeverity {
    /// The text that names this severity, as the display shows it.
    pub fn as_str(&self) -> (r: &'static str)
        ensures
            r@ == severity_text(*self),
    {
        match self {
            ErrorSeverity::Info => "INFO",
            ErrorSeverity::Warning => "WARN",
            ErrorSeverity::Error => "ERROR",
            ErrorSeverity::Critical => "CRITICAL",
        }
    }
}

/// Type alias for slot identifiers in typed buffers.
pub type SlotId = u64;

/// The canonical result type for NEXUS utilities.
pub type NexusResult<T> = Result<T, NexusError>;

/// Structured context attached to an error.
#[derive(Debug, Clone)]
pub enum ErrorContext {
    /// A free-form note, such as the one `ResultExt::context` adds.
    Message(String),
    /// Details of a lock timeout.
    LockTimeout(LockTimeoutContext),
    /// Details of a namespace violation.
    NamespaceViolation(NamespaceViolationContext),
    /// Details of a dependency cycle.
    DependencyCycle(DependencyCycleContext),
    /// Details of a heartbeat timeout.
    HeartbeatTimeout(HeartbeatTimeoutContext),
}

/// An error with a kind, a message, an optional source error, an optional
/// backtrace and optional structured context.
#[derive(Debug)]
pub struct NexusError {
    kind: ErrorKind,
    message: String,
    source: Option<Box<NexusError>>,
    backtrace: Option<Arc<std::backtrace::Backtrace>>,
    context: Option<ErrorContext>,
}

impl NexusError {
    /// The kind of this error.
    pub closed spec fn spec_kind(&self) -> ErrorKind {
        self.kind
    }

    /// The message of this error.
    pub closed spec fn spec_message(&self) -> Seq<char> {
        self.message@
    }

    /// The source error of this error, if any.
    pub closed spec fn spec_source(&self) -> Option<NexusError> {
        match self.source {
            Some(b) => Some(*b),
            None => None,
        }
    }

    /// Whether a backtrace was captured.
    pub closed spec fn spec_has_backtrace(&self) -> bool {
        self.backtrace is Some
    }

    /// The structured context of this error, if any.
    pub closed spec fn spec_context(&self) -> Option<ErrorContext> {
        self.context
    }

    /// This error followed by its source, its source's source, and so on.
    pub closed spec fn chain_errors(&self) -> Seq<NexusError>
        decreases self,
    {
        match self.source {
            Some(b) => seq![*self] + (*b).chain_errors(),
            None => seq![*self],
        }
    }

    /// Whether this error or any error in its source chain carries a
    /// backtrace.
    pub closed spec fn chain_has_backtrace(&self) -> bool
        decreases self,
    {
        match self.source {
            Some(b) => self.backtrace is Some || (*b).chain_has_backtrace(),
            None => self.backtrace is Some,
        }
    }

    /// The first line of this error's text: its kind, a colon, its message.
    pub open spec fn head_text(&self) -> Seq<char> {
        kind_text(self.spec_kind()) + ": "@ + self.spec_message()
    }

    /// The text of this error where no backtrace is carried: the head, then
    /// for each source in turn an indented "caused by:" line with its text.
    pub closed spec fn display_text(&self) -> Seq<char>
        decreases self,
    {
        match self.source {
            Some(b) => self.head_text() + "\n  caused by: "@ + (*b).display_text(),
            None => self.head_text(),
        }
    }

    /// One step of `display_text` and `chain_has_backtrace`: the head and the
    /// source's text; this error's backtrace or one in the source chain.
    pub proof fn lemma_display_text_step(&self)
        ensures
            self.spec_source() is None ==> self.display_text() == self.head_text(),
            self.spec_source() matches Some(src) ==> self.display_text() == self.head_text()
                + "\n  caused by: "@ + src.display_text(),
            self.chain_has_backtrace() == (self.spec_has_backtrace() || (
            self.spec_source() matches Some(src) && src.chain_has_backtrace())),
    {
    }

    /// The text of this error: the head; then, where there is a source,
    /// "caused by:" and the source's own text; then, where a backtrace was
    /// captured, the backtrace. Whether or not any error of the chain carries
    /// a backtrace, the text begins with the whole cause chain.
    pub fn to_display_string(&self) -> (r: String)
        ensures
            !self.chain_has_backtrace() ==> r@ == self.display_text(),
            r@.len() >= self.display_text().len(),
            r@.subrange(0, self.display_text().len() as int) == self.display_text(),
            r@.len() >= self.head_text().len(),
            r@.subrange(0, self.head_text().len() as int) == self.head_text(),
            self.spec_source() matches Some(src) ==> ({
                let lead = self.head_text() + "\n  caused by: "@ + src.display_text();
                &&& r@.len() >= lead.len()
                &&& r@.subrange(0, lead.len() as int) == lead
            }),
        decreases self,
    {
        proof {
            reveal_strlit(": ");
            reveal_strlit("\n  caused by: ");
        }
        let mut s = String::from_str(self.kind.as_str());
        s.append(": ");
        s.append(self.message.as_str());
        let ghost head = s@;
        assert(head =~= self.head_text());
        match &self.source {
            Some(b) => {
                s.append("\n  caused by: ");
                let ghost lead = s@;
                let inner = b.to_display_string();
                s.append(inner.as_str());
                proof {
                    let src_text = (**b).display_text();
                    assert(s@ =~= lead + inner@);
                    assert(lead =~= head + "\n  caused by: "@);
                    assert(inner@.subrange(0, src_text.len() as int) =~= src_text);
                    assert(s@.subrange(0, (lead.len() + src_text.len()) as int) =~= lead
                        + src_text);
                }
            },
            None => {},
        }
        let ghost text = s@;
        assert(text.subrange(0, self.display_text().len() as int) =~= self.display_text());
        match &self.backtrace {
            Some(bt) => {
                s.append("\n\nBacktrace:\n");
                let text = crate::outside::backtrace_string(bt);
                s.append(text.as_str());
            },
            None => {},
        }
        assert(s@.subrange(0, text.len() as int) =~= text);
        assert(s@.subrange(0, self.display_text().len() as int) =~= self.display_text());
        assert(s@.subrange(0, head.len() as int) =~= head);
        s
    }

    /// The source of an error is smaller than the error, so definitions may
    /// recurse on it.
    pub proof fn lemma_source_smaller(&self)
        ensures
            self.spec_source() matches Some(s) ==> decreases_to!(*self => s),
    {
        match self.source {
            Some(b) => {
                assert(decreases_to!(*self => self.source));
            },
            None => {},
        }
    }

    /// The chain of errors starts with the error itself and then follows the
    /// source chain.
    pub proof fn lemma_chain_shape(&self)
        ensures
            self.chain_errors().len() >= 1,
            self.chain_errors()[0] == *self,
            self.spec_source() is None ==> self.chain_errors().len() == 1,
            self.spec_source() matches Some(src) ==> self.chain_errors() == seq![*self]
                + src.chain_errors(),
        decreases self,
    {
        match self.source {
            Some(b) => {
                (*b).lemma_chain_shape();
            },
            None => {},
        }
    }

    /// Creates a new error with the given kind and message, capturing a
    /// backtrace.
    pub fn new(kind: ErrorKind, message: &str) -> (r: Self)
        ensures
            r.spec_kind() == kind,
            r.spec_message() == message@,
            r.spec_source() is None,
            r.spec_has_backtrace(),
            r.spec_context() is None,
    {
        NexusError {
            kind,
            message: String::from_str(message),
            source: None,
            backtrace: Some(Arc::new(crate::outside::capture_backtrace())),
            context: None,
        }
    }

    /// Creates a new error without capturing a backtrace.
    pub fn new_no_backtrace(kind: ErrorKind, message: &str) -> (r: Self)
        ensures
            r.spec_kind() == kind,
            r.spec_message() == message@,
            r.spec_source() is None,
            !r.spec_has_backtrace(),
            r.spec_context() is None,
    {
        NexusError { kind, message: String::from_str(message), source: None, backtrace: None, context: None }
    }

    /// Adds a source error to create an error chain.
    pub fn with_source(self, source: NexusError) -> (r: Self)
        ensures
            r.spec_kind() == self.spec_kind(),
            r.spec_message() == self.spec_message(),
            r.spec_source() == Some(source),
            r.spec_has_backtrace() == self.spec_has_backtrace(),
            r.spec_context() == self.spec_context(),
    {
        let mut e = self;
        e.source = Some(Box::new(source));
        e
    }

    /// Adds context data to this error.
    pub fn with_context(self, context: ErrorContext) -> (r: Self)
        ensures
            r.spec_kind() == self.spec_kind(),
            r.spec_message() == self.spec_message(),
            r.spec_source() == self.spec_source(),
            r.spec_has_backtrace() == self.spec_has_backtrace(),
            r.spec_context() == Some(context),
    {
        let mut e = self;
        e.context = Some(context);
        e
    }

    /// Returns the error kind.
    pub fn kind(&self) -> (r: ErrorKind)
        ensures
            r == self.spec_kind(),
    {
        self.kind
    }

    /// Returns the error message.
    pub fn message(&self) -> (r: &str)
        ensures
            r@ == self.spec_message(),
    {
        self.message.as_str()
    }

    /// Returns the source error if present.
    pub fn source_error(&self) -> (r: Option<&NexusError>)
        ensures
            r is Some == self.spec_source() is Some,
            r is Some ==> *(r->0) == self.spec_source()->0,
    {
        match &self.source {
            Some(b) => Some(&**b),
            None => None,
        }
    }

    /// Returns the backtrace if one was captured.
    pub fn backtrace(&self) -> (r: Option<&std::backtrace::Backtrace>)
        ensures
            r is Some == self.spec_has_backtrace(),
    {
        match &self.backtrace {
            Some(b) => Some(&**b),
            None => None,
        }
    }

    /// Returns the structured context, if any.
    pub fn get_context(&self) -> (r: Option<&ErrorContext>)
        ensures
            r is Some == self.spec_context() is Some,
            r is Some ==> *(r->0) == self.spec_context()->0,
    {
        match &self.context {
            Some(c) => Some(c),
            None => None,
        }
    }

    /// Returns the full error chain: this error, then its source, then the
    /// source's source, and so on.
    pub fn chain(&self) -> (r: Vec<&NexusError>)
        ensures
            r@.len() == self.chain_errors().len(),
            forall|i: int| 0 <= i < r@.len() ==> *(#[trigger] r@[i]) == self.chain_errors()[i],
    {
        let mut chain: Vec<&NexusError> = Vec::new();
        chain.push(self);
        proof {
            self.lemma_chain_shape();
        }
        let mut current = self.source_error();
        loop
            invariant
                chain@.len() >= 1,
                current matches Some(c) ==> chain@.len() + c.chain_errors().len() == self.chain_errors().len(),
                current is None ==> chain@.len() == self.chain_errors().len(),
                forall|i: int| 0 <= i < chain@.len() ==> *(#[trigger] chain@[i]) == self.chain_errors()[i],
                current matches Some(c) ==> forall|i: int|
                    0 <= i < c.chain_errors().len() ==> #[trigger] c.chain_errors()[i]
                        == self.chain_errors()[chain@.len() + i],
            ensures
                chain@.len() == self.chain_errors().len(),
                forall|i: int| 0 <= i < chain@.len() ==> *(#[trigger] chain@[i]) == self.chain_errors()[i],
            decreases
                match current {
                    Some(c) => c.chain_errors().len(),
                    None => 0,
                },
        {
            match current {
                Some(err) => {
                    proof {
                        err.lemma_chain_shape();
                        assert(err.chain_errors()[0] == self.chain_errors()[chain@.len() as int]);
                        match err.spec_source() {
                            Some(src) => {
                                src.lemma_chain_shape();
                                assert forall|i: int| 0 <= i < src.chain_errors().len() implies #[trigger] src.chain_errors()[i]
                                    == self.chain_errors()[chain@.len() + 1 + i] by {
                                    assert(err.chain_errors()[i + 1] == src.chain_errors()[i]);
                                }
                            },
                            None => {},
                        }
                    }
                    chain.push(err);
                    current = err.source_error();
                },
                None => {
                    break;
                },
            }
        }
        chain
    }

    /// Returns `true` if this error or any error in its source chain has the
    /// given kind.
    pub fn has_kind(&self, kind: ErrorKind) -> (r: bool)
        ensures
            r == exists|i: int| 0 <= i < self.chain_errors().len() && (#[trigger] self.chain_errors()[i]).spec_kind()
                == kind,
        decreases self,
    {
        proof {
            self.lemma_chain_shape();
        }
        if self.kind == kind {
            assert(self.chain_errors()[0].spec_kind() == kind);
            return true;
        }
        match &self.source {
            Some(b) => {
                let r = (&**b).has_kind(kind);
                proof {
                    let src = *b;
                    assert(self.chain_errors() == seq![*self] + src.chain_errors());
                    if r {
                        let i = choose|i: int| 0 <= i < src.chain_errors().len() && (#[trigger] src.chain_errors()[i]).spec_kind() == kind;
                        assert(self.chain_errors()[i + 1] == src.chain_errors()[i]);
                    } else {
                        assert forall|i: int| 0 <= i < self.chain_errors().len() implies (#[trigger] self.chain_errors()[i]).spec_kind() != kind by {
                            if i > 0 {
                                assert(self.chain_errors()[i] == src.chain_errors()[i - 1]);
                            }
                        }
                    }
                }
                r
            },
            None => {
                assert forall|i: int| 0 <= i < self.chain_errors().len() implies (#[trigger] self.chain_errors()[i]).spec_kind() != kind by {
                    assert(i == 0);
                }
                false
            },
        }
    }
}

/// The same context: the same variant with the same field values (texts
/// and paths compared by their contents).
pub open spec fn same_context(a: ErrorContext, b: ErrorContext) -> bool {
    match (a, b) {
        (ErrorContext::Message(x), ErrorContext::Message(y)) => x@ == y@,
        (ErrorContext::LockTimeout(x), ErrorContext::LockTimeout(y)) => x.slot_id == y.slot_id
            && x.slot_name@ == y.slot_name@ && x.holder_agent_id == y.holder_agent_id
            && x.holder_thread_id == y.holder_thread_id,
        (ErrorContext::NamespaceViolation(x), ErrorContext::NamespaceViolation(y)) => x == y,
        (ErrorContext::DependencyCycle(x), ErrorContext::DependencyCycle(y)) => x.goal_id
            == y.goal_id && x.cycle_path@ == y.cycle_path@,
        (ErrorContext::HeartbeatTimeout(x), ErrorContext::HeartbeatTimeout(y)) => x == y,
        _ => false,
    }
}

/// The same error: the same kind, message, backtrace presence and context,
/// and the same source chain, error by error.
pub open spec fn same_error(a: NexusError, b: NexusError) -> bool
    decreases a,
{
    &&& a.spec_kind() == b.spec_kind()
    &&& a.spec_message() == b.spec_message()
    &&& a.spec_has_backtrace() == b.spec_has_backtrace()
    &&& match (a.spec_context(), b.spec_context()) {
        (Some(x), Some(y)) => same_context(x, y),
        (None, None) => true,
        _ => false,
    }
    &&& match (a.spec_source(), b.spec_source()) {
        (Some(x), Some(y)) => {
            proof {
                a.lemma_source_smaller();
            }
            same_error(x, y)
        },
        (None, None) => true,
        _ => false,
    }
}

fn copy_context(c: &ErrorContext) -> (r: ErrorContext)
    ensures
        same_context(*c, r),
{
    match c {
        ErrorContext::Message(m) => ErrorContext::Message(String::from_str(m.as_str())),
        ErrorContext::LockTimeout(x) => ErrorContext::LockTimeout(
            LockTimeoutContext {
                slot_id: x.slot_id,
                slot_name: String::from_str(x.slot_name.as_str()),
                holder_agent_id: x.holder_agent_id,
                holder_thread_id: x.holder_thread_id,
            },
        ),
        ErrorContext::NamespaceViolation(x) => ErrorContext::NamespaceViolation(
            NamespaceViolationContext {
                goal_id: x.goal_id,
                slot_id: x.slot_id,
                agent_id: x.agent_id,
                operation: x.operation,
                actual_namespace: x.actual_namespace,
            },
        ),
        ErrorContext::DependencyCycle(x) => ErrorContext::DependencyCycle(
            DependencyCycleContext {
                goal_id: x.goal_id,
                cycle_path: vstd::slice::slice_to_vec(x.cycle_path.as_slice()),
            },
        ),
        ErrorContext::HeartbeatTimeout(x) => ErrorContext::HeartbeatTimeout(
            HeartbeatTimeoutContext { last_heartbeat: x.last_heartbeat, elapsed_ms: x.elapsed_ms },
        ),
    }
}

/// Copies an error together with its whole source chain.
fn clone_error(e: &NexusError) -> (r: NexusError)
    ensures
        same_error(*e, r),
    decreases e,
{
    let source = match &e.source {
        Some(b) => Some(Box::new(clone_error(&**b))),
        None => None,
    };
    let backtrace = match &e.backtrace {
        Some(b) => Some(Arc::clone(b)),
        None => None,
    };
    let context = match &e.context {
        Some(c) => Some(copy_context(c)),
        None => None,
    };
    let r = NexusError { kind: e.kind, message: String::from_str(e.message.as_str()), source, backtrace, context };
    proof {
        e.lemma_source_smaller();
    }
    r
}

impl Clone for NexusError {
    /// A copy with the same kind, message, backtrace presence and context,
    /// and a copy of the whole source chain.
    fn clone(&self) -> (r: Self)
        ensures
            r.spec_kind() == self.spec_kind(),
            r.spec_message() == self.spec_message(),
            r.spec_has_backtrace() == self.spec_has_backtrace(),
            same_error(*self, r),
    {
        clone_error(self)
    }
}

/// Access operations on typed buffers.
#[derive(Debug, Clone, Copy, PartialEq, Eq, Hash, Structural)]
pub enum AccessOp {
    /// Read operation on a buffer slot.
    Read,
    /// Write operation on a buffer slot.
    Write,
    /// Append operation on a buffer slot.
    Append,
    /// Compute operation on a buffer slot.
    Compute,
}

/// The text that names an access operation.
pub open spec fn access_op_text(op: AccessOp) -> Seq<char> {
    match op {
        AccessOp::Read => "read"@,
        AccessOp::Write => "write"@,
        AccessOp::Append => "append"@,
        AccessOp::Compute => "compute"@,
    }
}

impl AccessOp {
    /// The text that names this operation, as the display shows it.
    pub fn as_str(&self) -> (r: &'static str)
        ensures
            r@ == access_op_text(*self),
    {
        match self {
            AccessOp::Read => "read",
            AccessOp::Write => "write",
            AccessOp::Append => "append",
            AccessOp::Compute => "compute",
        }
    }
}

/// A timed lock acquisition failed; names the slot and, when known, who
/// holds the lock.
#[derive(Debug, Clone)]
pub struct LockTimeoutError {
    /// The slot identifier (for typed buffer slots).
    pub slot_id: SlotId,
    /// Human-readable slot name.
    pub slot_name: String,
    /// The agent that holds the lock, if known.
    pub holder_agent_id: Option<u64>,
    /// The thread that holds the lock, if known.
    pub holder_thread_id: Option<u64>,
    /// How long the acquisition waited.
    pub timeout_duration: Duration,
}

impl LockTimeoutError {
    /// Creates a lock timeout error for the named slot, with slot ID 0 and
    /// no holder known.
    pub fn new(slot_name: &str, timeout_duration: Duration) -> (r: Self)
        ensures
            r.slot_id == 0,
            r.slot_name@ == slot_name@,
            r.holder_agent_id is None,
            r.holder_thread_id is None,
            r.timeout_duration == timeout_duration,
    {
        LockTimeoutError {
            slot_id: 0,
            slot_name: String::from_str(slot_name),
            holder_agent_id: None,
            holder_thread_id: None,
            timeout_duration,
        }
    }

    /// Sets the slot ID.
    pub fn with_slot_id(self, slot_id: SlotId) -> (r: Self)
        ensures
            r.slot_id == slot_id,
            r.slot_name@ == self.slot_name@,
            r.holder_agent_id == self.holder_agent_id,
            r.holder_thread_id == self.holder_thread_id,
            r.timeout_duration == self.timeout_duration,
    {
        let mut e = self;
        e.slot_id = slot_id;
        e
    }

    /// Sets the agent that holds the lock.
    pub fn with_holder_agent(self, agent_id: u64) -> (r: Self)
        ensures
            r.slot_id == self.slot_id,
            r.slot_name@ == self.slot_name@,
            r.holder_agent_id == Some(agent_id),
            r.holder_thread_id == self.holder_thread_id,
            r.timeout_duration == self.timeout_duration,
    {
        let mut e = self;
        e.holder_agent_id = Some(agent_id);
        e
    }

    /// Sets the thread that holds the lock.
    pub fn with_holder_thread(self, thread_id: u64) -> (r: Self)
        ensures
            r.slot_id == self.slot_id,
            r.slot_name@ == self.slot_name@,
            r.holder_agent_id == self.holder_agent_id,
            r.holder_thread_id == Some(thread_id),
            r.timeout_duration == self.timeout_duration,
    {
        let mut e = self;
        e.holder_thread_id = Some(thread_id);
        e
    }
}

/// Context for lock timeout errors.
#[derive(Debug, Clone)]
pub struct LockTimeoutContext {
    pub slot_id: SlotId,
    pub slot_name: String,
    pub holder_agent_id: Option<u64>,
    pub holder_thread_id: Option<u64>,
}

/// Error indicating a namespace violation in typed buffer access.
#[derive(Debug, Clone)]
pub struct NamespaceViolationError {
    /// The goal ID that triggered the violation.
    pub goal_id: u64,
    /// The slot that was being accessed.
    pub slot_id: SlotId,
    /// The agent ID that attempted the access.
    pub agent_id: u64,
    /// The operation that was attempted.
    pub operation: AccessOp,
    /// The expected namespace, if known.
    pub expected_namespace: Option<u64>,
    /// The actual namespace of the agent.
    pub actual_namespace: u64,
}

/// Context for namespace violation errors.
#[derive(Debug, Clone)]
pub struct NamespaceViolationContext {
    pub goal_id: u64,
    pub slot_id: SlotId,
    pub agent_id: u64,
    pub operation: AccessOp,
    pub actual_namespace: u64,
}

/// Error indicating a goal dependency cycle was detected.
#[derive(Debug, Clone)]
pub struct DependencyCycleError {
    /// The goal ID where the cycle was detected.
    pub goal_id: u64,
    /// The chain of goals forming the cycle.
    pub cycle_path: Vec<u64>,
}

/// Context for dependency cycle errors.
#[derive(Debug, Clone)]
pub struct DependencyCycleContext {
    pub goal_id: u64,
    pub cycle_path: Vec<u64>,
}

/// Error indicating a heartbeat timeout from the cognitive kernel.
#[derive(Debug, Clone)]
pub struct HeartbeatTimeoutError {
    /// The last known heartbeat timestamp.
    pub last_heartbeat: u64,
    /// The expected heartbeat interval in milliseconds.
    pub expected_interval_ms: u64,
    /// The actual time since last heartbeat in milliseconds.
    pub elapsed_ms: u64,
    /// The threshold beyond which the kernel is considered stalled.
    pub stall_threshold_ms: u64,
}

/// Context for heartbeat timeout errors.
#[derive(Debug, Clone)]
pub struct HeartbeatTimeoutContext {
    pub last_heartbeat: u64,
    pub elapsed_ms: u64,
}

} // verus!
