use vstd::prelude::*;

verus! {

/// The kinds of failure that a boot can meet, one per operation that can fail.
#[derive(Clone, Copy, Debug, PartialEq, Eq, Structural)]
pub enum Failure {
    Mount,
    ConsoleOpen,
    ModuleLoad,
    ChannelConnect,
    ChannelSend,
    ChannelReceive,
    ChannelClose,
    DeviceInit,
    DeviceSample,
    SeedOpen,
    SeedWrite,
}

/// The root cause of a failed operation, as the operating system reported it.
#[derive(Clone, Debug)]
pub struct SystemError {
    pub message: String,
}

/// The outcome of an operation as the boot logic sees it: the bytes read,
/// or the message of the operating system's error.
pub open spec fn outcome_view(outcome: Result<Vec<u8>, SystemError>) -> Result<Seq<u8>, Seq<char>> {
    match outcome {
        Ok(bytes) => Ok(bytes@),
        Err(e) => Err(e.message@),
    }
}

/// A failure with its context chain: outermost context first, root cause last,
/// each link separated by `": "`.
#[derive(Clone, Debug)]
pub struct Report {
    failure: Failure,
    message: String,
}

/// What a report says: its kind and its whole context chain.
pub struct ErrorView {
    pub failure: Failure,
    pub message: Seq<char>,
}

/// The separator between two links of a context chain.
pub open spec fn chained(outer: Seq<char>, inner: Seq<char>) -> Seq<char> {
    outer + seq![':', ' '] + inner
}

impl Report {
    pub fn new(failure: Failure, message: String) -> (r: Report)
        ensures
            r.failure() == failure,
            r.message_view() == message@,
    {
        Report { failure, message }
    }

    /// A failure whose root cause is `cause`, described by `what`.
    pub fn caused_by(failure: Failure, what: &str, cause: &SystemError) -> (r: Report)
        ensures
            r.failure() == failure,
            r.message_view() == chained(what@, cause.message@),
    {
        let mut message = String::from_str(what);
        message.append(": ");
        message.append(cause.message.as_str());
        proof {
            reveal_strlit(": ");
        }
        Report { failure, message }
    }

    pub closed spec fn failure(&self) -> Failure {
        self.failure
    }

    pub closed spec fn message_view(&self) -> Seq<char> {
        self.message@
    }

    pub open spec fn error_view(&self) -> ErrorView {
        ErrorView { failure: self.failure(), message: self.message_view() }
    }

    /// Wraps the chain in one more, outer, context.
    pub fn context(self, context: &str) -> (r: Report)
        ensures
            r.failure() == self.failure(),
            r.message_view() == chained(context@, self.message_view()),
    {
        let mut message = String::from_str(context);
        message.append(": ");
        message.append(self.message.as_str());
        proof {
            reveal_strlit(": ");
        }
        Report { failure: self.failure, message }
    }

    pub fn kind(&self) -> (r: Failure)
        ensures
            r == self.failure(),
    {
        self.failure
    }

    pub fn cloned(&self) -> (r: Report)
        ensures
            r.failure() == self.failure(),
            r.message_view() == self.message_view(),
    {
        Report { failure: self.failure, message: self.message.clone() }
    }

    /// The whole chain as one line of text.
    pub fn to_string(&self) -> (r: String)
        ensures
            r@ == self.message_view(),
    {
        self.message.clone()
    }
}

/// Attaching context to the error of a result.
pub trait Context<T>: Sized {
    spec fn context_spec(self, context: Seq<char>, r: Result<T, Report>) -> bool;

    /// Whether there is an error to wrap.
    spec fn is_failure(self) -> bool;

    fn context(self, context: &str) -> (r: Result<T, Report>)
        ensures
            self.context_spec(context@, r),
    ;

    /// As `context`, with the context computed, once, only where there is an
    /// error to wrap.
    fn with_context<F: FnOnce() -> String>(self, context_fn: F) -> (r: Result<T, Report>)
        requires
            context_fn.requires(()),
        ensures
            exists|c: String|
                (self.is_failure() ==> context_fn.ensures((), c)) && self.context_spec(c@, r),
    ;
}

impl<T> Context<T> for Result<T, Report> {
    open spec fn context_spec(self, context: Seq<char>, r: Result<T, Report>) -> bool {
        match self {
            Ok(v) => r == Ok::<T, Report>(v),
            Err(e) => match r {
                Ok(_) => false,
                Err(e2) => e2.failure() == e.failure() && e2.message_view() == chained(
                    context,
                    e.message_view(),
                ),
            },
        }
    }

    open spec fn is_failure(self) -> bool {
        self is Err
    }

    fn context(self, context: &str) -> (r: Result<T, Report>) {
        match self {
            Ok(v) => Ok(v),
            Err(e) => Err(e.context(context)),
        }
    }

    fn with_context<F: FnOnce() -> String>(self, context_fn: F) -> (r: Result<T, Report>) {
        match self {
            Ok(v) => {
                let r = Ok(v);
                assert(self.context_spec(arbitrary::<String>()@, r));
                r
            },
            Err(e) => {
                let c = context_fn();
                let r = Err(e.context(c.as_str()));
                assert(self.context_spec(c@, r));
                r
            },
        }
    }
}

} // verus!
