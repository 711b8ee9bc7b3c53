use vstd::prelude::*;

verus! {

/// A request from the host.
#[derive(Debug, Clone, Copy, PartialEq, Eq, Structural)]
pub struct Request;

/// A response of this agent.
#[derive(Debug, Clone, Copy, PartialEq, Eq, Structural)]
pub struct Response;

/// Why a decoded request produced no response value.
#[derive(Debug, Clone, Copy, PartialEq, Eq, Structural)]
pub enum AgentError {
    /// The handler ran and failed.
    Handler,
    /// The handler's response could not be encoded.
    Encode,
    /// The request's payload could not be decoded.
    Decode,
}

impl AgentError {
    /// The number that stands for this error in an error reply.
    pub open spec fn spec_code(self) -> u32 {
        match self {
            AgentError::Handler => 1,
            AgentError::Encode => 2,
            AgentError::Decode => 3,
        }
    }

    pub fn code(&self) -> (r: u32)
        ensures
            r == self.spec_code(),
    {
        match self {
            AgentError::Handler => 1,
            AgentError::Encode => 2,
            AgentError::Decode => 3,
        }
    }
}

/// One message of the duplex connection.
#[derive(Debug, Clone, PartialEq, Eq)]
pub enum Frame {
    Text(String),
    Binary(Vec<u8>),
    Ping(Vec<u8>),
    Pong(Vec<u8>),
    Close,
    /// A raw frame below the message level.
    Raw(Vec<u8>),
}

/// What the receive side does with one inbound frame.
#[derive(Debug, Clone, PartialEq, Eq)]
pub enum FrameAction {
    /// Decode the payload and run the handler on it, apart from the receive loop.
    Dispatch(Vec<u8>),
    /// Nothing to do at this level (the transport answers pings itself).
    Ignore,
    /// Queue a close frame.
    SendClose,
}

/// Decides what an inbound frame asks for.
pub fn process_message(message: Frame) -> (r: FrameAction)
    ensures
        message is Binary ==> r == FrameAction::Dispatch(message->Binary_0),
        (message is Ping || message is Pong) ==> r == FrameAction::Ignore,
        (message is Text || message is Close || message is Raw) ==> r == FrameAction::SendClose,
{
    match message {
        Frame::Binary(content) => FrameAction::Dispatch(content),
        Frame::Ping(_) => FrameAction::Ignore,
        Frame::Pong(_) => FrameAction::Ignore,
        _ => FrameAction::SendClose,
    }
}

/// The variant index that marks an error reply. A response is encoded as a
/// tagged record whose variant index is a little-endian `u32`; an error takes
/// the one index that no response variant uses.
pub const ERROR_VARIANT: u32 = 0xffff_ffff;

/// Whether a payload starts with the error variant's index.
pub open spec fn is_error_reply(p: Seq<u8>) -> bool {
    p.len() >= 4 && p.subrange(0, 4) == u32_le(ERROR_VARIANT)
}

/// The payload of the reply to one decoded request: the encoded response as
/// it is, or the error variant's index followed by the error's code, both as
/// little-endian `u32`.
pub open spec fn reply_payload(outcome: Result<Seq<u8>, AgentError>) -> Seq<u8> {
    match outcome {
        Ok(body) => body,
        Err(e) => u32_le(ERROR_VARIANT) + u32_le(e.spec_code()),
    }
}

/// The four little-endian bytes of `n`.
pub open spec fn u32_le(n: u32) -> Seq<u8> {
    seq![
        (n % 256) as u8,
        ((n / 256) % 256) as u8,
        ((n / 65536) % 256) as u8,
        ((n / 16777216) % 256) as u8,
    ]
}

fn u32_le_bytes(n: u32, out: &mut Vec<u8>)
    ensures
        final(out)@ == old(out)@ + u32_le(n),
{
    out.push((n % 256) as u8);
    out.push(((n / 256) % 256) as u8);
    out.push(((n / 65536) % 256) as u8);
    out.push(((n / 16777216) % 256) as u8);
    proof {
        assert(final(out)@ =~= old(out)@ + u32_le(n));
    }
}

/// Builds the one reply frame owed to a decoded request, whatever the handler
/// and the encoder made of it.
pub fn reply_frame(outcome: Result<Vec<u8>, AgentError>) -> (r: Frame)
    ensures
        r is Binary,
        r->Binary_0@ == reply_payload(
            match outcome {
                Ok(body) => Ok(body@),
                Err(e) => Err(e),
            },
        ),
{
    match outcome {
        Ok(body) => Frame::Binary(body),
        Err(e) => {
            let mut payload: Vec<u8> = Vec::new();
            u32_le_bytes(ERROR_VARIANT, &mut payload);
            u32_le_bytes(e.code(), &mut payload);
            Frame::Binary(payload)
        },
    }
}

/// Every decoded request gets exactly one reply, and the reply tells apart
/// every outcome: a success is the encoded response itself, an error never
/// looks like a response, and two different outcomes never give the same
/// payload. This holds of every response whose encoding does not start with
/// the error variant's index, which no response variant uses.
pub proof fn lemma_reply_identifies_outcome(a: Result<Seq<u8>, AgentError>, b: Result<Seq<u8>, AgentError>)
    requires
        a matches Ok(body) ==> !is_error_reply(body),
        b matches Ok(body) ==> !is_error_reply(body),
    ensures
        a matches Ok(body) ==> reply_payload(a) == body,
        a is Err ==> is_error_reply(reply_payload(a)),
        reply_payload(a) == reply_payload(b) <==> a == b,
{
    if let Err(e) = a {
        assert(reply_payload(a).subrange(0, 4) =~= u32_le(ERROR_VARIANT));
    }
    if let Err(e) = b {
        assert(reply_payload(b).subrange(0, 4) =~= u32_le(ERROR_VARIANT));
    }
    if reply_payload(a) == reply_payload(b) {
        match (a, b) {
            (Err(x), Err(y)) => {
                assert(reply_payload(a)[4] == reply_payload(b)[4]);
            },
            _ => {},
        }
    }
}

/// The handler of requests and the value handed to it on every call.
pub struct MessageCallback<D, C> {
    pub function: C,
    pub parameter: D,
}

/// Collects what an [`Agent`] needs before it can start.
pub struct AgentBuilder<D, C> {
    name: String,
    host_addr: Option<String>,
    message_callback: Option<MessageCallback<D, C>>,
}

impl<D, C> AgentBuilder<D, C> {
    pub closed spec fn spec_name(&self) -> Seq<char> {
        self.name@
    }

    pub closed spec fn spec_host(&self) -> Option<Seq<char>> {
        match self.host_addr {
            Some(h) => Some(h@),
            None => None,
        }
    }

    pub closed spec fn spec_callback(&self) -> Option<(C, D)> {
        match self.message_callback {
            Some(cb) => Some((cb.function, cb.parameter)),
            None => None,
        }
    }

    /// A builder with a name and nothing else set.
    pub fn new(name: String) -> (r: Self)
        ensures
            r.spec_name() == name@,
            r.spec_host() is None,
            r.spec_callback() is None,
    {
        AgentBuilder { name, host_addr: None, message_callback: None }
    }

    /// Sets the host address.
    pub fn host(self, addr: &str) -> (r: Self)
        ensures
            r.spec_name() == self.spec_name(),
            r.spec_host() == Some(addr@),
            r.spec_callback() == self.spec_callback(),
    {
        AgentBuilder {
            name: self.name,
            host_addr: Some(String::from_str(addr)),
            message_callback: self.message_callback,
        }
    }

    /// Sets the handler called for each request, and its parameter.
    pub fn set_callback(self, callback_fn: C, parameter: D) -> (r: Self)
        ensures
            r.spec_name() == self.spec_name(),
            r.spec_host() == self.spec_host(),
            r.spec_callback() == Some((callback_fn, parameter)),
    {
        AgentBuilder {
            name: self.name,
            host_addr: self.host_addr,
            message_callback: Some(MessageCallback { function: callback_fn, parameter }),
        }
    }

    /// The agent; both the host address and the handler must have been set.
    pub fn build(self) -> (r: Agent<D, C>)
        requires
            self.spec_host() is Some,
            self.spec_callback() is Some,
        ensures
            r.spec_name() == self.spec_name(),
            Some(r.spec_host()) == self.spec_host(),
            Some(r.spec_callback()) == self.spec_callback(),
    {
        Agent {
            name: self.name,
            host_addr: self.host_addr.unwrap(),
            message_callback: self.message_callback.unwrap(),
        }
    }
}

/// The agent: its name, the host it talks to, and its request handler.
pub struct Agent<D, C> {
    name: String,
    host_addr: String,
    message_callback: MessageCallback<D, C>,
}

impl<D, C> Agent<D, C> {
    pub closed spec fn spec_name(&self) -> Seq<char> {
        self.name@
    }

    pub closed spec fn spec_host(&self) -> Seq<char> {
        self.host_addr@
    }

    pub closed spec fn spec_callback(&self) -> (C, D) {
        (self.message_callback.function, self.message_callback.parameter)
    }

    /// The request handler.
    pub fn callback(&self) -> (r: &C)
        ensures
            *r == self.spec_callback().0,
    {
        &self.message_callback.function
    }

    /// The value handed to the handler on every call.
    pub fn parameter(&self) -> (r: &D)
        ensures
            *r == self.spec_callback().1,
    {
        &self.message_callback.parameter
    }

    pub fn name(&self) -> (r: &str)
        ensures
            r@ == self.spec_name(),
    {
        self.name.as_str()
    }

    pub fn host_addr(&self) -> (r: &str)
        ensures
            r@ == self.spec_host(),
    {
        self.host_addr.as_str()
    }
}

} // verus!
