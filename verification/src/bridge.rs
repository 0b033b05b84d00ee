//! Connection state machine of the tool bridge.
//!
//! The bridge owns at most one session with the tool-provider process at a
//! time. Spawning the process and performing the handshake are outside work;
//! the bridge decides whether a connection attempt may start, records its
//! outcome, and holds the translated tool list while the session is up.

use vstd::prelude::*;

use crate::tools::{ChatTool, ChatToolV, ToolDescriptor, chat_tool_of, convert_tools};

verus! {

/// The bridge's connection state.
pub enum BridgePhase {
    /// No session and no connection attempt under way.
    Disconnected,
    /// A connection attempt was admitted and its outcome is not yet recorded.
    Connecting,
    /// A session is up and its tool list is known.
    Connected,
}

/// Why a bridge operation was refused.
pub enum BridgeError {
    /// A connection attempt was made while a session was already active or
    /// being established.
    AlreadyConnected,
    /// A query was dispatched while no session was active.
    NotConnected,
}

impl BridgeError {
    /// The message shown for this error.
    pub fn message(&self) -> (r: &'static str)
        ensures
            self is AlreadyConnected ==> r@ == "Client is already connected to a server"@,
            self is NotConnected ==> r@ == "Client is not connected to any server"@,
    {
        match self {
            BridgeError::AlreadyConnected => "Client is already connected to a server",
            BridgeError::NotConnected => "Client is not connected to any server",
        }
    }
}

/// Mathematical model of a [`Bridge`].
pub ghost struct BridgeV {
    pub phase: BridgePhase,
    pub tools: Seq<ChatToolV>,
}

/// The tool bridge: connection phase and the tool list discovered for the
/// current session.
pub struct Bridge {
    phase: BridgePhase,
    tools: Vec<ChatTool>,
}

impl View for Bridge {
    type V = BridgeV;

    closed spec fn view(&self) -> BridgeV {
        BridgeV { phase: self.phase, tools: self.tools.deep_view() }
    }
}

/// What admitting a connection attempt does: from `Disconnected` it moves to
/// `Connecting`; in any other phase it is refused and changes nothing.
pub open spec fn spec_begin_connect(b: BridgeV) -> (BridgeV, Result<(), BridgeError>) {
    match b.phase {
        BridgePhase::Disconnected => (
            BridgeV { phase: BridgePhase::Connecting, tools: b.tools },
            Ok(()),
        ),
        _ => (b, Err(BridgeError::AlreadyConnected)),
    }
}

impl Bridge {
    /// A fresh bridge: disconnected, with no tools.
    pub fn new() -> (r: Bridge)
        ensures
            r@.phase is Disconnected,
            r@.tools == Seq::<ChatToolV>::empty(),
    {
        let r = Bridge { phase: BridgePhase::Disconnected, tools: Vec::new() };
        proof {
            assert(r@.tools =~= Seq::<ChatToolV>::empty());
        }
        r
    }

    /// Admits or refuses a connection attempt. Refused whenever a session is
    /// already active or being established, and then nothing is replaced.
    pub fn begin_connect(&mut self) -> (r: Result<(), BridgeError>)
        ensures
            (final(self)@, r) == spec_begin_connect(old(self)@),
    {
        match self.phase {
            BridgePhase::Disconnected => {
                self.phase = BridgePhase::Connecting;
                Ok(())
            },
            _ => Err(BridgeError::AlreadyConnected),
        }
    }

    /// Records a successful handshake: the discovered descriptors are
    /// translated into the chat schema, in order, and the session is active.
    pub fn finish_connect(&mut self, descriptors: &Vec<ToolDescriptor>)
        requires
            old(self)@.phase is Connecting,
        ensures
            final(self)@.phase is Connected,
            final(self)@.tools.len() == descriptors.deep_view().len(),
            forall|i: int|
                0 <= i < descriptors.deep_view().len() ==> final(self)@.tools[i] == chat_tool_of(
                    descriptors.deep_view()[i],
                ),
    {
        self.tools = convert_tools(descriptors);
        self.phase = BridgePhase::Connected;
    }

    /// Records a failed spawn or handshake: back to disconnected, the tool
    /// list untouched.
    pub fn connect_failed(&mut self)
        requires
            old(self)@.phase is Connecting,
        ensures
            final(self)@.phase is Disconnected,
            final(self)@.tools == old(self)@.tools,
    {
        self.phase = BridgePhase::Disconnected;
    }

    /// Whether a query may be dispatched: refused exactly when no session is
    /// active.
    pub fn check_ready(&self) -> (r: Result<(), BridgeError>)
        ensures
            self@.phase is Connected <==> r is Ok,
            r is Err ==> r->Err_0 is NotConnected,
    {
        match self.phase {
            BridgePhase::Connected => Ok(()),
            _ => Err(BridgeError::NotConnected),
        }
    }

    /// The tool list of the current session.
    pub fn tools(&self) -> (r: &Vec<ChatTool>)
        ensures
            r.deep_view() == self@.tools,
    {
        &self.tools
    }

    /// Ends the session if one exists. Always succeeds: cleanup never
    /// prevents shutdown, so a failure to terminate the process is not
    /// reported here.
    pub fn disconnect(&mut self)
        ensures
            final(self)@.phase is Disconnected,
            final(self)@.tools == old(self)@.tools,
    {
        self.phase = BridgePhase::Disconnected;
    }
}

/// Connecting twice without disconnecting always fails with the
/// already-connected error and never replaces the existing session: once the
/// bridge has left `Disconnected`, a further connection attempt is refused
/// and leaves the bridge exactly as it was.
pub proof fn lemma_second_connect_rejected(b: BridgeV)
    requires
        !(b.phase is Disconnected),
    ensures
        spec_begin_connect(b) == (b, Err::<(), BridgeError>(BridgeError::AlreadyConnected)),
{
}

} // verus!
