//! Command dispatch.
//!
//! Every inbound command a live session receives goes to a handler exactly
//! once, in arrival order, together with a single-use response capability.
//! The capability is a consumable token: its first `send` records the
//! response, a second `send` is a reported error that changes nothing.
//!
//! The reference handler is the maintenance policy: it answers every command
//! with one fixed notice, configured at construction, and nothing else.

use vstd::prelude::*;

verus! {

/// A dispatch-time caller error; reported, never fatal to the session.
#[derive(Clone, Copy, PartialEq, Eq, Structural, Debug)]
pub enum DispatchError {
    /// The single-use response capability was used a second time.
    AlreadyResponded,
}

/// One inbound command event: which shard's session received it and which
/// remote invocation it answers. Consumed exactly once by the handler.
#[derive(Clone, Copy, PartialEq, Eq, Structural, Debug)]
pub struct InboundCommand {
    pub shard_id: u64,
    pub command_id: u64,
}

/// The single-use capability to answer one inbound command. At most one
/// response ever leaves it, whatever the handler does.
pub struct ResponseToken {
    command_id: u64,
    sent: Option<String>,
}

impl ResponseToken {
    /// The command this token answers.
    pub closed spec fn spec_command_id(&self) -> u64 {
        self.command_id
    }

    /// The response recorded so far, if any.
    pub closed spec fn sent_view(&self) -> Option<Seq<char>> {
        match self.sent {
            Option::None => Option::None,
            Option::Some(s) => Option::Some(s@),
        }
    }

    /// A fresh capability for one command; nothing sent yet.
    pub fn new(command_id: u64) -> (t: ResponseToken)
        ensures
            t.sent_view() is None,
            t.spec_command_id() == command_id,
    {
        ResponseToken { command_id, sent: Option::None }
    }

    /// The command this token answers.
    pub fn command_id(&self) -> (id: u64)
        ensures
            id == self.spec_command_id(),
    {
        self.command_id
    }

    /// Record the response. The first call takes; a second call reports the
    /// caller error and leaves the first response in place.
    pub fn send(&mut self, content: String) -> (r: Result<(), DispatchError>)
        ensures
            match old(self).sent_view() {
                Option::None => r is Ok && final(self).sent_view() == Option::Some(content@),
                Option::Some(prev) => r == Result::<(), DispatchError>::Err(
                    DispatchError::AlreadyResponded,
                ) && final(self).sent_view() == Option::Some(prev),
            },
            final(self).spec_command_id() == old(self).spec_command_id(),
    {
        if self.sent.is_some() {
            Err(DispatchError::AlreadyResponded)
        } else {
            self.sent = Option::Some(content);
            Ok(())
        }
    }

    /// Read what was sent, for the runner to put on the wire.
    pub fn sent_content(&self) -> (c: &Option<String>)
        ensures
            match c {
                Option::None => self.sent_view() is None,
                Option::Some(s) => self.sent_view() == Option::Some(s@),
            },
    {
        &self.sent
    }
}

/// The dispatch contract a session exposes: one method, taking a read-only
/// view of the command and the single-use response capability for it.
/// `response_for` names what the handler answers; `handle` must realize
/// exactly that through the capability.
pub trait CommandHandler: Sized {
    /// What this handler answers to `cmd`; `None` to stay silent.
    spec fn response_for(&self, cmd: InboundCommand) -> Option<Seq<char>>;

    /// Answer one command through its fresh single-use capability.
    fn handle(&self, cmd: &InboundCommand, resp: &mut ResponseToken)
        requires
            old(resp).sent_view() is None,
            old(resp).spec_command_id() == cmd.command_id,
        ensures
            final(resp).sent_view() == self.response_for(*cmd),
            final(resp).spec_command_id() == cmd.command_id,
    ;
}

/// The maintenance policy: every command gets the same fixed notice,
/// immediately, and nothing else happens. Total, with no failure mode of its
/// own.
pub struct MaintenanceHandler {
    /// The notice to answer with; supplied by deployment configuration.
    pub notice: String,
}

impl CommandHandler for MaintenanceHandler {
    open spec fn response_for(&self, cmd: InboundCommand) -> Option<Seq<char>> {
        Option::Some(self.notice@)
    }

    fn handle(&self, cmd: &InboundCommand, resp: &mut ResponseToken) {
        let r = resp.send(self.notice.clone());
        assert(r is Ok);
    }
}

/// Run a batch of inbound commands from one shard's session through a
/// handler: per command, in arrival order, one fresh single-use capability
/// and one handler invocation, whose spent capability lands at the same
/// position of the result. Each capability carries at most one response.
pub fn dispatch_sequence<H: CommandHandler>(handler: &H, commands: &Vec<InboundCommand>) -> (tokens:
    Vec<ResponseToken>)
    ensures
        tokens@.len() == commands@.len(),
        forall|i: int|
            0 <= i < commands@.len() ==> {
                &&& (#[trigger] tokens@[i]).spec_command_id() == commands@[i].command_id
                &&& tokens@[i].sent_view() == handler.response_for(commands@[i])
            },
{
    let mut tokens: Vec<ResponseToken> = Vec::new();
    let mut i: usize = 0;
    while i < commands.len()
        invariant
            i <= commands@.len(),
            tokens@.len() == i,
            forall|j: int|
                0 <= j < i ==> {
                    &&& (#[trigger] tokens@[j]).spec_command_id() == commands@[j].command_id
                    &&& tokens@[j].sent_view() == handler.response_for(commands@[j])
                },
        decreases commands@.len() - i,
    {
        let cmd = commands[i];
        let mut token = ResponseToken::new(cmd.command_id);
        handler.handle(&cmd, &mut token);
        tokens.push(token);
        i = i + 1;
    }
    tokens
}

} // verus!
