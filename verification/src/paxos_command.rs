//! Commands that replicas agree on. A client request wraps the operation it
//! carries together with the client's identity and request number.
use vstd::prelude::*;

use crate::ballot::NodeId;
use crate::rsm::canonical::{decimal_text, hyphenated_uuid, push_decimal_text, uuid_text};

verus! {

pub type ClientId = NodeId;

pub type RequestId = u64;

/// The nil client identity, for commands that do not come from a client.
pub const NIL_CLIENT: ClientId = 0;

#[derive(Debug)]
pub enum PaxosCommand {
    ClientRequest { client_id: ClientId, request_id: RequestId, cmd: Box<PaxosCommand> },
    NOOP,
    STOP,
    EnactDecree { author: String, law: String },
    Ostracize { citizen: String },
    AppointArchon { name: String, term_length_years: u32 },
    BuildAcropolis { stones_required: u32, architect: String },
    GET { key: String },
    PUT { key: String, version: usize, value: usize },
    ADD { key: String, version: usize, value: usize },
    BLANK,
}

/// The mathematical value of a command: strings are taken by their characters.
pub enum CommandView {
    ClientRequest { client_id: ClientId, request_id: RequestId, cmd: Box<CommandView> },
    NOOP,
    STOP,
    EnactDecree { author: Seq<char>, law: Seq<char> },
    Ostracize { citizen: Seq<char> },
    AppointArchon { name: Seq<char>, term_length_years: u32 },
    BuildAcropolis { stones_required: u32, architect: Seq<char> },
    GET { key: Seq<char> },
    PUT { key: Seq<char>, version: usize, value: usize },
    ADD { key: Seq<char>, version: usize, value: usize },
    BLANK,
}

pub open spec fn command_view(c: PaxosCommand) -> CommandView
    decreases c,
{
    match c {
        PaxosCommand::ClientRequest { client_id, request_id, cmd } => CommandView::ClientRequest {
            client_id,
            request_id,
            cmd: Box::new(command_view(*cmd)),
        },
        PaxosCommand::NOOP => CommandView::NOOP,
        PaxosCommand::STOP => CommandView::STOP,
        PaxosCommand::EnactDecree { author, law } => CommandView::EnactDecree {
            author: author@,
            law: law@,
        },
        PaxosCommand::Ostracize { citizen } => CommandView::Ostracize { citizen: citizen@ },
        PaxosCommand::AppointArchon { name, term_length_years } => CommandView::AppointArchon {
            name: name@,
            term_length_years,
        },
        PaxosCommand::BuildAcropolis { stones_required, architect } =>
            CommandView::BuildAcropolis { stones_required, architect: architect@ },
        PaxosCommand::GET { key } => CommandView::GET { key: key@ },
        PaxosCommand::PUT { key, version, value } => CommandView::PUT { key: key@, version, value },
        PaxosCommand::ADD { key, version, value } => CommandView::ADD { key: key@, version, value },
        PaxosCommand::BLANK => CommandView::BLANK,
    }
}

/// How a command reads in logs and traces.
pub open spec fn command_text(c: CommandView) -> Seq<char>
    decreases c,
{
    match c {
        CommandView::ClientRequest { client_id, request_id, cmd } => command_text(*cmd)
            + " [client="@ + hyphenated_uuid(client_id) + " req="@ + decimal_text(request_id as nat)
            + "]"@,
        CommandView::NOOP => "NOOP"@,
        CommandView::STOP => "STOP"@,
        CommandView::BLANK => "BLANK"@,
        CommandView::EnactDecree { author, law } => "Enact Decree by "@ + author + ": '"@ + law
            + "'"@,
        CommandView::Ostracize { citizen } => "Ostracize "@ + citizen,
        CommandView::AppointArchon { name, term_length_years } => "Appoint Archon "@ + name
            + " for "@ + decimal_text(term_length_years as nat) + " years"@,
        CommandView::BuildAcropolis { stones_required, architect } => "Build Acropolis ("@
            + decimal_text(stones_required as nat) + " stones) with "@ + architect,
        CommandView::GET { key } => "GET "@ + key,
        CommandView::PUT { key, version, value } => "PUT "@ + key + " val"@ + decimal_text(
            value as nat,
        ) + " v"@ + decimal_text(version as nat),
        CommandView::ADD { key, version, value } => "ADD "@ + key + " val"@ + decimal_text(
            value as nat,
        ) + " v"@ + decimal_text(version as nat),
    }
}

impl PaxosCommand {
    /// Appends the text of the command (see `command_text`).
    pub fn write_text(&self, out: &mut String)
        ensures
            final(out)@ == old(out)@ + command_text(self@),
        decreases self,
    {
        match self {
            PaxosCommand::ClientRequest { client_id, request_id, cmd } => {
                (**cmd).write_text(out);
                out.push_str(" [client=");
                let id = uuid_text(*client_id);
                out.push_str(id.as_str());
                out.push_str(" req=");
                push_decimal_text(out, *request_id);
                out.push_str("]");
            },
            PaxosCommand::NOOP => out.push_str("NOOP"),
            PaxosCommand::STOP => out.push_str("STOP"),
            PaxosCommand::BLANK => out.push_str("BLANK"),
            PaxosCommand::EnactDecree { author, law } => {
                out.push_str("Enact Decree by ");
                out.push_str(author.as_str());
                out.push_str(": '");
                out.push_str(law.as_str());
                out.push_str("'");
            },
            PaxosCommand::Ostracize { citizen } => {
                out.push_str("Ostracize ");
                out.push_str(citizen.as_str());
            },
            PaxosCommand::AppointArchon { name, term_length_years } => {
                out.push_str("Appoint Archon ");
                out.push_str(name.as_str());
                out.push_str(" for ");
                push_decimal_text(out, *term_length_years as u64);
                out.push_str(" years");
            },
            PaxosCommand::BuildAcropolis { stones_required, architect } => {
                out.push_str("Build Acropolis (");
                push_decimal_text(out, *stones_required as u64);
                out.push_str(" stones) with ");
                out.push_str(architect.as_str());
            },
            PaxosCommand::GET { key } => {
                out.push_str("GET ");
                out.push_str(key.as_str());
            },
            PaxosCommand::PUT { key, version, value } => {
                out.push_str("PUT ");
                out.push_str(key.as_str());
                out.push_str(" val");
                push_decimal_text(out, *value as u64);
                out.push_str(" v");
                push_decimal_text(out, *version as u64);
            },
            PaxosCommand::ADD { key, version, value } => {
                out.push_str("ADD ");
                out.push_str(key.as_str());
                out.push_str(" val");
                push_decimal_text(out, *value as u64);
                out.push_str(" v");
                push_decimal_text(out, *version as u64);
            },
        }
        proof {
            assert(final(out)@ =~= old(out)@ + command_text(self@));
        }
    }

    /// The text of the command (see `command_text`).
    pub fn to_string(&self) -> (r: String)
        ensures
            r@ == command_text(self@),
    {
        let mut out = String::new();
        self.write_text(&mut out);
        assert(out@ =~= command_text(self@));
        out
    }
}

impl View for PaxosCommand {
    type V = CommandView;

    open spec fn view(&self) -> CommandView {
        command_view(*self)
    }
}

impl CommandView {
    /// Wrapping a command for a client leaves a client request unchanged.
    pub open spec fn with_client(self, client_id: ClientId, request_id: RequestId) -> CommandView {
        match self {
            CommandView::ClientRequest { .. } => self,
            _ => CommandView::ClientRequest { client_id, request_id, cmd: Box::new(self) },
        }
    }

    pub open spec fn client_identity(self) -> Option<(ClientId, RequestId)> {
        match self {
            CommandView::ClientRequest { client_id, request_id, .. } => Some(
                (client_id, request_id),
            ),
            _ => None,
        }
    }

    /// The innermost operation, below every client wrapper.
    pub open spec fn operation(self) -> CommandView
        decreases self,
    {
        match self {
            CommandView::ClientRequest { cmd, .. } => (*cmd).operation(),
            _ => self,
        }
    }

    pub open spec fn request_id(self) -> RequestId {
        match self {
            CommandView::ClientRequest { request_id, .. } => request_id,
            _ => 0,
        }
    }

    pub open spec fn client_id(self) -> ClientId {
        match self {
            CommandView::ClientRequest { client_id, .. } => client_id,
            _ => NIL_CLIENT,
        }
    }
}

impl PaxosCommand {
    pub fn with_client(self, client_id: ClientId, request_id: RequestId) -> (r: PaxosCommand)
        ensures
            r@ == self@.with_client(client_id, request_id),
    {
        match self {
            PaxosCommand::ClientRequest { .. } => self,
            cmd => PaxosCommand::ClientRequest { client_id, request_id, cmd: Box::new(cmd) },
        }
    }

    pub fn client_identity(&self) -> (r: Option<(ClientId, RequestId)>)
        ensures
            r == self@.client_identity(),
    {
        match self {
            PaxosCommand::ClientRequest { client_id, request_id, .. } => Some(
                (*client_id, *request_id),
            ),
            _ => None,
        }
    }

    pub fn operation(&self) -> (r: &PaxosCommand)
        ensures
            r@ == self@.operation(),
        decreases self,
    {
        match self {
            PaxosCommand::ClientRequest { cmd, .. } => cmd.operation(),
            _ => self,
        }
    }

    pub fn request_id(&self) -> (r: RequestId)
        ensures
            r == self@.request_id(),
    {
        match self {
            PaxosCommand::ClientRequest { request_id, .. } => *request_id,
            _ => 0,
        }
    }

    pub fn client_id(&self) -> (r: ClientId)
        ensures
            r == self@.client_id(),
    {
        match self {
            PaxosCommand::ClientRequest { client_id, .. } => *client_id,
            _ => NIL_CLIENT,
        }
    }

    pub fn strip_client(self) -> (r: PaxosCommand)
        ensures
            r@ == self@.operation(),
        decreases self,
    {
        match self {
            PaxosCommand::ClientRequest { cmd, .. } => (*cmd).strip_client(),
            _ => self,
        }
    }

    /// `true` exactly for the STOP operation (possibly wrapped for a client).
    pub fn is_stop(&self) -> (r: bool)
        ensures
            r == (self@.operation() == CommandView::STOP),
    {
        match self.operation() {
            PaxosCommand::STOP => true,
            _ => false,
        }
    }

    pub fn is_blank(&self) -> (r: bool)
        ensures
            r == (self@ == CommandView::BLANK),
    {
        match self {
            PaxosCommand::BLANK => true,
            _ => false,
        }
    }
}

fn commands_equal(a: &PaxosCommand, b: &PaxosCommand) -> (r: bool)
    ensures
        r == (a@ == b@),
    decreases a,
{
    match (a, b) {
        (
            PaxosCommand::ClientRequest { client_id: c1, request_id: r1, cmd: x1 },
            PaxosCommand::ClientRequest { client_id: c2, request_id: r2, cmd: x2 },
        ) => *c1 == *c2 && *r1 == *r2 && commands_equal(x1, x2),
        (PaxosCommand::NOOP, PaxosCommand::NOOP) => true,
        (PaxosCommand::STOP, PaxosCommand::STOP) => true,
        (PaxosCommand::BLANK, PaxosCommand::BLANK) => true,
        (
            PaxosCommand::EnactDecree { author: a1, law: l1 },
            PaxosCommand::EnactDecree { author: a2, law: l2 },
        ) => *a1 == *a2 && *l1 == *l2,
        (PaxosCommand::Ostracize { citizen: c1 }, PaxosCommand::Ostracize { citizen: c2 }) => *c1
            == *c2,
        (
            PaxosCommand::AppointArchon { name: n1, term_length_years: t1 },
            PaxosCommand::AppointArchon { name: n2, term_length_years: t2 },
        ) => *n1 == *n2 && *t1 == *t2,
        (
            PaxosCommand::BuildAcropolis { stones_required: s1, architect: a1 },
            PaxosCommand::BuildAcropolis { stones_required: s2, architect: a2 },
        ) => *s1 == *s2 && *a1 == *a2,
        (PaxosCommand::GET { key: k1 }, PaxosCommand::GET { key: k2 }) => *k1 == *k2,
        (
            PaxosCommand::PUT { key: k1, version: v1, value: x1 },
            PaxosCommand::PUT { key: k2, version: v2, value: x2 },
        ) => *k1 == *k2 && *v1 == *v2 && *x1 == *x2,
        (
            PaxosCommand::ADD { key: k1, version: v1, value: x1 },
            PaxosCommand::ADD { key: k2, version: v2, value: x2 },
        ) => *k1 == *k2 && *v1 == *v2 && *x1 == *x2,
        _ => false,
    }
}

impl PartialEq for PaxosCommand {
    fn eq(&self, other: &Self) -> (r: bool) {
        commands_equal(self, other)
    }
}

impl Eq for PaxosCommand {

}

impl vstd::std_specs::cmp::PartialEqSpecImpl for PaxosCommand {
    open spec fn obeys_eq_spec() -> bool {
        true
    }

    open spec fn eq_spec(&self, other: &Self) -> bool {
        self@ == other@
    }
}

impl Clone for PaxosCommand {
    fn clone(&self) -> (r: Self)
        ensures
            r == *self,
        decreases self,
    {
        match self {
            PaxosCommand::ClientRequest { client_id, request_id, cmd } => {
                let inner: PaxosCommand = (**cmd).clone();
                PaxosCommand::ClientRequest {
                    client_id: *client_id,
                    request_id: *request_id,
                    cmd: Box::new(inner),
                }
            },
            PaxosCommand::NOOP => PaxosCommand::NOOP,
            PaxosCommand::STOP => PaxosCommand::STOP,
            PaxosCommand::BLANK => PaxosCommand::BLANK,
            PaxosCommand::EnactDecree { author, law } => PaxosCommand::EnactDecree {
                author: author.clone(),
                law: law.clone(),
            },
            PaxosCommand::Ostracize { citizen } => PaxosCommand::Ostracize {
                citizen: citizen.clone(),
            },
            PaxosCommand::AppointArchon { name, term_length_years } =>
                PaxosCommand::AppointArchon {
                    name: name.clone(),
                    term_length_years: *term_length_years,
                },
            PaxosCommand::BuildAcropolis { stones_required, architect } =>
                PaxosCommand::BuildAcropolis {
                    stones_required: *stones_required,
                    architect: architect.clone(),
                },
            PaxosCommand::GET { key } => PaxosCommand::GET { key: key.clone() },
            PaxosCommand::PUT { key, version, value } => PaxosCommand::PUT {
                key: key.clone(),
                version: *version,
                value: *value,
            },
            PaxosCommand::ADD { key, version, value } => PaxosCommand::ADD {
                key: key.clone(),
                version: *version,
                value: *value,
            },
        }
    }
}

} // verus!
