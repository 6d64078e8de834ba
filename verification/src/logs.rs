//! The log-export handler: it checks that an inbound call names its
//! organization, has a node selected, prepares the outbound call and relays
//! what the node answers. The handler decides; its driver performs each
//! action and hands back the event that came of it.

use crate::config::Config;
use crate::metadata::canonical_name;
use crate::metadata::contains_key;
use crate::metadata::has_entry;
use crate::metadata::has_room;
use crate::metadata::insert_text;
use crate::metadata::is_name_char;
use crate::metadata::is_text_value;
use crate::metadata::metadata_entries;
use crate::metadata::text_key_valid;
use crate::metadata::text_value_valid;
use crate::metadata::within_limit;
use crate::metadata::Entries;
use crate::propagation::current_span_context;
use crate::propagation::inject_context;
use crate::propagation::inject_fields;
use crate::propagation::lemma_inject_keeps_room;
use crate::propagation::Fields;
use crate::status::connect_error_message;
use crate::status::connect_log;
use crate::status::connect_log_line;
use crate::status::invalid_token_message;
use crate::status::missing_organization_message;
use crate::status::Code;
use crate::status::Status;
use crate::status::StatusView;
use opentelemetry::Context;
use tonic::metadata::MetadataMap;
use vstd::prelude::*;
use vstd::utf8::encode_utf8;

verus! {

/// How the messages of the outbound call are compressed.
#[derive(Clone, Copy, Debug, PartialEq, Eq, Structural)]
pub enum Compression {
    Gzip,
}

/// What the caller of an export call gets back.
#[derive(Debug)]
pub enum ExportReply<R, S> {
    /// The node's response, as it came.
    Response(R),
    /// A failure of the selector or of the node, as it came.
    Relayed(S),
    /// A failure that the router reports on its own account.
    Failed(Status),
}

/// An `ExportReply` as contracts see it.
pub enum ExportReplyView<R, S> {
    Response(R),
    Relayed(S),
    Failed(StatusView),
}

impl<R, S> View for ExportReply<R, S> {
    type V = ExportReplyView<R, S>;

    open spec fn view(&self) -> ExportReplyView<R, S> {
        match *self {
            ExportReply::Response(response) => ExportReplyView::Response(response),
            ExportReply::Relayed(failure) => ExportReplyView::Relayed(failure),
            ExportReply::Failed(status) => ExportReplyView::Failed(status@),
        }
    }
}

/// What came of the action that the handler asked for.
#[derive(Debug)]
pub enum ExportEvent<R, S> {
    /// The selector's answer: the address of a node, or its failure.
    NodeSelected(Result<String, S>),
    /// The internal authentication token.
    TokenFetched(String),
    /// The connection is open, or could not be opened; the error holds the
    /// transport's account of why.
    Connected(Result<(), String>),
    /// The node's answer to the forwarded call.
    Forwarded(Result<R, S>),
}

/// An `ExportEvent` as contracts see it.
pub enum ExportEventView<R, S> {
    NodeSelected(Result<Seq<char>, S>),
    TokenFetched(Seq<char>),
    Connected(Result<(), Seq<char>>),
    Forwarded(Result<R, S>),
}

impl<R, S> View for ExportEvent<R, S> {
    type V = ExportEventView<R, S>;

    open spec fn view(&self) -> ExportEventView<R, S> {
        match *self {
            ExportEvent::NodeSelected(Ok(addr)) => ExportEventView::NodeSelected(Ok(addr@)),
            ExportEvent::NodeSelected(Err(failure)) => ExportEventView::NodeSelected(Err(failure)),
            ExportEvent::TokenFetched(token) => ExportEventView::TokenFetched(token@),
            ExportEvent::Connected(Ok(())) => ExportEventView::Connected(Ok(())),
            ExportEvent::Connected(Err(cause)) => ExportEventView::Connected(Err(cause@)),
            ExportEvent::Forwarded(answer) => ExportEventView::Forwarded(answer),
        }
    }
}

/// What the driver has to do next.
#[derive(Debug)]
pub enum ExportAction<B, R, S> {
    /// Ask the selector for the address of a node.
    SelectNode,
    /// Ask for the internal authentication token.
    FetchToken,
    /// Open a connection to the node at `addr`.
    Connect { addr: String },
    /// Send the call over the connection just opened.
    Forward {
        addr: String,
        metadata: MetadataMap,
        body: B,
        send_compressed: Compression,
        accept_compressed: Compression,
    },
    /// Answer the caller, after writing `log`, if there is one, to the error
    /// log.
    Reply { reply: ExportReply<R, S>, log: Option<String> },
    /// The event was not the one awaited: there is nothing to do.
    Ignore,
}

/// An `ExportAction` as contracts see it.
pub enum ExportActionView<B, R, S> {
    SelectNode,
    FetchToken,
    Connect { addr: Seq<char> },
    Forward {
        addr: Seq<char>,
        metadata: Entries,
        body: B,
        send_compressed: Compression,
        accept_compressed: Compression,
    },
    Reply { reply: ExportReplyView<R, S>, log: Option<Seq<char>> },
    Ignore,
}

impl<B, R, S> View for ExportAction<B, R, S> {
    type V = ExportActionView<B, R, S>;

    open spec fn view(&self) -> ExportActionView<B, R, S> {
        match *self {
            ExportAction::SelectNode => ExportActionView::SelectNode,
            ExportAction::FetchToken => ExportActionView::FetchToken,
            ExportAction::Connect { addr } => ExportActionView::Connect { addr: addr@ },
            ExportAction::Forward { addr, metadata, body, send_compressed, accept_compressed } =>
                ExportActionView::Forward {
                    addr: addr@,
                    metadata: metadata_entries(metadata),
                    body,
                    send_compressed,
                    accept_compressed,
                },
            ExportAction::Reply { reply, log: Some(line) } => ExportActionView::Reply {
                reply: reply@,
                log: Some(line@),
            },
            ExportAction::Reply { reply, log: None } => ExportActionView::Reply {
                reply: reply@,
                log: None,
            },
            ExportAction::Ignore => ExportActionView::Ignore,
        }
    }
}

/// How far an export call has come.
#[derive(Debug)]
enum Stage<B> {
    Selecting { metadata: MetadataMap, body: B, context: Context },
    AwaitingToken { addr: String, metadata: MetadataMap, body: B },
    Connecting { addr: String, metadata: MetadataMap, body: B },
    Forwarding,
    Done,
}

/// An export call under way: what the handler keeps of it between two events.
#[derive(Debug)]
pub struct ExportState<B> {
    stage: Stage<B>,
}

/// An `ExportState` as contracts see it.
pub enum ExportStateView<B> {
    /// The call was accepted; the selector's answer is awaited.
    Selecting { metadata: Entries, body: B, context: Context },
    /// A node is selected; the token is awaited.
    AwaitingToken { addr: Seq<char>, metadata: Entries, body: B },
    /// The outbound call is ready; the connection is awaited.
    Connecting { addr: Seq<char>, metadata: Entries, body: B },
    /// The call was sent; the node's answer is awaited.
    Forwarding,
    /// The caller has its answer.
    Done,
}

impl<B> View for ExportState<B> {
    type V = ExportStateView<B>;

    closed spec fn view(&self) -> ExportStateView<B> {
        match self.stage {
            Stage::Selecting { metadata, body, context } => ExportStateView::Selecting {
                metadata: metadata_entries(metadata),
                body,
                context,
            },
            Stage::AwaitingToken { addr, metadata, body } => ExportStateView::AwaitingToken {
                addr: addr@,
                metadata: metadata_entries(metadata),
                body,
            },
            Stage::Connecting { addr, metadata, body } => ExportStateView::Connecting {
                addr: addr@,
                metadata: metadata_entries(metadata),
                body,
            },
            Stage::Forwarding => ExportStateView::Forwarding,
            Stage::Done => ExportStateView::Done,
        }
    }
}

impl<B> ExportState<B> {
    /// While names may still be added to the metadata, it has room for them.
    #[verifier::type_invariant]
    spec fn has_room_while_needed(self) -> bool {
        match self.stage {
            Stage::Selecting { metadata, .. } => has_room(metadata_entries(metadata)),
            Stage::AwaitingToken { metadata, .. } => has_room(metadata_entries(metadata)),
            _ => true,
        }
    }
}

/// The name under which the outbound call carries the internal token.
pub open spec fn authorization_name() -> Seq<char> {
    "authorization"@
}

/// `InvalidArgument`, naming the header key that the call lacks.
pub open spec fn missing_organization(org_header_key: Seq<char>) -> StatusView {
    StatusView {
        code: Code::InvalidArgument,
        message: missing_organization_message(org_header_key),
    }
}

/// `Internal`, for a token that is no metadata value.
pub open spec fn invalid_token() -> StatusView {
    StatusView { code: Code::Internal, message: invalid_token_message() }
}

/// `Internal`, for a node that cannot be connected to.
pub open spec fn connect_error() -> StatusView {
    StatusView { code: Code::Internal, message: connect_error_message() }
}

/// The metadata of the outbound call once the token is in it: the token is
/// the one value under `authorization`, and no other name changes.
pub open spec fn authorized(metadata: Entries, token: Seq<char>) -> Entries {
    metadata.insert(authorization_name(), seq![encode_utf8(token)])
}

/// How an export call begins. A call whose metadata has no value under the
/// organization header key is answered at once; any other call is accepted as
/// it stands, and a node is to be selected for it.
pub open spec fn begin<B, R, S>(
    org_header_key: Seq<char>,
    metadata: Entries,
    body: B,
    context: Context,
) -> (ExportStateView<B>, ExportActionView<B, R, S>) {
    if has_entry(metadata, org_header_key) {
        (ExportStateView::Selecting { metadata, body, context }, ExportActionView::SelectNode)
    } else {
        (
            ExportStateView::Done,
            ExportActionView::Reply {
                reply: ExportReplyView::Failed(missing_organization(org_header_key)),
                log: None,
            },
        )
    }
}

/// Whether `event` is the one that a call in `state` waits for.
pub open spec fn awaited<B, R, S>(state: ExportStateView<B>, event: ExportEventView<R, S>) -> bool {
    match state {
        ExportStateView::Selecting { .. } => event is NodeSelected,
        ExportStateView::AwaitingToken { .. } => event is TokenFetched,
        ExportStateView::Connecting { .. } => event is Connected,
        ExportStateView::Forwarding => event is Forwarded,
        ExportStateView::Done => false,
    }
}

/// How an export call goes on when `event` arrives. `fields` are the fields
/// that the propagator derives from the call's tracing context; they are
/// written into the metadata once a node is selected, and matter at no other
/// step.
pub open spec fn next<B, R, S>(
    state: ExportStateView<B>,
    event: ExportEventView<R, S>,
    fields: Fields,
) -> (ExportStateView<B>, ExportActionView<B, R, S>) {
    match (state, event) {
        (
            ExportStateView::Selecting { metadata, body, context },
            ExportEventView::NodeSelected(Ok(addr)),
        ) => (
            ExportStateView::AwaitingToken {
                addr,
                metadata: inject_fields(metadata, fields),
                body,
            },
            ExportActionView::FetchToken,
        ),
        (ExportStateView::Selecting { .. }, ExportEventView::NodeSelected(Err(failure))) => (
            ExportStateView::Done,
            ExportActionView::Reply { reply: ExportReplyView::Relayed(failure), log: None },
        ),
        (
            ExportStateView::AwaitingToken { addr, metadata, body },
            ExportEventView::TokenFetched(token),
        ) => if text_value_valid(token) {
            (
                ExportStateView::Connecting { addr, metadata: authorized(metadata, token), body },
                ExportActionView::Connect { addr },
            )
        } else {
            (
                ExportStateView::Done,
                ExportActionView::Reply {
                    reply: ExportReplyView::Failed(invalid_token()),
                    log: None,
                },
            )
        },
        (
            ExportStateView::Connecting { addr, metadata, body },
            ExportEventView::Connected(Ok(_)),
        ) => (
            ExportStateView::Forwarding,
            ExportActionView::Forward {
                addr,
                metadata,
                body,
                send_compressed: Compression::Gzip,
                accept_compressed: Compression::Gzip,
            },
        ),
        (ExportStateView::Connecting { addr, .. }, ExportEventView::Connected(Err(cause))) => (
            ExportStateView::Done,
            ExportActionView::Reply {
                reply: ExportReplyView::Failed(connect_error()),
                log: Some(connect_log_line(addr, cause)),
            },
        ),
        (ExportStateView::Forwarding, ExportEventView::Forwarded(Ok(response))) => (
            ExportStateView::Done,
            ExportActionView::Reply { reply: ExportReplyView::Response(response), log: None },
        ),
        (ExportStateView::Forwarding, ExportEventView::Forwarded(Err(failure))) => (
            ExportStateView::Done,
            ExportActionView::Reply { reply: ExportReplyView::Relayed(failure), log: None },
        ),
        _ => (state, ExportActionView::Ignore),
    }
}

/// Whether the fields of the propagator are written at this step.
pub open spec fn writes_fields<B, R, S>(
    state: ExportStateView<B>,
    event: ExportEventView<R, S>,
) -> bool {
    state is Selecting && event matches ExportEventView::NodeSelected(Ok(_))
}

/// `authorization` is a name for text values, and is its own lower-case form.
pub proof fn lemma_authorization_name()
    ensures
        text_key_valid(authorization_name()),
        canonical_name(authorization_name()) == authorization_name(),
{
    reveal_strlit("authorization");
    let name = authorization_name();
    assert(name.len() == 13);
    assert(is_name_char(name[0]) && is_name_char(name[1]) && is_name_char(name[2]));
    assert(is_name_char(name[3]) && is_name_char(name[4]) && is_name_char(name[5]));
    assert(is_name_char(name[6]) && is_name_char(name[7]) && is_name_char(name[8]));
    assert(is_name_char(name[9]) && is_name_char(name[10]) && is_name_char(name[11]));
    assert(is_name_char(name[12]));
    assert(canonical_name(name) =~= name);
}

/// The handler of log-export calls.
#[derive(Clone, Debug)]
pub struct LogsServer {
    config: Config,
}

impl LogsServer {
    /// The metadata key that must carry the caller's organization.
    pub closed spec fn spec_org_header_key(&self) -> Seq<char> {
        self.config.spec_org_header_key()
    }

    /// A handler that works under `config`.
    pub fn new(config: Config) -> (server: LogsServer)
        ensures
            server.spec_org_header_key() == config.spec_org_header_key(),
    {
        LogsServer { config }
    }

    /// The metadata key that must carry the caller's organization.
    pub fn org_header_key(&self) -> (key: &str)
        ensures
            key@ == self.spec_org_header_key(),
    {
        self.config.org_header_key()
    }

    /// Takes an inbound call: its metadata, what else it carries (`body`) and
    /// the tracing context in which it arrived. Answers a call that does not
    /// name its organization with `InvalidArgument`; for any other call, asks
    /// for a node. The metadata of a call that names its organization must
    /// not hold more names than the router can add to.
    pub fn export<B, R, S>(&self, metadata: MetadataMap, body: B, context: Context) -> (step: (
        ExportState<B>,
        ExportAction<B, R, S>,
    ))
        requires
            has_entry(metadata_entries(metadata), self.spec_org_header_key()) ==> has_room(
                metadata_entries(metadata),
            ),
        ensures
            (step.0@, step.1@) == begin::<B, R, S>(
                self.spec_org_header_key(),
                metadata_entries(metadata),
                body,
                context,
            ),
    {
        if contains_key(&metadata, self.config.org_header_key()) {
            (
                ExportState { stage: Stage::Selecting { metadata, body, context } },
                ExportAction::SelectNode,
            )
        } else {
            let status = Status::missing_organization(self.config.org_header_key());
            (
                ExportState { stage: Stage::Done },
                ExportAction::Reply { reply: ExportReply::Failed(status), log: None },
            )
        }
    }

    /// `export` for a call as a service receives it: the tracing context is
    /// that of the span in which the caller runs, and a call that `export`
    /// cannot take, because it names its organization and its metadata holds
    /// more names than the router can add to, is handed back untouched.
    pub fn try_export<B, R, S>(&self, metadata: MetadataMap, body: B) -> (taken: Result<
        (ExportState<B>, ExportAction<B, R, S>),
        (MetadataMap, B),
    >)
        ensures
            match taken {
                Ok(step) => {
                    &&& has_entry(metadata_entries(metadata), self.spec_org_header_key())
                        ==> has_room(metadata_entries(metadata))
                    &&& exists|context: Context|
                        (step.0@, step.1@) == begin::<B, R, S>(
                            self.spec_org_header_key(),
                            metadata_entries(metadata),
                            body,
                            context,
                        )
                },
                Err(back) => {
                    &&& back == (metadata, body)
                    &&& has_entry(metadata_entries(metadata), self.spec_org_header_key())
                    &&& !has_room(metadata_entries(metadata))
                },
            },
    {
        if contains_key(&metadata, self.config.org_header_key()) && !within_limit(&metadata) {
            Err((metadata, body))
        } else {
            let context = current_span_context();
            Ok(self.export(metadata, body, context))
        }
    }

    /// Takes the event that came of the last action and says what to do
    /// next. An event that the call does not wait for changes nothing.
    pub fn resume<B, R, S>(&self, state: ExportState<B>, event: ExportEvent<R, S>) -> (step: (
        ExportState<B>,
        ExportAction<B, R, S>,
    ))
        ensures
            exists|fields: Fields| (step.0@, step.1@) == next(state@, event@, fields),
            !writes_fields(state@, event@) ==> (step.0@, step.1@) == next(
                state@,
                event@,
                Seq::empty(),
            ),
    {
        proof {
            use_type_invariant(&state);
        }
        let ghost before = state@;
        let ghost arrived = event@;
        let ghost mut written: Fields = Seq::empty();
        let step = match (state.stage, event) {
            (Stage::Selecting { metadata, body, context }, ExportEvent::NodeSelected(Ok(addr))) => {
                let ghost inbound = metadata_entries(metadata);
                let mut metadata = metadata;
                inject_context(&mut metadata, &context);
                proof {
                    written = choose|fields: Fields|
                        metadata_entries(metadata) == inject_fields(inbound, fields);
                    lemma_inject_keeps_room(inbound, written);
                }
                (
                    ExportState { stage: Stage::AwaitingToken { addr, metadata, body } },
                    ExportAction::FetchToken,
                )
            },
            (Stage::Selecting { .. }, ExportEvent::NodeSelected(Err(failure))) => {
                (
                    ExportState { stage: Stage::Done },
                    ExportAction::Reply { reply: ExportReply::Relayed(failure), log: None },
                )
            },
            (Stage::AwaitingToken { addr, metadata, body }, ExportEvent::TokenFetched(token)) => {
                if is_text_value(token.as_str()) {
                    proof {
                        lemma_authorization_name();
                    }
                    let mut metadata = metadata;
                    insert_text(&mut metadata, "authorization", token.as_str());
                    let target = addr.clone();
                    (
                        ExportState { stage: Stage::Connecting { addr, metadata, body } },
                        ExportAction::Connect { addr: target },
                    )
                } else {
                    (
                        ExportState { stage: Stage::Done },
                        ExportAction::Reply {
                            reply: ExportReply::Failed(Status::invalid_token()),
                            log: None,
                        },
                    )
                }
            },
            (Stage::Connecting { addr, metadata, body }, ExportEvent::Connected(Ok(_))) => {
                (
                    ExportState { stage: Stage::Forwarding },
                    ExportAction::Forward {
                        addr,
                        metadata,
                        body,
                        send_compressed: Compression::Gzip,
                        accept_compressed: Compression::Gzip,
                    },
                )
            },
            (Stage::Connecting { addr, .. }, ExportEvent::Connected(Err(cause))) => {
                let line = connect_log(addr.as_str(), cause.as_str());
                (
                    ExportState { stage: Stage::Done },
                    ExportAction::Reply {
                        reply: ExportReply::Failed(Status::connect_error()),
                        log: Some(line),
                    },
                )
            },
            (Stage::Forwarding, ExportEvent::Forwarded(Ok(response))) => {
                (
                    ExportState { stage: Stage::Done },
                    ExportAction::Reply { reply: ExportReply::Response(response), log: None },
                )
            },
            (Stage::Forwarding, ExportEvent::Forwarded(Err(failure))) => {
                (
                    ExportState { stage: Stage::Done },
                    ExportAction::Reply { reply: ExportReply::Relayed(failure), log: None },
                )
            },
            (stage, _) => { (ExportState { stage }, ExportAction::Ignore) },
        };
        proof {
            assert((step.0@, step.1@) == next(before, arrived, written));
        }
        step
    }
}

impl Default for LogsServer {
    fn default() -> (server: LogsServer)
        ensures
            server.spec_org_header_key() == crate::config::default_org_header_key(),
    {
        LogsServer { config: Config::default() }
    }
}

} // verus!
