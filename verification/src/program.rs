//! The course of each program, from its start to its end.
use vstd::prelude::*;

use crate::addr::{Ipv4Addr, SocketAddr, SocketAddrV4};
use crate::quic::Profile;
use crate::target::{CmdOptions, TargetError, UriParts, UriPartsView};
use crate::trace::Outcome;

verus! {

/// How long the client with a public address stays after its call, in seconds.
pub const LINGER_SECONDS: u64 = 10;

/// What comes of an action of a client.
#[derive(Clone, Copy, Debug, PartialEq, Eq, Structural)]
pub enum Reply {
    Done,
    Failed,
}

/// What a client waits for.
#[derive(Clone, Copy, Debug, PartialEq, Eq, Structural)]
pub enum ClientStage {
    MakingConfiguration,
    Calling,
    Lingering,
    /// Nothing: the program is over.
    Ended,
}

/// The course of a client.
#[derive(Clone, Copy, Debug, PartialEq, Eq, Structural)]
pub struct ClientRun {
    /// Whether the client announces a public address.
    pub public_ip: bool,
    pub stage: ClientStage,
}

/// What a client asks for.
#[derive(Clone, Copy, Debug, PartialEq, Eq, Structural)]
pub enum ClientAction {
    /// Set QUIC up.
    MakeConfiguration(Profile),
    /// Call the service over a new channel, with a task for the connections
    /// where `watch_connections`.
    Call { watch_connections: bool },
    /// Wait for some seconds.
    Linger { seconds: u64 },
    /// End the program.
    Return(Outcome),
    /// Abandon the program.
    Panic,
}

/// The machine of a client.
pub open spec fn client_next(run: ClientRun, reply: Reply) -> Option<(ClientRun, ClientAction)> {
    let after = match (run.stage, reply) {
        (ClientStage::MakingConfiguration, Reply::Done) => Some(
            (ClientStage::Calling, ClientAction::Call { watch_connections: run.public_ip }),
        ),
        (ClientStage::MakingConfiguration, Reply::Failed) => Some(
            (ClientStage::Ended, ClientAction::Return(Outcome::Failed)),
        ),
        (ClientStage::Calling, Reply::Done) => Some(
            if run.public_ip {
                (ClientStage::Lingering, ClientAction::Linger { seconds: LINGER_SECONDS })
            } else {
                (ClientStage::Ended, ClientAction::Return(Outcome::Completed))
            },
        ),
        (ClientStage::Calling, Reply::Failed) => Some((ClientStage::Ended, ClientAction::Panic)),
        (ClientStage::Lingering, Reply::Done) => Some(
            (ClientStage::Ended, ClientAction::Return(Outcome::Completed)),
        ),
        _ => None,
    };
    match after {
        Some((stage, action)) => Some((ClientRun { stage, ..run }, action)),
        None => None,
    }
}

impl ClientRun {
    /// Starts the plain client: it calls the server that is called where no
    /// other is named, and the first thing it asks for is its configuration.
    pub fn start_plain() -> (r: (ClientRun, UriParts, ClientAction))
        ensures
            r.0 == (ClientRun { public_ip: false, stage: ClientStage::MakingConfiguration }),
            r.1@ == (UriPartsView {
                scheme: Some("https"@),
                authority: Some("127.0.0.1:5047"@),
                path_and_query: Some("/"@),
            }),
            r.2 == ClientAction::MakeConfiguration(Profile::Client),
    {
        let options = CmdOptions::default();
        proof {
            crate::target::law_host_port_is_the_authority(options.target@);
        }
        let uri = options.server_uri().unwrap();
        (
            ClientRun { public_ip: false, stage: ClientStage::MakingConfiguration },
            uri,
            ClientAction::MakeConfiguration(Profile::Client),
        )
    }

    /// Starts the client with a public address: it makes the URI of the server
    /// that the command line names, and gives up where the target makes none;
    /// the first thing it asks for is its configuration.
    pub fn start_public_ip(options: &CmdOptions) -> (r: Result<
        (ClientRun, UriParts, ClientAction),
        TargetError,
    >)
        ensures
            match crate::target::parsed_uri(crate::target::uri_text(options.target@)) {
                Some(parts) => r matches Ok((run, uri, action)) && {
                    &&& run == (ClientRun {
                        public_ip: true,
                        stage: ClientStage::MakingConfiguration,
                    })
                    &&& uri@ == parts
                    &&& uri@ == crate::target::https_parts(options.target@)
                    &&& action == ClientAction::MakeConfiguration(Profile::ClientPublicIp)
                },
                None => r == Err::<(ClientRun, UriParts, ClientAction), TargetError>(
                    TargetError::InvalidUri,
                ),
            },
            crate::target::is_host_port(options.target@) ==> r is Ok,
    {
        match options.server_uri() {
            Ok(uri) => Ok(
                (
                    ClientRun { public_ip: true, stage: ClientStage::MakingConfiguration },
                    uri,
                    ClientAction::MakeConfiguration(Profile::ClientPublicIp),
                ),
            ),
            Err(e) => Err(e),
        }
    }

    /// Takes in what came of the last action and gives the next.  A reply that
    /// the client does not wait for changes nothing and gives none.
    pub fn step(&mut self, reply: Reply) -> (action: Option<ClientAction>)
        ensures
            crate::trace::stepped(*old(self), *final(self), action, client_next(*old(self), reply)),
    {
        let (stage, action) = match (self.stage, reply) {
            (ClientStage::MakingConfiguration, Reply::Done) => (
                ClientStage::Calling,
                ClientAction::Call { watch_connections: self.public_ip },
            ),
            (ClientStage::MakingConfiguration, Reply::Failed) => (
                ClientStage::Ended,
                ClientAction::Return(Outcome::Failed),
            ),
            (ClientStage::Calling, Reply::Done) => if self.public_ip {
                (ClientStage::Lingering, ClientAction::Linger { seconds: LINGER_SECONDS })
            } else {
                (ClientStage::Ended, ClientAction::Return(Outcome::Completed))
            },
            (ClientStage::Calling, Reply::Failed) => (ClientStage::Ended, ClientAction::Panic),
            (ClientStage::Lingering, Reply::Done) => (
                ClientStage::Ended,
                ClientAction::Return(Outcome::Completed),
            ),
            _ => {
                return None;
            },
        };
        self.stage = stage;
        Some(action)
    }
}

/// What the server waits for.
#[derive(Clone, Copy, Debug, PartialEq, Eq, Structural)]
pub enum ServerRun {
    MakingListener,
    ReadingLocalAddr,
    ConnectingProxy,
    StartingTasks,
    AwaitingInterrupt,
    CancellingService,
    AwaitingService,
    AbortingProxy,
    /// Nothing: the program is over.
    Ended,
}

/// What comes of an action of the server.
#[derive(Clone, Copy, Debug, PartialEq, Eq, Structural)]
pub enum ServerReply {
    Done,
    Failed,
    /// The service has ended, with an error of its own.
    ServiceFailed,
}

/// What the server asks for.
#[derive(Clone, Copy, Debug, PartialEq, Eq, Structural)]
pub enum ServerAction {
    /// Set QUIC up and listen.
    MakeListener(Profile),
    /// Ask the listener for its address.
    ReadLocalAddr,
    /// Connect to the proxy at `server_addr` from `local_bind_addr`.
    ConnectProxy {
        local_bind_addr: SocketAddr,
        server_addr: SocketAddr,
        target_addr: Option<SocketAddr>,
    },
    /// Start the tasks for the proxy, the service and the connections.
    StartTasks,
    /// Wait for an interrupt.
    AwaitInterrupt,
    /// Tell the service to shut down.
    CancelService,
    /// Wait for the task of the service to end.  It fails where the task was
    /// not run to its end; an error that the service ended with is no failure
    /// of the wait.
    AwaitService,
    /// Stop talking to the proxy.
    AbortProxy,
    /// End the program.
    Return(Outcome),
    /// Abandon the program.
    Panic,
}

/// `127.0.0.1:5047`, where the server listens.
pub open spec fn listen_address() -> SocketAddr {
    SocketAddr::V4(SocketAddrV4 { ip: Ipv4Addr { a: 127, b: 0, c: 0, d: 1 }, port: 5047 })
}

/// `153.127.33.247:4443`, where the proxy is.
pub open spec fn proxy_address() -> SocketAddr {
    SocketAddr::V4(SocketAddrV4 { ip: Ipv4Addr { a: 153, b: 127, c: 33, d: 247 }, port: 4443 })
}

/// Where the server listens.
pub fn listen_addr() -> (r: SocketAddr)
    ensures
        r == listen_address(),
{
    SocketAddr::new_v4(127, 0, 0, 1, 5047)
}

/// Where the proxy is.
pub fn proxy_addr() -> (r: SocketAddr)
    ensures
        r == proxy_address(),
{
    SocketAddr::new_v4(153, 127, 33, 247, 4443)
}

/// The machine of the server.
pub open spec fn server_next(run: ServerRun, reply: ServerReply) -> Option<(ServerRun, ServerAction)> {
    match (run, reply) {
        (ServerRun::MakingListener, ServerReply::Done) => Some(
            (ServerRun::ReadingLocalAddr, ServerAction::ReadLocalAddr),
        ),
        (ServerRun::ReadingLocalAddr, ServerReply::Done) => Some(
            (
                ServerRun::ConnectingProxy,
                ServerAction::ConnectProxy {
                    local_bind_addr: listen_address(),
                    server_addr: proxy_address(),
                    target_addr: None,
                },
            ),
        ),
        (ServerRun::ConnectingProxy, ServerReply::Done) => Some(
            (ServerRun::StartingTasks, ServerAction::StartTasks),
        ),
        (ServerRun::StartingTasks, ServerReply::Done) => Some(
            (ServerRun::AwaitingInterrupt, ServerAction::AwaitInterrupt),
        ),
        (ServerRun::AwaitingInterrupt, ServerReply::Done) => Some(
            (ServerRun::CancellingService, ServerAction::CancelService),
        ),
        (ServerRun::CancellingService, ServerReply::Done) => Some(
            (ServerRun::AwaitingService, ServerAction::AwaitService),
        ),
        (ServerRun::AwaitingService, ServerReply::Done)
        | (ServerRun::AwaitingService, ServerReply::ServiceFailed) => Some(
            (ServerRun::AbortingProxy, ServerAction::AbortProxy),
        ),
        (ServerRun::AbortingProxy, ServerReply::Done) => Some(
            (ServerRun::Ended, ServerAction::Return(Outcome::Completed)),
        ),
        (ServerRun::AwaitingInterrupt, ServerReply::Failed) => Some(
            (ServerRun::Ended, ServerAction::Panic),
        ),
        (ServerRun::MakingListener, ServerReply::Failed)
        | (ServerRun::ReadingLocalAddr, ServerReply::Failed)
        | (ServerRun::ConnectingProxy, ServerReply::Failed)
        | (ServerRun::AwaitingService, ServerReply::Failed) => Some(
            (ServerRun::Ended, ServerAction::Return(Outcome::Failed)),
        ),
        _ => None,
    }
}

impl ServerRun {
    /// Starts the server: the first thing it asks for is to listen.
    pub fn start() -> (r: (ServerRun, ServerAction))
        ensures
            r == (
                ServerRun::MakingListener,
                ServerAction::MakeListener(
                    Profile::ServerBehindNat { addr: Some(listen_address()) },
                ),
            ),
            r.1 == ServerAction::MakeListener(
                Profile::ServerBehindNat {
                    addr: Some(
                        SocketAddr::V4(
                            SocketAddrV4 {
                                ip: Ipv4Addr { a: 127, b: 0, c: 0, d: 1 },
                                port: 5047,
                            },
                        ),
                    ),
                },
            ),
    {
        (
            ServerRun::MakingListener,
            ServerAction::MakeListener(Profile::ServerBehindNat { addr: Some(listen_addr()) }),
        )
    }

    /// Takes in what came of the last action and gives the next.  A reply that
    /// the server does not wait for changes nothing and gives none.
    pub fn step(&mut self, reply: ServerReply) -> (action: Option<ServerAction>)
        ensures
            crate::trace::stepped(*old(self), *final(self), action, server_next(*old(self), reply)),
    {
        let (run, action) = match (*self, reply) {
            (ServerRun::MakingListener, ServerReply::Done) => (
                ServerRun::ReadingLocalAddr,
                ServerAction::ReadLocalAddr,
            ),
            (ServerRun::ReadingLocalAddr, ServerReply::Done) => (
                ServerRun::ConnectingProxy,
                ServerAction::ConnectProxy {
                    local_bind_addr: listen_addr(),
                    server_addr: proxy_addr(),
                    target_addr: None,
                },
            ),
            (ServerRun::ConnectingProxy, ServerReply::Done) => (
                ServerRun::StartingTasks,
                ServerAction::StartTasks,
            ),
            (ServerRun::StartingTasks, ServerReply::Done) => (
                ServerRun::AwaitingInterrupt,
                ServerAction::AwaitInterrupt,
            ),
            (ServerRun::AwaitingInterrupt, ServerReply::Done) => (
                ServerRun::CancellingService,
                ServerAction::CancelService,
            ),
            (ServerRun::CancellingService, ServerReply::Done) => (
                ServerRun::AwaitingService,
                ServerAction::AwaitService,
            ),
            (ServerRun::AwaitingService, ServerReply::Done)
        | (ServerRun::AwaitingService, ServerReply::ServiceFailed) => (
                ServerRun::AbortingProxy,
                ServerAction::AbortProxy,
            ),
            (ServerRun::AbortingProxy, ServerReply::Done) => (
                ServerRun::Ended,
                ServerAction::Return(Outcome::Completed),
            ),
            (ServerRun::AwaitingInterrupt, ServerReply::Failed) => (
                ServerRun::Ended,
                ServerAction::Panic,
            ),
            (ServerRun::MakingListener, ServerReply::Failed)
            | (ServerRun::ReadingLocalAddr, ServerReply::Failed)
            | (ServerRun::ConnectingProxy, ServerReply::Failed)
            | (ServerRun::AwaitingService, ServerReply::Failed) => (
                ServerRun::Ended,
                ServerAction::Return(Outcome::Failed),
            ),
            _ => {
                return None;
            },
        };
        *self = run;
        Some(action)
    }
}

/// The run of the server over a sequence of replies.
pub open spec fn server_run(replies: Seq<ServerReply>) -> Option<(ServerRun, Seq<ServerAction>)> {
    crate::trace::run(
        |run: ServerRun, reply: ServerReply| server_next(run, reply),
        ServerRun::MakingListener,
        replies,
    )
}

/// Whether the server goes on with its work after a reply, the `i`th from 0: it
/// does where nothing failed, and where the service, which it waits for with
/// the seventh, ended with an error.
pub open spec fn goes_on(reply: ServerReply, i: int) -> bool {
    reply == ServerReply::Done || (i == 6 && reply == ServerReply::ServiceFailed)
}

/// How many replies the server has taken in, where none failed.
pub open spec fn server_progress(run: ServerRun) -> nat {
    match run {
        ServerRun::MakingListener => 0,
        ServerRun::ReadingLocalAddr => 1,
        ServerRun::ConnectingProxy => 2,
        ServerRun::StartingTasks => 3,
        ServerRun::AwaitingInterrupt => 4,
        ServerRun::CancellingService => 5,
        ServerRun::AwaitingService => 6,
        ServerRun::AbortingProxy => 7,
        ServerRun::Ended => 8,
    }
}

proof fn lemma_server_replies(replies: Seq<ServerReply>)
    ensures
        server_run(replies) matches Some((run, actions)) ==> {
            &&& actions.len() == replies.len()
            &&& run != ServerRun::Ended ==> replies.len() == server_progress(run) && forall|i: int|
                0 <= i < replies.len() ==> goes_on(#[trigger] replies[i], i)
            &&& run == ServerRun::Ended ==> 0 < replies.len() <= 8 && forall|i: int|
                0 <= i < replies.len() - 1 ==> goes_on(#[trigger] replies[i], i)
        },
    decreases replies.len(),
{
    if replies.len() > 0 {
        let before = replies.drop_last();
        lemma_server_replies(before);
        assert forall|i: int| 0 <= i < before.len() implies #[trigger] replies[i] == before[i] by {}
    }
}

/// A failure is the last thing that the server takes in, and after eight
/// replies it is over.
pub proof fn law_server_stops_at_a_failure(replies: Seq<ServerReply>, i: int)
    requires
        server_run(replies) is Some,
        0 <= i < replies.len(),
        replies[i] == ServerReply::Failed,
    ensures
        i == replies.len() - 1,
        replies.len() <= 8,
        server_run(replies)->Some_0.0 == ServerRun::Ended,
{
    lemma_server_replies(replies);
}

/// The error that the service ended with changes nothing: a run with it is the
/// run without it.
pub proof fn law_service_error_is_dropped(replies: Seq<ServerReply>, i: int)
    requires
        server_run(replies) is Some,
        0 <= i < replies.len(),
        replies[i] == ServerReply::ServiceFailed,
    ensures
        i == 6,
        server_run(replies) == server_run(replies.update(i, ServerReply::Done)),
    decreases replies.len(),
{
    let before = replies.drop_last();
    let without = replies.update(i, ServerReply::Done);
    lemma_server_replies(before);
    if i < before.len() {
        law_service_error_is_dropped(before, i);
        assert(without.drop_last() =~= before.update(i, ServerReply::Done));
    } else {
        assert(without.drop_last() =~= before);
    }
}

/// The server completes exactly if nothing fails but the service itself; and then, after the
/// interrupt, it told the service to shut down, waited for it, and stopped
/// talking to the proxy, in that order.
pub proof fn law_server_completes_in_order(replies: Seq<ServerReply>)
    requires
        server_run(replies) is Some,
        replies.len() > 0,
    ensures
        server_run(replies)->Some_0.1.last() == ServerAction::Return(Outcome::Completed)
            <==> replies.len() == 8 && forall|i: int|
            0 <= i < 8 ==> goes_on(#[trigger] replies[i], i),
        server_run(replies)->Some_0.1.last() == ServerAction::Return(Outcome::Completed)
            ==> server_run(replies)->Some_0.1 == seq![
            ServerAction::ReadLocalAddr,
            ServerAction::ConnectProxy {
                local_bind_addr: listen_address(),
                server_addr: proxy_address(),
                target_addr: None,
            },
            ServerAction::StartTasks,
            ServerAction::AwaitInterrupt,
            ServerAction::CancelService,
            ServerAction::AwaitService,
            ServerAction::AbortProxy,
            ServerAction::Return(Outcome::Completed),
        ],
{
    let before = replies.drop_last();
    lemma_server_replies(replies);
    lemma_server_replies(before);
    lemma_server_actions(before);
    if server_run(replies)->Some_0.1.last() == ServerAction::Return(Outcome::Completed) {
        assert(server_run(before)->Some_0.0 == ServerRun::AbortingProxy);
        assert forall|i: int| 0 <= i < before.len() implies #[trigger] replies[i] == before[i] by {}
        assert(replies.last() == ServerReply::Done);
    }
    if replies.len() == 8 && forall|i: int| 0 <= i < 8 ==> goes_on(#[trigger] replies[i], i) {
        assert(goes_on(replies[7], 7));
        assert(forall|i: int| 0 <= i < 7 ==> #[trigger] before[i] == replies[i]);
        assert(server_run(before)->Some_0.0 != ServerRun::Ended);
    }
}

proof fn lemma_server_actions(replies: Seq<ServerReply>)
    ensures
        server_run(replies) matches Some((run, actions)) ==> run != ServerRun::Ended ==> actions
            == seq![
            ServerAction::ReadLocalAddr,
            ServerAction::ConnectProxy {
                local_bind_addr: listen_address(),
                server_addr: proxy_address(),
                target_addr: None,
            },
            ServerAction::StartTasks,
            ServerAction::AwaitInterrupt,
            ServerAction::CancelService,
            ServerAction::AwaitService,
            ServerAction::AbortProxy,
        ].take(server_progress(run) as int),
    decreases replies.len(),
{
    if replies.len() > 0 {
        lemma_server_actions(replies.drop_last());
    }
}

/// The run of a client over a sequence of replies.
pub open spec fn client_run(public_ip: bool, replies: Seq<Reply>) -> Option<
    (ClientRun, Seq<ClientAction>),
> {
    crate::trace::run(
        |run: ClientRun, reply: Reply| client_next(run, reply),
        ClientRun { public_ip, stage: ClientStage::MakingConfiguration },
        replies,
    )
}

/// A client completes exactly if nothing fails.  It is over after its call, but
/// for the one with a public address, which stays for a while.
pub proof fn law_client_completes_in_order(public_ip: bool, replies: Seq<Reply>)
    requires
        client_run(public_ip, replies) is Some,
        replies.len() > 0,
    ensures
        client_run(public_ip, replies)->Some_0.1.last() == ClientAction::Return(Outcome::Completed)
            <==> replies == (if public_ip {
            seq![Reply::Done, Reply::Done, Reply::Done]
        } else {
            seq![Reply::Done, Reply::Done]
        }),
        client_run(public_ip, replies)->Some_0.1.last() == ClientAction::Return(Outcome::Completed)
            ==> client_run(public_ip, replies)->Some_0.1 == (if public_ip {
            seq![
                ClientAction::Call { watch_connections: true },
                ClientAction::Linger { seconds: LINGER_SECONDS },
                ClientAction::Return(Outcome::Completed),
            ]
        } else {
            seq![
                ClientAction::Call { watch_connections: false },
                ClientAction::Return(Outcome::Completed),
            ]
        }),
{
    let before = replies.drop_last();
    lemma_client_progress(public_ip, before);
    lemma_client_progress(public_ip, replies);
    if client_run(public_ip, replies)->Some_0.1.last() == ClientAction::Return(
        Outcome::Completed,
    ) {
        if public_ip {
            assert(replies =~= seq![Reply::Done, Reply::Done, Reply::Done]);
        } else {
            assert(replies =~= seq![Reply::Done, Reply::Done]);
        }
    }
    if public_ip && replies == seq![Reply::Done, Reply::Done, Reply::Done] {
        assert(before.len() == 2 && before.last() == Reply::Done);
    }
    if !public_ip && replies == seq![Reply::Done, Reply::Done] {
        assert(before.len() == 1 && before.last() == Reply::Done);
    }
}

proof fn lemma_client_progress(public_ip: bool, replies: Seq<Reply>)
    ensures
        client_run(public_ip, replies) matches Some((run, actions)) ==> run.public_ip == public_ip
            && match run.stage {
            ClientStage::MakingConfiguration => replies == Seq::<Reply>::empty() && actions
                == Seq::<ClientAction>::empty(),
            ClientStage::Calling => replies == seq![Reply::Done] && actions == seq![
                ClientAction::Call { watch_connections: public_ip },
            ],
            ClientStage::Lingering => public_ip && replies == seq![Reply::Done, Reply::Done]
                && actions == seq![
                ClientAction::Call { watch_connections: true },
                ClientAction::Linger { seconds: LINGER_SECONDS },
            ],
            ClientStage::Ended => replies.len() > 0 && (replies.last() == Reply::Failed
                || replies.len() == if public_ip {
                3int
            } else {
                2int
            }),
        },
    decreases replies.len(),
{
    if replies.len() > 0 {
        let before = replies.drop_last();
        lemma_client_progress(public_ip, before);
        assert(replies =~= before.push(replies.last()));
    } else {
        assert(replies =~= Seq::<Reply>::empty());
    }
}

/// The server goes its course: over any replies that are all `Done`, but for the
/// seventh, the one that the service has ended, which may also say that it ended
/// with an error, there is a run, up to the end; it asks for the actions of the
/// course in their order, as many as there were replies, and waits for what the
/// last of them brings.
pub proof fn law_server_goes_its_course(replies: Seq<ServerReply>)
    requires
        replies.len() <= 8,
        forall|i: int|
            0 <= i < replies.len() ==> #[trigger] replies[i] == ServerReply::Done || (i == 6
                && replies[i] == ServerReply::ServiceFailed),
    ensures
        server_run(replies) matches Some((run, actions)) && run == seq![
            ServerRun::MakingListener,
            ServerRun::ReadingLocalAddr,
            ServerRun::ConnectingProxy,
            ServerRun::StartingTasks,
            ServerRun::AwaitingInterrupt,
            ServerRun::CancellingService,
            ServerRun::AwaitingService,
            ServerRun::AbortingProxy,
            ServerRun::Ended,
        ][replies.len() as int] && actions == seq![
            ServerAction::ReadLocalAddr,
            ServerAction::ConnectProxy {
                local_bind_addr: SocketAddr::V4(
                    SocketAddrV4 { ip: Ipv4Addr { a: 127, b: 0, c: 0, d: 1 }, port: 5047 },
                ),
                server_addr: SocketAddr::V4(
                    SocketAddrV4 { ip: Ipv4Addr { a: 153, b: 127, c: 33, d: 247 }, port: 4443 },
                ),
                target_addr: None,
            },
            ServerAction::StartTasks,
            ServerAction::AwaitInterrupt,
            ServerAction::CancelService,
            ServerAction::AwaitService,
            ServerAction::AbortProxy,
            ServerAction::Return(Outcome::Completed),
        ].take(replies.len() as int),
    decreases replies.len(),
{
    if replies.len() > 0 {
        let before = replies.drop_last();
        assert forall|i: int| 0 <= i < before.len() implies #[trigger] before[i]
            == ServerReply::Done || (i == 6 && before[i] == ServerReply::ServiceFailed) by {
            assert(before[i] == replies[i]);
        }
        law_server_goes_its_course(before);
        let last = replies.len() - 1;
        assert(replies.last() == replies[last]);
    }
}

/// What a failure does depends on where it comes, after so many replies of the
/// course: the making of the listener, the reading of its address, the connecting
/// to the proxy and the wait for the service return it, the wait for an interrupt
/// panics, and nothing else can fail.  An error of the service comes only where
/// the server waits for it, and after the end nothing comes.
pub proof fn law_where_the_server_fails(replies: Seq<ServerReply>)
    requires
        replies.len() <= 8,
        forall|i: int|
            0 <= i < replies.len() ==> #[trigger] replies[i] == ServerReply::Done || (i == 6
                && replies[i] == ServerReply::ServiceFailed),
    ensures
        ({
            let n = replies.len();
            let failed = server_run(replies.push(ServerReply::Failed));
            &&& n == 0 || n == 1 || n == 2 || n == 6 ==> (failed matches Some((run, actions))
                && run == ServerRun::Ended && actions.last() == ServerAction::Return(
                Outcome::Failed,
            ))
            &&& n == 4 ==> (failed matches Some((run, actions)) && run == ServerRun::Ended
                && actions.last() == ServerAction::Panic)
            &&& n == 3 || n == 5 || n == 7 || n == 8 ==> failed is None
            &&& server_run(replies.push(ServerReply::ServiceFailed)) is Some <==> n == 6
            &&& server_run(replies.push(ServerReply::Done)) is Some <==> n < 8
        }),
{
    law_server_goes_its_course(replies);
    let next = |run: ServerRun, reply: ServerReply| server_next(run, reply);
    crate::trace::lemma_run_push(next, ServerRun::MakingListener, replies, ServerReply::Failed);
    crate::trace::lemma_run_push(next, ServerRun::MakingListener, replies, ServerReply::Done);
    crate::trace::lemma_run_push(
        next,
        ServerRun::MakingListener,
        replies,
        ServerReply::ServiceFailed,
    );
}

/// The plain client calls once its configuration is made and is then done; the
/// client with a public address also watches its connections and stays for ten
/// seconds.  There is a run over each of these courses, and none that goes on
/// after its end.
pub proof fn law_client_goes_its_course(reply: Reply)
    ensures
        client_run(false, seq![Reply::Done, Reply::Done]) == Some(
            (
                ClientRun { public_ip: false, stage: ClientStage::Ended },
                seq![
                    ClientAction::Call { watch_connections: false },
                    ClientAction::Return(Outcome::Completed),
                ],
            ),
        ),
        client_run(true, seq![Reply::Done, Reply::Done, Reply::Done]) == Some(
            (
                ClientRun { public_ip: true, stage: ClientStage::Ended },
                seq![
                    ClientAction::Call { watch_connections: true },
                    ClientAction::Linger { seconds: 10 },
                    ClientAction::Return(Outcome::Completed),
                ],
            ),
        ),
        client_run(false, seq![Reply::Done, Reply::Done, reply]) is None,
        client_run(true, seq![Reply::Done, Reply::Done, Reply::Done, reply]) is None,
        forall|public_ip: bool| #[trigger]
            client_run(public_ip, seq![Reply::Done]) == Some(
                (
                    ClientRun { public_ip, stage: ClientStage::Calling },
                    seq![ClientAction::Call { watch_connections: public_ip }],
                ),
            ),
{
    lemma_client_course(false, reply);
    lemma_client_course(true, reply);
}

proof fn lemma_client_course(public_ip: bool, reply: Reply)
    ensures
        ({
            let one = seq![Reply::Done];
            let two = one.push(Reply::Done);
            let three = two.push(Reply::Done);
            &&& one.push(Reply::Done) =~= seq![Reply::Done, Reply::Done]
            &&& two.push(reply) =~= seq![Reply::Done, Reply::Done, reply]
            &&& three.push(reply) =~= seq![Reply::Done, Reply::Done, Reply::Done, reply]
            &&& two.push(Reply::Done) =~= seq![Reply::Done, Reply::Done, Reply::Done]
            &&& client_run(public_ip, one) == Some(
                (
                    ClientRun { public_ip, stage: ClientStage::Calling },
                    seq![ClientAction::Call { watch_connections: public_ip }],
                ),
            )
            &&& client_run(public_ip, two) == Some(
                if public_ip {
                    (
                        ClientRun { public_ip, stage: ClientStage::Lingering },
                        seq![
                            ClientAction::Call { watch_connections: true },
                            ClientAction::Linger { seconds: 10 },
                        ],
                    )
                } else {
                    (
                        ClientRun { public_ip, stage: ClientStage::Ended },
                        seq![
                            ClientAction::Call { watch_connections: false },
                            ClientAction::Return(Outcome::Completed),
                        ],
                    )
                },
            )
            &&& public_ip ==> client_run(public_ip, three) == Some(
                (
                    ClientRun { public_ip, stage: ClientStage::Ended },
                    seq![
                        ClientAction::Call { watch_connections: true },
                        ClientAction::Linger { seconds: 10 },
                        ClientAction::Return(Outcome::Completed),
                    ],
                ),
            )
            &&& !public_ip ==> client_run(public_ip, two.push(reply)) is None
            &&& client_run(public_ip, three.push(reply)) is None
        }),
{
    let next = |run: ClientRun, reply: Reply| client_next(run, reply);
    let fresh = ClientRun { public_ip, stage: ClientStage::MakingConfiguration };
    let none = Seq::<Reply>::empty();
    let one = seq![Reply::Done];
    let two = one.push(Reply::Done);
    let three = two.push(Reply::Done);
    assert(none.push(Reply::Done) =~= one);
    crate::trace::lemma_run_push(next, fresh, none, Reply::Done);
    crate::trace::lemma_run_push(next, fresh, one, Reply::Done);
    crate::trace::lemma_run_push(next, fresh, two, Reply::Done);
    crate::trace::lemma_run_push(next, fresh, two, reply);
    crate::trace::lemma_run_push(next, fresh, three, reply);
}

/// A configuration that cannot be made is returned as the failure, a call that
/// fails panics, and the stay cannot fail; either client ends there.
pub proof fn law_where_a_client_fails(public_ip: bool)
    ensures
        client_next(
            ClientRun { public_ip, stage: ClientStage::MakingConfiguration },
            Reply::Failed,
        ) == Some(
            (
                ClientRun { public_ip, stage: ClientStage::Ended },
                ClientAction::Return(Outcome::Failed),
            ),
        ),
        client_next(ClientRun { public_ip, stage: ClientStage::Calling }, Reply::Failed) == Some(
            (ClientRun { public_ip, stage: ClientStage::Ended }, ClientAction::Panic),
        ),
        client_next(ClientRun { public_ip, stage: ClientStage::Lingering }, Reply::Failed) is None,
        client_next(ClientRun { public_ip, stage: ClientStage::Ended }, Reply::Failed) is None,
        client_next(ClientRun { public_ip, stage: ClientStage::Ended }, Reply::Done) is None,
        client_next(ClientRun { public_ip, stage: ClientStage::Lingering }, Reply::Done) == Some(
            (
                ClientRun { public_ip, stage: ClientStage::Ended },
                ClientAction::Return(Outcome::Completed),
            ),
        ),
{
}

} // verus!
