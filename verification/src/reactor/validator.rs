//! The reactor of a validator node.

pub mod config;
pub mod error;

use crate::components::{
    handled_by, lemma_handled_by_replays, replayable, ApiServerEvent, Component, ConsensusEvent,
    DeployGossiperEvent, NetworkEvent, PingerEvent,
};
use crate::effect::announcements::NetworkAnnouncement;
use crate::effect::requests::NetworkRequest;
use crate::effect::{Effect, EffectBuilder, Multiple};
use crate::random::from_entropy;
use crate::reactor::{lemma_wrap_effects_maps, lifted, wrap_effects, yields_of};
use core::fmt::Debug;
use rand_chacha::ChaCha20Rng;
use vstd::prelude::*;
use vstd::string::StringExecFns;

pub use config::Config;
pub use error::Error;

verus! {

/// The types that one validator node is made of, and the way each of its
/// subsystems is started.
pub trait Node: Sized + Clone + Debug + PartialEq + Eq {
    /// Identifies a peer.
    type NodeId: Clone + Debug + PartialEq + Eq;

    /// What pingers send each other.
    type PingerMessage: Clone + Debug + PartialEq + Eq;

    /// What consensus subsystems send each other.
    type ConsensusMessage: Clone + Debug + PartialEq + Eq;

    /// What deploy gossipers send each other.
    type DeployGossiperMessage: Clone + Debug + PartialEq + Eq;

    /// The events of the transport itself.
    type NetworkLocal: Clone + Debug + PartialEq + Eq;

    /// The events that the pinger raises for itself.
    type PingerLocal: Clone + Debug + PartialEq + Eq;

    /// What can be asked of the storage subsystem.
    type StorageRequest: Clone + Debug + PartialEq + Eq;

    /// What can be asked through the API.
    type ApiRequest: Clone + Debug + PartialEq + Eq;

    /// The events that the API server raises for itself.
    type ApiServerLocal: Clone + Debug + PartialEq + Eq;

    /// The events that the consensus subsystem raises for itself.
    type ConsensusLocal: Clone + Debug + PartialEq + Eq;

    /// What can be asked of the deploy gossiper.
    type DeployGossiperRequest: Clone + Debug + PartialEq + Eq;

    /// The events that the deploy gossiper raises for itself.
    type DeployGossiperLocal: Clone + Debug + PartialEq + Eq;

    /// The handle of the event queue.
    type EventQueue: Copy;

    /// The network subsystem's configuration.
    type NetworkConfig: Clone + Debug + PartialEq + Eq;

    /// The storage subsystem's configuration.
    type StorageConfig: Clone + Debug + PartialEq + Eq;

    /// The API server's configuration.
    type HttpServerConfig: Clone + Debug + PartialEq + Eq;

    /// The deploy gossiper's configuration.
    type GossipConfig: Clone + Debug + PartialEq + Eq;

    /// Why the network subsystem may fail to start.
    type NetworkError: Clone + Debug + PartialEq + Eq;

    /// Why the storage subsystem may fail to open.
    type StorageError: Clone + Debug + PartialEq + Eq;

    /// The network subsystem.
    type Network: Debug + Component<Self::EventQueue, Event = NetworkEventOf<Self>>;

    /// The pinger.
    type Pinger: Debug + Component<Self::EventQueue, Event = PingerEventOf<Self>>;

    /// The storage subsystem.
    type Storage: Debug + Component<Self::EventQueue, Event = Self::StorageRequest>;

    /// The API server.
    type ApiServer: Debug + Component<Self::EventQueue, Event = ApiServerEventOf<Self>>;

    /// The consensus subsystem.
    type Consensus: Debug + Component<Self::EventQueue, Event = ConsensusEventOf<Self>>;

    /// The deploy gossiper.
    type DeployGossiper: Debug + Component<Self::EventQueue, Event = DeployGossiperEventOf<Self>>;

    /// Starts the network subsystem.
    fn new_net(event_queue: Self::EventQueue, cfg: Self::NetworkConfig) -> Result<
        (Self::Network, Multiple<Effect<NetworkEventOf<Self>>>),
        Self::NetworkError,
    >;

    /// Starts the pinger.
    fn new_pinger(effect_builder: EffectBuilder<Self::EventQueue>) -> (
        Self::Pinger,
        Multiple<Effect<PingerEventOf<Self>>>,
    );

    /// Opens the storage subsystem.
    fn new_storage(cfg: Self::StorageConfig) -> Result<Self::Storage, Self::StorageError>;

    /// Starts the API server.
    fn new_api_server(
        cfg: Self::HttpServerConfig,
        effect_builder: EffectBuilder<Self::EventQueue>,
    ) -> (Self::ApiServer, Multiple<Effect<ApiServerEventOf<Self>>>);

    /// Starts the consensus subsystem.
    fn new_consensus() -> Self::Consensus;

    /// Starts the deploy gossiper.
    fn new_deploy_gossiper(cfg: Self::GossipConfig) -> Self::DeployGossiper;
}

/// The network subsystem's events in a node of types `T`.
pub type NetworkEventOf<T> = NetworkEvent<
    <T as Node>::NodeId,
    Message<T>,
    <T as Node>::NetworkLocal,
>;

/// The pinger's events in a node of types `T`.
pub type PingerEventOf<T> = PingerEvent<
    <T as Node>::NodeId,
    <T as Node>::PingerMessage,
    <T as Node>::PingerLocal,
>;

/// The API server's events in a node of types `T`.
pub type ApiServerEventOf<T> = ApiServerEvent<
    <T as Node>::ApiRequest,
    <T as Node>::ApiServerLocal,
>;

/// The consensus subsystem's events in a node of types `T`.
pub type ConsensusEventOf<T> = ConsensusEvent<
    <T as Node>::NodeId,
    <T as Node>::ConsensusMessage,
    <T as Node>::ConsensusLocal,
>;

/// The deploy gossiper's events in a node of types `T`.
pub type DeployGossiperEventOf<T> = DeployGossiperEvent<
    <T as Node>::NodeId,
    <T as Node>::DeployGossiperMessage,
    <T as Node>::DeployGossiperRequest,
    <T as Node>::DeployGossiperLocal,
>;

/// The subsystems of a validator node.
#[derive(Debug, Clone, Copy, PartialEq, Eq, Structural)]
pub enum Subsystem {
    /// The peer-to-peer transport.
    Network,
    /// The heartbeat.
    Pinger,
    /// The local store.
    Storage,
    /// The public API.
    ApiServer,
    /// The consensus engine.
    Consensus,
    /// The gossip of deploys.
    DeployGossiper,
}

/// What crosses the wire between two nodes: a message of one subsystem for
/// the same subsystem of the peer.
#[derive(Debug, Clone, PartialEq, Eq)]
pub enum Message<T: Node> {
    /// A message of the pinger.
    Pinger(T::PingerMessage),
    /// A message of the consensus subsystem.
    Consensus(T::ConsensusMessage),
    /// A message of the deploy gossiper.
    DeployGossiper(T::DeployGossiperMessage),
}

impl<T: Node> Message<T> {
    /// A message of the pinger, ready for the wire.
    pub fn from_pinger(msg: T::PingerMessage) -> (message: Self)
        ensures
            message == Message::<T>::Pinger(msg),
    {
        Message::Pinger(msg)
    }

    /// A message of the consensus subsystem, ready for the wire.
    pub fn from_consensus(msg: T::ConsensusMessage) -> (message: Self)
        ensures
            message == Message::<T>::Consensus(msg),
    {
        Message::Consensus(msg)
    }

    /// A message of the deploy gossiper, ready for the wire.
    pub fn from_deploy_gossiper(msg: T::DeployGossiperMessage) -> (message: Self)
        ensures
            message == Message::<T>::DeployGossiper(msg),
    {
        Message::DeployGossiper(msg)
    }

    /// What the text of a message begins with: the name of its subsystem.
    pub open spec fn prefix(self) -> Seq<char> {
        match self {
            Message::Pinger(_) => "Pinger::"@,
            Message::Consensus(_) => "Consensus::"@,
            Message::DeployGossiper(_) => "DeployGossiper::"@,
        }
    }

    /// The text of the message for logs: the name of its subsystem, then
    /// `inner`, which is the text of the subsystem's own message.
    pub fn describe(&self, inner: &str) -> (text: String)
        ensures
            text@ == self.prefix() + inner@,
    {
        let prefix = match self {
            Message::Pinger(_) => "Pinger::",
            Message::Consensus(_) => "Consensus::",
            Message::DeployGossiper(_) => "DeployGossiper::",
        };
        String::from_str(prefix).concat(inner)
    }

    /// The subsystem that the message is for.
    pub open spec fn owner(self) -> Subsystem {
        match self {
            Message::Pinger(_) => Subsystem::Pinger,
            Message::Consensus(_) => Subsystem::Consensus,
            Message::DeployGossiper(_) => Subsystem::DeployGossiper,
        }
    }
}

/// Everything that can happen in a validator node.
#[derive(Debug, Clone, PartialEq, Eq)]
#[must_use]
pub enum Event<T: Node> {
    /// An event of the network subsystem.
    Network(NetworkEventOf<T>),
    /// An event of the pinger.
    Pinger(PingerEventOf<T>),
    /// An event of the storage subsystem.
    Storage(T::StorageRequest),
    /// An event of the API server.
    ApiServer(ApiServerEventOf<T>),
    /// An event of the consensus subsystem.
    Consensus(ConsensusEventOf<T>),
    /// An event of the deploy gossiper.
    DeployGossiper(DeployGossiperEventOf<T>),
    /// A subsystem asks for a message to be sent.
    NetworkRequest(NetworkRequest<T::NodeId, Message<T>>),
    /// The network subsystem announces that a message arrived.
    NetworkAnnouncement(NetworkAnnouncement<T::NodeId, Message<T>>),
}

impl<T: Node> Event<T> {
    /// The function that makes an event of the network subsystem an event of the node.
    pub open spec fn network() -> spec_fn(NetworkEventOf<T>) -> Self {
        |event: NetworkEventOf<T>| Event::<T>::Network(event)
    }

    /// The function that makes an event of the pinger an event of the node.
    pub open spec fn pinger() -> spec_fn(PingerEventOf<T>) -> Self {
        |event: PingerEventOf<T>| Event::<T>::Pinger(event)
    }

    /// The function that makes an event of the storage subsystem an event of the node.
    pub open spec fn storage() -> spec_fn(T::StorageRequest) -> Self {
        |event: T::StorageRequest| Event::<T>::Storage(event)
    }

    /// The function that makes an event of the API server an event of the node.
    pub open spec fn api_server() -> spec_fn(ApiServerEventOf<T>) -> Self {
        |event: ApiServerEventOf<T>| Event::<T>::ApiServer(event)
    }

    /// The function that makes an event of the consensus subsystem an event of the node.
    pub open spec fn consensus() -> spec_fn(ConsensusEventOf<T>) -> Self {
        |event: ConsensusEventOf<T>| Event::<T>::Consensus(event)
    }

    /// The function that makes an event of the deploy gossiper an event of the node.
    pub open spec fn deploy_gossiper() -> spec_fn(DeployGossiperEventOf<T>) -> Self {
        |event: DeployGossiperEventOf<T>| Event::<T>::DeployGossiper(event)
    }

    /// An event of the network subsystem, as an event of the node.
    pub fn from_network(event: NetworkEventOf<T>) -> (wrapped: Self)
        ensures
            wrapped == Event::<T>::Network(event),
    {
        Event::Network(event)
    }

    /// An event of the pinger, as an event of the node.
    pub fn from_pinger(event: PingerEventOf<T>) -> (wrapped: Self)
        ensures
            wrapped == Event::<T>::Pinger(event),
    {
        Event::Pinger(event)
    }

    /// An event of the storage subsystem, as an event of the node.
    pub fn from_storage(event: T::StorageRequest) -> (wrapped: Self)
        ensures
            wrapped == Event::<T>::Storage(event),
    {
        Event::Storage(event)
    }

    /// An event of the API server, as an event of the node.
    pub fn from_api_server(event: ApiServerEventOf<T>) -> (wrapped: Self)
        ensures
            wrapped == Event::<T>::ApiServer(event),
    {
        Event::ApiServer(event)
    }

    /// An event of the consensus subsystem, as an event of the node.
    pub fn from_consensus(event: ConsensusEventOf<T>) -> (wrapped: Self)
        ensures
            wrapped == Event::<T>::Consensus(event),
    {
        Event::Consensus(event)
    }

    /// An event of the deploy gossiper, as an event of the node.
    pub fn from_deploy_gossiper(event: DeployGossiperEventOf<T>) -> (wrapped: Self)
        ensures
            wrapped == Event::<T>::DeployGossiper(event),
    {
        Event::DeployGossiper(event)
    }

    /// A request to the network in the node's own message type, as an event of
    /// the node.
    pub fn from_network_request(request: NetworkRequest<T::NodeId, Message<T>>) -> (wrapped: Self)
        ensures
            wrapped == Event::<T>::NetworkRequest(request),
    {
        Event::NetworkRequest(request)
    }

    /// An announcement of the network, as an event of the node.
    pub fn from_network_announcement(
        announcement: NetworkAnnouncement<T::NodeId, Message<T>>,
    ) -> (wrapped: Self)
        ensures
            wrapped == Event::<T>::NetworkAnnouncement(announcement),
    {
        Event::NetworkAnnouncement(announcement)
    }

    /// The event by which the API server learns of `request`.
    pub open spec fn api_request(request: T::ApiRequest) -> Self {
        Event::ApiServer(ApiServerEvent::ApiRequest(request))
    }

    /// A request that came in through the API, as the API server's event.
    pub fn from_api_request(request: T::ApiRequest) -> (wrapped: Self)
        ensures
            wrapped == Self::api_request(request),
    {
        Event::ApiServer(ApiServerEvent::ApiRequest(request))
    }

    /// The event by which the deploy gossiper learns of `request`.
    pub open spec fn deploy_gossiper_request(request: T::DeployGossiperRequest) -> Self {
        Event::DeployGossiper(DeployGossiperEvent::Request(request))
    }

    /// A request to the deploy gossiper, as the gossiper's event.
    pub fn from_deploy_gossiper_request(request: T::DeployGossiperRequest) -> (wrapped: Self)
        ensures
            wrapped == Self::deploy_gossiper_request(request),
    {
        Event::DeployGossiper(DeployGossiperEvent::Request(request))
    }

    /// The pinger's request to the network, with its message wrapped for the
    /// wire.
    pub open spec fn pinger_network_request(
        request: NetworkRequest<T::NodeId, T::PingerMessage>,
    ) -> Self {
        Event::NetworkRequest(request.with_payload(Message::<T>::Pinger(request.payload())))
    }

    /// The pinger asks the network to send one of its messages: the request
    /// stays as it is but for the message, which is wrapped for the wire.
    pub fn from_pinger_network_request(
        request: NetworkRequest<T::NodeId, T::PingerMessage>,
    ) -> (wrapped: Self)
        ensures
            wrapped == Self::pinger_network_request(request),
    {
        Event::NetworkRequest(request.map_payload(Message::from_pinger))
    }

    /// The consensus subsystem's request to the network, with its message
    /// wrapped for the wire.
    pub open spec fn consensus_network_request(
        request: NetworkRequest<T::NodeId, T::ConsensusMessage>,
    ) -> Self {
        Event::NetworkRequest(request.with_payload(Message::<T>::Consensus(request.payload())))
    }

    /// The consensus subsystem asks the network to send one of its messages:
    /// the request stays as it is but for the message, which is wrapped for
    /// the wire.
    pub fn from_consensus_network_request(
        request: NetworkRequest<T::NodeId, T::ConsensusMessage>,
    ) -> (wrapped: Self)
        ensures
            wrapped == Self::consensus_network_request(request),
    {
        Event::NetworkRequest(request.map_payload(Message::from_consensus))
    }

    /// The deploy gossiper's request to the network, with its message wrapped
    /// for the wire.
    pub open spec fn deploy_gossiper_network_request(
        request: NetworkRequest<T::NodeId, T::DeployGossiperMessage>,
    ) -> Self {
        Event::NetworkRequest(
            request.with_payload(Message::<T>::DeployGossiper(request.payload())),
        )
    }

    /// The deploy gossiper asks the network to send one of its messages: the
    /// request stays as it is but for the message, which is wrapped for the
    /// wire.
    pub fn from_deploy_gossiper_network_request(
        request: NetworkRequest<T::NodeId, T::DeployGossiperMessage>,
    ) -> (wrapped: Self)
        ensures
            wrapped == Self::deploy_gossiper_network_request(request),
    {
        Event::NetworkRequest(request.map_payload(Message::from_deploy_gossiper))
    }

    /// What the text of an event begins with: the name of its kind.
    pub open spec fn label(self) -> Seq<char> {
        match self {
            Event::Network(_) => "network: "@,
            Event::Pinger(_) => "pinger: "@,
            Event::Storage(_) => "storage: "@,
            Event::ApiServer(_) => "api server: "@,
            Event::Consensus(_) => "consensus: "@,
            Event::DeployGossiper(_) => "deploy gossiper: "@,
            Event::NetworkRequest(_) => "network request: "@,
            Event::NetworkAnnouncement(_) => "network announcement: "@,
        }
    }

    /// The text of the event for logs: the name of its kind, then `inner`,
    /// which is the text of what the event carries.
    pub fn describe(&self, inner: &str) -> (text: String)
        ensures
            text@ == self.label() + inner@,
    {
        let label = match self {
            Event::Network(_) => "network: ",
            Event::Pinger(_) => "pinger: ",
            Event::Storage(_) => "storage: ",
            Event::ApiServer(_) => "api server: ",
            Event::Consensus(_) => "consensus: ",
            Event::DeployGossiper(_) => "deploy gossiper: ",
            Event::NetworkRequest(_) => "network request: ",
            Event::NetworkAnnouncement(_) => "network announcement: ",
        };
        String::from_str(label).concat(inner)
    }

    /// The event carries the name of the subsystem that consumes it: it is
    /// neither a request nor an announcement that has yet to be translated.
    pub open spec fn is_addressed(self) -> bool {
        !(self is NetworkRequest) && !(self is NetworkAnnouncement)
    }

    /// The subsystem that consumes the event.
    pub open spec fn owner(self) -> Subsystem {
        match self {
            Event::Network(_) => Subsystem::Network,
            Event::Pinger(_) => Subsystem::Pinger,
            Event::Storage(_) => Subsystem::Storage,
            Event::ApiServer(_) => Subsystem::ApiServer,
            Event::Consensus(_) => Subsystem::Consensus,
            Event::DeployGossiper(_) => Subsystem::DeployGossiper,
            Event::NetworkRequest(_) => Subsystem::Network,
            Event::NetworkAnnouncement(NetworkAnnouncement::MessageReceived { payload, .. }) =>
                payload.owner(),
        }
    }

    /// The event as its owner receives it. A request to the network becomes
    /// the network's own event for that request; a message that arrived
    /// becomes the event by which its subsystem learns of it, with the same
    /// sender and the subsystem's own message. Every other event stays as it
    /// is.
    pub open spec fn translated(self) -> Event<T> {
        match self {
            Event::NetworkRequest(request) => Event::Network(NetworkEvent::Request(request)),
            Event::NetworkAnnouncement(
                NetworkAnnouncement::MessageReceived { sender, payload },
            ) => match payload {
                Message::Consensus(msg) => Event::Consensus(
                    ConsensusEvent::MessageReceived { sender, msg },
                ),
                Message::Pinger(msg) => Event::Pinger(PingerEvent::MessageReceived { sender, msg }),
                Message::DeployGossiper(message) => Event::DeployGossiper(
                    DeployGossiperEvent::MessageReceived { sender, message },
                ),
            },
            other => other,
        }
    }

    /// Translates an announcement of the network into the event of the
    /// subsystem that the message is for.
    pub fn from_announcement(announcement: NetworkAnnouncement<T::NodeId, Message<T>>) -> (event:
        Self)
        ensures
            event == Event::NetworkAnnouncement(announcement).translated(),
            event.is_addressed(),
            event.owner() == Event::NetworkAnnouncement(announcement).owner(),
    {
        match announcement {
            NetworkAnnouncement::MessageReceived { sender, payload } => match payload {
                Message::Consensus(msg) => Event::Consensus(
                    ConsensusEvent::MessageReceived { sender, msg },
                ),
                Message::Pinger(msg) => Event::Pinger(PingerEvent::MessageReceived { sender, msg }),
                Message::DeployGossiper(message) => Event::DeployGossiper(
                    DeployGossiperEvent::MessageReceived { sender, message },
                ),
            },
        }
    }

    /// The event as its owner receives it.
    pub fn translate(self) -> (event: Self)
        ensures
            event == self.translated(),
            event.is_addressed(),
            event.owner() == self.owner(),
    {
        match self {
            Event::NetworkRequest(request) => Event::Network(NetworkEvent::from(request)),
            Event::NetworkAnnouncement(announcement) => Event::from_announcement(announcement),
            other => other,
        }
    }
}

/// Every message that arrives reaches the subsystem it is for: whatever the
/// message, the announcement of its arrival is translated into an event
/// addressed to the message's owner, which tells it of a message received from
/// the same sender, with the subsystem's own message inside.
pub proof fn lemma_announcement_reaches_owner<T: Node>(sender: T::NodeId, payload: Message<T>)
    ensures
        ({
            let event = Event::NetworkAnnouncement(
                NetworkAnnouncement::MessageReceived { sender, payload },
            ).translated();
            &&& event.is_addressed()
            &&& event.owner() == payload.owner()
            &&& match payload {
                Message::Pinger(msg) => event == Event::<T>::Pinger(
                    PingerEvent::MessageReceived { sender, msg },
                ),
                Message::Consensus(msg) => event == Event::<T>::Consensus(
                    ConsensusEvent::MessageReceived { sender, msg },
                ),
                Message::DeployGossiper(message) => event == Event::<T>::DeployGossiper(
                    DeployGossiperEvent::MessageReceived { sender, message },
                ),
            }
        }),
{
}

/// A request that a subsystem makes of the network in its own message type
/// reaches the network subsystem as one event: the same kind of request, for
/// the same peer, with the message wrapped for the wire.
pub proof fn lemma_request_round_trip<T: Node>(
    pinger: NetworkRequest<T::NodeId, T::PingerMessage>,
    consensus: NetworkRequest<T::NodeId, T::ConsensusMessage>,
    deploy_gossiper: NetworkRequest<T::NodeId, T::DeployGossiperMessage>,
)
    ensures
        Event::<T>::pinger_network_request(pinger).translated() == Event::<T>::Network(
            NetworkEvent::Request(pinger.with_payload(Message::<T>::Pinger(pinger.payload()))),
        ),
        Event::<T>::consensus_network_request(consensus).translated() == Event::<T>::Network(
            NetworkEvent::Request(
                consensus.with_payload(Message::<T>::Consensus(consensus.payload())),
            ),
        ),
        Event::<T>::deploy_gossiper_network_request(deploy_gossiper).translated() == Event::<
            T,
        >::Network(
            NetworkEvent::Request(
                deploy_gossiper.with_payload(
                    Message::<T>::DeployGossiper(deploy_gossiper.payload()),
                ),
            ),
        ),
        pinger.with_payload(Message::<T>::Pinger(pinger.payload())).dest() == pinger.dest(),
        consensus.with_payload(Message::<T>::Consensus(consensus.payload())).dest()
            == consensus.dest(),
        deploy_gossiper.with_payload(
            Message::<T>::DeployGossiper(deploy_gossiper.payload()),
        ).dest() == deploy_gossiper.dest(),
{
}

/// An event that needs no translation is its own translation, and translating
/// twice is translating once: after one step every event names its owner.
pub proof fn lemma_translation_settles<T: Node>(event: Event<T>)
    ensures
        event.translated().is_addressed(),
        event.translated().owner() == event.owner(),
        event.translated().translated() == event.translated(),
        event.is_addressed() ==> event.translated() == event,
{
}

/// Every event that `effects` yield is addressed to `owner`.
pub open spec fn all_owned_by<T: Node>(effects: Seq<Effect<Event<T>>>, owner: Subsystem) -> bool {
    forall|i: int, j: int|
        0 <= i < effects.len() && 0 <= j < effects[i]@.len() ==> {
            let event = #[trigger] effects[i]@[j];
            event.is_addressed() && event.owner() == owner
        }
}

/// The reactor of a validator node. It owns one instance of each subsystem and
/// the node's one random source.
#[derive(Debug)]
pub struct Reactor<T: Node> {
    net: T::Network,
    pinger: T::Pinger,
    storage: T::Storage,
    api_server: T::ApiServer,
    consensus: T::Consensus,
    deploy_gossiper: T::DeployGossiper,
    rng: ChaCha20Rng,
}

impl<T: Node> Reactor<T> {
    /// The network subsystem.
    pub closed spec fn spec_net(&self) -> T::Network {
        self.net
    }

    /// The pinger.
    pub closed spec fn spec_pinger(&self) -> T::Pinger {
        self.pinger
    }

    /// The storage subsystem.
    pub closed spec fn spec_storage(&self) -> T::Storage {
        self.storage
    }

    /// The API server.
    pub closed spec fn spec_api_server(&self) -> T::ApiServer {
        self.api_server
    }

    /// The consensus subsystem.
    pub closed spec fn spec_consensus(&self) -> T::Consensus {
        self.consensus
    }

    /// The deploy gossiper.
    pub closed spec fn spec_deploy_gossiper(&self) -> T::DeployGossiper {
        self.deploy_gossiper
    }

    /// The random source.
    pub closed spec fn spec_rng(&self) -> ChaCha20Rng {
        self.rng
    }

    /// The network subsystem.
    pub fn net(&self) -> (net: &T::Network)
        ensures
            *net == self.spec_net(),
    {
        &self.net
    }

    /// The pinger.
    pub fn pinger(&self) -> (pinger: &T::Pinger)
        ensures
            *pinger == self.spec_pinger(),
    {
        &self.pinger
    }

    /// The storage subsystem.
    pub fn storage(&self) -> (storage: &T::Storage)
        ensures
            *storage == self.spec_storage(),
    {
        &self.storage
    }

    /// The API server.
    pub fn api_server(&self) -> (api_server: &T::ApiServer)
        ensures
            *api_server == self.spec_api_server(),
    {
        &self.api_server
    }

    /// The consensus subsystem.
    pub fn consensus(&self) -> (consensus: &T::Consensus)
        ensures
            *consensus == self.spec_consensus(),
    {
        &self.consensus
    }

    /// The deploy gossiper.
    pub fn deploy_gossiper(&self) -> (deploy_gossiper: &T::DeployGossiper)
        ensures
            *deploy_gossiper == self.spec_deploy_gossiper(),
    {
        &self.deploy_gossiper
    }

    /// The random source.
    pub fn rng(&self) -> (rng: &ChaCha20Rng)
        ensures
            *rng == self.spec_rng(),
    {
        &self.rng
    }

    /// The subsystems of `self` are what the node's constructors gave for
    /// `cfg` and `event_queue`, and the three collections are the startup
    /// effects that came with the network subsystem, the pinger and the API
    /// server.
    pub open spec fn started_with(
        &self,
        cfg: Config<T>,
        event_queue: T::EventQueue,
        net_effects: Multiple<Effect<NetworkEventOf<T>>>,
        pinger_effects: Multiple<Effect<PingerEventOf<T>>>,
        api_server_effects: Multiple<Effect<ApiServerEventOf<T>>>,
    ) -> bool {
        let effect_builder = EffectBuilder::spec_new(event_queue);
        &&& call_ensures(
            T::new_net,
            (event_queue, cfg.validator_net),
            Ok((self.spec_net(), net_effects)),
        )
        &&& call_ensures(T::new_pinger, (effect_builder,), (self.spec_pinger(), pinger_effects))
        &&& call_ensures(T::new_storage, (cfg.storage,), Ok(self.spec_storage()))
        &&& call_ensures(
            T::new_api_server,
            (cfg.http_server, effect_builder),
            (self.spec_api_server(), api_server_effects),
        )
        &&& call_ensures(T::new_consensus, (), self.spec_consensus())
        &&& call_ensures(T::new_deploy_gossiper, (cfg.gossip,), self.spec_deploy_gossiper())
    }

    /// The subsystems of `self` are what the node's constructors gave for
    /// `cfg` and `event_queue`, and `effects` are the startup effects of the
    /// network subsystem, of the pinger and of the API server, in that order,
    /// each yielding events of its own subsystem.
    pub open spec fn started_from(
        &self,
        cfg: Config<T>,
        event_queue: T::EventQueue,
        effects: Seq<Effect<Event<T>>>,
    ) -> bool {
        exists|
            net_effects: Multiple<Effect<NetworkEventOf<T>>>,
            pinger_effects: Multiple<Effect<PingerEventOf<T>>>,
            api_server_effects: Multiple<Effect<ApiServerEventOf<T>>>,
        |
            {
                &&& #[trigger] self.started_with(
                    cfg,
                    event_queue,
                    net_effects,
                    pinger_effects,
                    api_server_effects,
                )
                &&& yields_of(effects) == lifted(Event::<T>::network(), net_effects@) + lifted(
                    Event::<T>::pinger(),
                    pinger_effects@,
                ) + lifted(Event::<T>::api_server(), api_server_effects@)
            }
    }

    /// What starting a node on `cfg` and `event_queue` may come to.
    ///
    /// The subsystems are started in a fixed order: network, pinger, storage,
    /// API server, consensus, deploy gossiper. The first that fails ends the
    /// start with its error, and nothing of the node is handed out. Otherwise
    /// the reactor holds what the constructors gave and comes with their
    /// startup effects (see [`Reactor::started_from`]).
    pub open spec fn start_outcome(
        cfg: Config<T>,
        event_queue: T::EventQueue,
        started: Result<(Self, Multiple<Effect<Event<T>>>), Error<T>>,
    ) -> bool {
        match started {
            Ok((reactor, effects)) => reactor.started_from(cfg, event_queue, effects@),
            Err(Error::Network(error)) => call_ensures(
                T::new_net,
                (event_queue, cfg.validator_net),
                Err(error),
            ),
            Err(Error::Storage(error)) => {
                &&& exists|net: (T::Network, Multiple<Effect<NetworkEventOf<T>>>)|
                    call_ensures(T::new_net, (event_queue, cfg.validator_net), Ok(net))
                &&& call_ensures(T::new_storage, (cfg.storage,), Err(error))
            },
        }
    }

    /// Starts the subsystems in order and puts the reactor together; the
    /// random source is `rng` where one is given, and is seeded from the
    /// operating system otherwise, once every subsystem has started.
    fn assemble(cfg: Config<T>, event_queue: T::EventQueue, rng: Option<ChaCha20Rng>) -> (started:
        Result<(Self, Multiple<Effect<Event<T>>>), Error<T>>)
        ensures
            Self::start_outcome(cfg, event_queue, started),
            rng matches Some(rng) ==> (started matches Ok((reactor, _)) ==> reactor.spec_rng()
                == rng),
    {
        let effect_builder = EffectBuilder::new(event_queue);
        let (net, net_effects) = match T::new_net(event_queue, cfg.validator_net) {
            Ok(started) => started,
            Err(error) => {
                return Err(Error::Network(error));
            },
        };

        let (pinger, pinger_effects) = T::new_pinger(effect_builder);
        let storage = match T::new_storage(cfg.storage) {
            Ok(storage) => storage,
            Err(error) => {
                return Err(Error::Storage(error));
            },
        };
        let (api_server, api_server_effects) = T::new_api_server(cfg.http_server, effect_builder);
        let consensus = T::new_consensus();
        let deploy_gossiper = T::new_deploy_gossiper(cfg.gossip);

        let mut effects = wrap_effects(Event::from_network, net_effects);
        let mut wrapped_pinger = wrap_effects(Event::from_pinger, pinger_effects);
        let mut wrapped_api_server = wrap_effects(Event::from_api_server, api_server_effects);
        proof {
            lemma_wrap_effects_maps(
                Event::<T>::from_network,
                Event::<T>::network(),
                net_effects@,
                effects@,
            );
            lemma_wrap_effects_maps(
                Event::<T>::from_pinger,
                Event::<T>::pinger(),
                pinger_effects@,
                wrapped_pinger@,
            );
            lemma_wrap_effects_maps(
                Event::<T>::from_api_server,
                Event::<T>::api_server(),
                api_server_effects@,
                wrapped_api_server@,
            );
        }
        let ghost wrapped_net = effects@;
        let ghost wrapped_pinger_before = wrapped_pinger@;
        let ghost wrapped_api_server_before = wrapped_api_server@;
        effects.append(&mut wrapped_pinger);
        effects.append(&mut wrapped_api_server);

        let rng = match rng {
            Some(rng) => rng,
            None => from_entropy(),
        };

        let reactor = Reactor {
            net,
            pinger,
            storage,
            api_server,
            consensus,
            deploy_gossiper,
            rng,
        };
        proof {
            assert(yields_of(effects@) =~= yields_of(wrapped_net) + yields_of(
                wrapped_pinger_before,
            ) + yields_of(wrapped_api_server_before));
            assert(reactor.started_with(
                cfg,
                event_queue,
                net_effects,
                pinger_effects,
                api_server_effects,
            ));
        }
        Ok((reactor, effects))
    }

    /// Starts a validator node: starts each subsystem in turn and seeds the
    /// node's random source from the operating system.
    ///
    /// The first subsystem that fails ends the start with its error. On
    /// success the reactor comes with the startup effects of its subsystems,
    /// each wrapped for its owner.
    pub fn new(cfg: Config<T>, event_queue: T::EventQueue) -> (started: Result<
        (Self, Multiple<Effect<Event<T>>>),
        Error<T>,
    >)
        ensures
            Self::start_outcome(cfg, event_queue, started),
    {
        Self::assemble(cfg, event_queue, None)
    }

    /// Starts a validator node as [`Reactor::new`] does, with `rng` for its
    /// random source.
    pub fn with_rng(cfg: Config<T>, event_queue: T::EventQueue, rng: ChaCha20Rng) -> (started:
        Result<(Self, Multiple<Effect<Event<T>>>), Error<T>>)
        ensures
            Self::start_outcome(cfg, event_queue, started),
            started matches Ok((reactor, _)) ==> reactor.spec_rng() == rng,
    {
        Self::assemble(cfg, event_queue, Some(rng))
    }

    /// No subsystem but `owner` differs between `before` and `after`.
    pub open spec fn untouched(before: Self, after: Self, owner: Subsystem) -> bool {
        &&& owner != Subsystem::Network ==> after.spec_net() == before.spec_net()
        &&& owner != Subsystem::Pinger ==> after.spec_pinger() == before.spec_pinger()
        &&& owner != Subsystem::Storage ==> after.spec_storage() == before.spec_storage()
        &&& owner != Subsystem::ApiServer ==> after.spec_api_server() == before.spec_api_server()
        &&& owner != Subsystem::Consensus ==> after.spec_consensus() == before.spec_consensus()
        &&& owner != Subsystem::DeployGossiper ==> after.spec_deploy_gossiper()
            == before.spec_deploy_gossiper()
    }

    /// The owner of `event` has handled it: it went from its state in
    /// `before` to its state in `after`, with the node's random source, and
    /// `effects` yield what the effects it handed back yield, each event
    /// wrapped for the owner. Only an event that names its owner can be
    /// delivered.
    pub open spec fn delivered(
        before: Self,
        effect_builder: EffectBuilder<T::EventQueue>,
        event: Event<T>,
        after: Self,
        effects: Seq<Effect<Event<T>>>,
    ) -> bool {
        match event {
            Event::Network(event) => handled_by::<T::EventQueue, T::Network, Event<T>>(
                before.spec_net(),
                effect_builder,
                before.spec_rng(),
                event,
                after.spec_net(),
                after.spec_rng(),
                Event::<T>::network(),
                effects,
            ),
            Event::Pinger(event) => handled_by::<T::EventQueue, T::Pinger, Event<T>>(
                before.spec_pinger(),
                effect_builder,
                before.spec_rng(),
                event,
                after.spec_pinger(),
                after.spec_rng(),
                Event::<T>::pinger(),
                effects,
            ),
            Event::Storage(event) => handled_by::<T::EventQueue, T::Storage, Event<T>>(
                before.spec_storage(),
                effect_builder,
                before.spec_rng(),
                event,
                after.spec_storage(),
                after.spec_rng(),
                Event::<T>::storage(),
                effects,
            ),
            Event::ApiServer(event) => handled_by::<T::EventQueue, T::ApiServer, Event<T>>(
                before.spec_api_server(),
                effect_builder,
                before.spec_rng(),
                event,
                after.spec_api_server(),
                after.spec_rng(),
                Event::<T>::api_server(),
                effects,
            ),
            Event::Consensus(event) => handled_by::<T::EventQueue, T::Consensus, Event<T>>(
                before.spec_consensus(),
                effect_builder,
                before.spec_rng(),
                event,
                after.spec_consensus(),
                after.spec_rng(),
                Event::<T>::consensus(),
                effects,
            ),
            Event::DeployGossiper(event) => handled_by::<
                T::EventQueue,
                T::DeployGossiper,
                Event<T>,
            >(
                before.spec_deploy_gossiper(),
                effect_builder,
                before.spec_rng(),
                event,
                after.spec_deploy_gossiper(),
                after.spec_rng(),
                Event::<T>::deploy_gossiper(),
                effects,
            ),
            Event::NetworkRequest(_) => false,
            Event::NetworkAnnouncement(_) => false,
        }
    }

    /// What one dispatch of `event` comes to: the owner has handled the event
    /// as it is translated for it, and no other subsystem has changed.
    pub open spec fn dispatched(
        before: Self,
        effect_builder: EffectBuilder<T::EventQueue>,
        event: Event<T>,
        after: Self,
        effects: Seq<Effect<Event<T>>>,
    ) -> bool {
        &&& Self::untouched(before, after, event.owner())
        &&& Self::delivered(before, effect_builder, event.translated(), after, effects)
    }

    /// Dispatches one event: hands it to the subsystem that owns it, together
    /// with the random source, and returns that subsystem's effects, wrapped so
    /// that what they yield comes back to the same subsystem.
    ///
    /// A request to the network and a message that arrived are translated
    /// first (see [`Event::translated`]). No subsystem but the owner is
    /// touched.
    pub fn dispatch_event(
        &mut self,
        effect_builder: EffectBuilder<T::EventQueue>,
        event: Event<T>,
    ) -> (effects: Multiple<Effect<Event<T>>>)
        ensures
            Self::dispatched(*old(self), effect_builder, event, *final(self), effects@),
            all_owned_by(effects@, event.owner()),
        decreases (if event.is_addressed() { 0nat } else { 1nat }),
    {
        match event {
            Event::Network(event) => {
                let inner = self.net.handle_event(effect_builder, &mut self.rng, event);
                assert(T::Network::handles(
                    old(self).spec_net(),
                    effect_builder,
                    old(self).spec_rng(),
                    event,
                    self.spec_net(),
                    self.spec_rng(),
                    inner@,
                ));
                let effects = wrap_effects(Event::from_network, inner);
                proof {
                    lemma_wrap_effects_maps(
                        Event::<T>::from_network,
                        Event::<T>::network(),
                        inner@,
                        effects@,
                    );
                }
                effects
            },
            Event::Pinger(event) => {
                let inner = self.pinger.handle_event(effect_builder, &mut self.rng, event);
                assert(T::Pinger::handles(
                    old(self).spec_pinger(),
                    effect_builder,
                    old(self).spec_rng(),
                    event,
                    self.spec_pinger(),
                    self.spec_rng(),
                    inner@,
                ));
                let effects = wrap_effects(Event::from_pinger, inner);
                proof {
                    lemma_wrap_effects_maps(
                        Event::<T>::from_pinger,
                        Event::<T>::pinger(),
                        inner@,
                        effects@,
                    );
                }
                effects
            },
            Event::Storage(event) => {
                let inner = self.storage.handle_event(effect_builder, &mut self.rng, event);
                assert(T::Storage::handles(
                    old(self).spec_storage(),
                    effect_builder,
                    old(self).spec_rng(),
                    event,
                    self.spec_storage(),
                    self.spec_rng(),
                    inner@,
                ));
                let effects = wrap_effects(Event::from_storage, inner);
                proof {
                    lemma_wrap_effects_maps(
                        Event::<T>::from_storage,
                        Event::<T>::storage(),
                        inner@,
                        effects@,
                    );
                }
                effects
            },
            Event::ApiServer(event) => {
                let inner = self.api_server.handle_event(effect_builder, &mut self.rng, event);
                assert(T::ApiServer::handles(
                    old(self).spec_api_server(),
                    effect_builder,
                    old(self).spec_rng(),
                    event,
                    self.spec_api_server(),
                    self.spec_rng(),
                    inner@,
                ));
                let effects = wrap_effects(Event::from_api_server, inner);
                proof {
                    lemma_wrap_effects_maps(
                        Event::<T>::from_api_server,
                        Event::<T>::api_server(),
                        inner@,
                        effects@,
                    );
                }
                effects
            },
            Event::Consensus(event) => {
                let inner = self.consensus.handle_event(effect_builder, &mut self.rng, event);
                assert(T::Consensus::handles(
                    old(self).spec_consensus(),
                    effect_builder,
                    old(self).spec_rng(),
                    event,
                    self.spec_consensus(),
                    self.spec_rng(),
                    inner@,
                ));
                let effects = wrap_effects(Event::from_consensus, inner);
                proof {
                    lemma_wrap_effects_maps(
                        Event::<T>::from_consensus,
                        Event::<T>::consensus(),
                        inner@,
                        effects@,
                    );
                }
                effects
            },
            Event::DeployGossiper(event) => {
                let inner = self.deploy_gossiper.handle_event(effect_builder, &mut self.rng, event);
                assert(T::DeployGossiper::handles(
                    old(self).spec_deploy_gossiper(),
                    effect_builder,
                    old(self).spec_rng(),
                    event,
                    self.spec_deploy_gossiper(),
                    self.spec_rng(),
                    inner@,
                ));
                let effects = wrap_effects(Event::from_deploy_gossiper, inner);
                proof {
                    lemma_wrap_effects_maps(
                        Event::<T>::from_deploy_gossiper,
                        Event::<T>::deploy_gossiper(),
                        inner@,
                        effects@,
                    );
                }
                effects
            },
            Event::NetworkRequest(request) => self.dispatch_event(
                effect_builder,
                Event::Network(NetworkEvent::from(request)),
            ),
            Event::NetworkAnnouncement(announcement) => self.dispatch_event(
                effect_builder,
                Event::from_announcement(announcement),
            ),
        }
    }

    /// Every subsystem of the node is replayable.
    pub open spec fn all_replayable() -> bool {
        &&& replayable::<T::EventQueue, T::Network>()
        &&& replayable::<T::EventQueue, T::Pinger>()
        &&& replayable::<T::EventQueue, T::Storage>()
        &&& replayable::<T::EventQueue, T::ApiServer>()
        &&& replayable::<T::EventQueue, T::Consensus>()
        &&& replayable::<T::EventQueue, T::DeployGossiper>()
    }

    /// A dispatch can be replayed: where every subsystem is replayable, two
    /// dispatches of one event from one state of the node, random source
    /// included, end in the same state and return effects that yield the same
    /// events in the same order.
    pub proof fn lemma_dispatch_replays(
        before: Self,
        effect_builder: EffectBuilder<T::EventQueue>,
        event: Event<T>,
        after: Self,
        effects: Seq<Effect<Event<T>>>,
        after_again: Self,
        effects_again: Seq<Effect<Event<T>>>,
    )
        requires
            Self::all_replayable(),
            Self::dispatched(before, effect_builder, event, after, effects),
            Self::dispatched(before, effect_builder, event, after_again, effects_again),
        ensures
            after == after_again,
            yields_of(effects) == yields_of(effects_again),
    {
        match event.translated() {
            Event::Network(event) => {
                lemma_handled_by_replays::<T::EventQueue, T::Network, Event<T>>(
                    before.spec_net(),
                    effect_builder,
                    before.spec_rng(),
                    event,
                    Event::<T>::network(),
                    after.spec_net(),
                    after.spec_rng(),
                    effects,
                    after_again.spec_net(),
                    after_again.spec_rng(),
                    effects_again,
                );
            },
            Event::Pinger(event) => {
                lemma_handled_by_replays::<T::EventQueue, T::Pinger, Event<T>>(
                    before.spec_pinger(),
                    effect_builder,
                    before.spec_rng(),
                    event,
                    Event::<T>::pinger(),
                    after.spec_pinger(),
                    after.spec_rng(),
                    effects,
                    after_again.spec_pinger(),
                    after_again.spec_rng(),
                    effects_again,
                );
            },
            Event::Storage(event) => {
                lemma_handled_by_replays::<T::EventQueue, T::Storage, Event<T>>(
                    before.spec_storage(),
                    effect_builder,
                    before.spec_rng(),
                    event,
                    Event::<T>::storage(),
                    after.spec_storage(),
                    after.spec_rng(),
                    effects,
                    after_again.spec_storage(),
                    after_again.spec_rng(),
                    effects_again,
                );
            },
            Event::ApiServer(event) => {
                lemma_handled_by_replays::<T::EventQueue, T::ApiServer, Event<T>>(
                    before.spec_api_server(),
                    effect_builder,
                    before.spec_rng(),
                    event,
                    Event::<T>::api_server(),
                    after.spec_api_server(),
                    after.spec_rng(),
                    effects,
                    after_again.spec_api_server(),
                    after_again.spec_rng(),
                    effects_again,
                );
            },
            Event::Consensus(event) => {
                lemma_handled_by_replays::<T::EventQueue, T::Consensus, Event<T>>(
                    before.spec_consensus(),
                    effect_builder,
                    before.spec_rng(),
                    event,
                    Event::<T>::consensus(),
                    after.spec_consensus(),
                    after.spec_rng(),
                    effects,
                    after_again.spec_consensus(),
                    after_again.spec_rng(),
                    effects_again,
                );
            },
            Event::DeployGossiper(event) => {
                lemma_handled_by_replays::<T::EventQueue, T::DeployGossiper, Event<T>>(
                    before.spec_deploy_gossiper(),
                    effect_builder,
                    before.spec_rng(),
                    event,
                    Event::<T>::deploy_gossiper(),
                    after.spec_deploy_gossiper(),
                    after.spec_rng(),
                    effects,
                    after_again.spec_deploy_gossiper(),
                    after_again.spec_rng(),
                    effects_again,
                );
            },
            Event::NetworkRequest(_) => {},
            Event::NetworkAnnouncement(_) => {},
        }
    }

    /// A run of the node: `events` are dispatched one after the other, from
    /// the state `before` to the state `after`, and `trace` holds the effects
    /// of each dispatch.
    pub open spec fn ran(
        before: Self,
        effect_builder: EffectBuilder<T::EventQueue>,
        events: Seq<Event<T>>,
        after: Self,
        trace: Seq<Seq<Effect<Event<T>>>>,
    ) -> bool
        decreases events.len(),
    {
        if events.len() == 0 {
            after == before && trace.len() == 0
        } else {
            &&& trace.len() == events.len()
            &&& exists|middle: Self|
                {
                    &&& #[trigger] Self::dispatched(
                        before,
                        effect_builder,
                        events[0],
                        middle,
                        trace[0],
                    )
                    &&& Self::ran(middle, effect_builder, events.skip(1), after, trace.skip(1))
                }
        }
    }

    /// A run can be replayed: where every subsystem is replayable, two runs
    /// of the same events from one state of the node, random source
    /// included, end in the same state, and dispatch by dispatch their
    /// effects yield the same events in the same order.
    pub proof fn lemma_run_replays(
        before: Self,
        effect_builder: EffectBuilder<T::EventQueue>,
        events: Seq<Event<T>>,
        after: Self,
        trace: Seq<Seq<Effect<Event<T>>>>,
        after_again: Self,
        trace_again: Seq<Seq<Effect<Event<T>>>>,
    )
        requires
            Self::all_replayable(),
            Self::ran(before, effect_builder, events, after, trace),
            Self::ran(before, effect_builder, events, after_again, trace_again),
        ensures
            after == after_again,
            trace.len() == trace_again.len(),
            forall|i: int|
                0 <= i < trace.len() ==> yields_of(#[trigger] trace[i]) == yields_of(
                    trace_again[i],
                ),
        decreases events.len(),
    {
        if events.len() > 0 {
            let middle = choose|middle: Self|
                #[trigger] Self::dispatched(before, effect_builder, events[0], middle, trace[0])
                    && Self::ran(middle, effect_builder, events.skip(1), after, trace.skip(1));
            let middle_again = choose|middle: Self|
                #[trigger] Self::dispatched(
                    before,
                    effect_builder,
                    events[0],
                    middle,
                    trace_again[0],
                ) && Self::ran(
                    middle,
                    effect_builder,
                    events.skip(1),
                    after_again,
                    trace_again.skip(1),
                );
            Self::lemma_dispatch_replays(
                before,
                effect_builder,
                events[0],
                middle,
                trace[0],
                middle_again,
                trace_again[0],
            );
            Self::lemma_run_replays(
                middle,
                effect_builder,
                events.skip(1),
                after,
                trace.skip(1),
                after_again,
                trace_again.skip(1),
            );
            assert forall|i: int| 0 <= i < trace.len() implies yields_of(#[trigger] trace[i])
                == yields_of(trace_again[i]) by {
                if i > 0 {
                    assert(trace[i] == trace.skip(1)[i - 1]);
                    assert(trace_again[i] == trace_again.skip(1)[i - 1]);
                }
            }
        }
    }
}

} // verus!
