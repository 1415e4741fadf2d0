//! Buffers for the sockets of the network stack.
//!
//! The stack owns a fixed set of sockets: their number and the size of their
//! buffers are settled here, and the buffers live for as long as the node
//! runs. Each socket is handed to the stack once, at startup, in the order
//! that `SocketPool::next_socket` gives.
use vstd::prelude::*;

verus! {

pub const NUM_TCP_SOCKETS: usize = 4;

pub const NUM_UDP_SOCKETS: usize = 1;

pub const NUM_SOCKETS: usize = NUM_UDP_SOCKETS + NUM_TCP_SOCKETS;

pub const UDP_RX_SOCKET_BUFFER_SIZE: usize = 512;

pub const UDP_TX_SOCKET_BUFFER_SIZE: usize = 512;

/// Packets that a UDP socket can hold in each direction.
pub const UDP_SOCKET_METADATA_COUNT: usize = 10;

pub const TCP_RX_SOCKET_BUFFER_SIZE: usize = 512;

pub const TCP_TX_SOCKET_BUFFER_SIZE: usize = 512;

pub const NUM_NEIGHBOR_CACHE_ENTRIES: usize = 8;

pub const NUM_ROUTING_TABLE_ENTRIES: usize = 8;

/// Length, in bits, of the network part of the node's address.
pub const IP_PREFIX_LEN: u8 = 24;

/// Receive and transmit buffer of one TCP socket.
pub struct TcpSocketStorage {
    pub rx_storage: [u8; TCP_RX_SOCKET_BUFFER_SIZE],
    pub tx_storage: [u8; TCP_TX_SOCKET_BUFFER_SIZE],
}

impl TcpSocketStorage {
    /// Whether both buffers hold only zeroes.
    pub open spec fn is_zeroed(&self) -> bool {
        &&& forall|i: int| 0 <= i < TCP_RX_SOCKET_BUFFER_SIZE ==> self.rx_storage[i] == 0
        &&& forall|i: int| 0 <= i < TCP_TX_SOCKET_BUFFER_SIZE ==> self.tx_storage[i] == 0
    }

    /// Buffers that hold only zeroes.
    pub fn new() -> (storage: Self)
        ensures
            storage.is_zeroed(),
    {
        Self {
            rx_storage: [0; TCP_RX_SOCKET_BUFFER_SIZE],
            tx_storage: [0; TCP_TX_SOCKET_BUFFER_SIZE],
        }
    }
}

/// Receive and transmit buffer of one UDP socket. The packet bookkeeping that
/// goes with them, `UDP_SOCKET_METADATA_COUNT` entries in each direction, is
/// the stack's own and is kept by whoever builds the socket.
pub struct UdpSocketStorage {
    pub rx_storage: [u8; UDP_RX_SOCKET_BUFFER_SIZE],
    pub tx_storage: [u8; UDP_TX_SOCKET_BUFFER_SIZE],
}

impl UdpSocketStorage {
    /// Whether both buffers hold only zeroes.
    pub open spec fn is_zeroed(&self) -> bool {
        &&& forall|i: int| 0 <= i < UDP_RX_SOCKET_BUFFER_SIZE ==> self.rx_storage[i] == 0
        &&& forall|i: int| 0 <= i < UDP_TX_SOCKET_BUFFER_SIZE ==> self.tx_storage[i] == 0
    }

    /// Buffers that hold only zeroes.
    pub fn new() -> (storage: Self)
        ensures
            storage.is_zeroed(),
    {
        Self {
            rx_storage: [0; UDP_RX_SOCKET_BUFFER_SIZE],
            tx_storage: [0; UDP_TX_SOCKET_BUFFER_SIZE],
        }
    }
}

/// The protocol of a socket.
#[derive(Copy, Clone, Debug, PartialEq, Eq, Structural)]
pub enum SocketKind {
    Tcp,
    Udp,
}

/// One socket of the inventory, as the stack is to be given it.
#[derive(Copy, Clone, Debug, PartialEq, Eq, Structural)]
pub struct SocketSlot {
    pub kind: SocketKind,
    /// Which of the buffers of its kind the socket is built on.
    pub index: usize,
    /// Size of the receive buffer, in bytes.
    pub rx_size: usize,
    /// Size of the transmit buffer, in bytes.
    pub tx_size: usize,
    /// Packets that the socket can hold in each direction; zero for a
    /// stream socket.
    pub metadata_count: usize,
}

/// The socket that is registered in place `position`: the TCP sockets come
/// first, then the UDP sockets.
pub open spec fn slot_at(position: nat) -> SocketSlot
    recommends
        position < NUM_SOCKETS,
{
    if position < NUM_TCP_SOCKETS {
        SocketSlot {
            kind: SocketKind::Tcp,
            index: position as usize,
            rx_size: TCP_RX_SOCKET_BUFFER_SIZE,
            tx_size: TCP_TX_SOCKET_BUFFER_SIZE,
            metadata_count: 0,
        }
    } else {
        SocketSlot {
            kind: SocketKind::Udp,
            index: (position - NUM_TCP_SOCKETS) as usize,
            rx_size: UDP_RX_SOCKET_BUFFER_SIZE,
            tx_size: UDP_TX_SOCKET_BUFFER_SIZE,
            metadata_count: UDP_SOCKET_METADATA_COUNT,
        }
    }
}

/// What a request for the next socket is answered with when `count`
/// sockets are registered: the socket in place `count`, or nothing once the
/// inventory is complete.
pub open spec fn offered(count: nat) -> Option<SocketSlot> {
    if count < NUM_SOCKETS {
        Some(slot_at(count))
    } else {
        None
    }
}

/// How many sockets are registered after one request, when `count` were
/// before it.
pub open spec fn count_after(count: nat) -> nat {
    if count < NUM_SOCKETS {
        count + 1
    } else {
        count
    }
}

/// How many sockets are registered after `requests` requests in a row, when
/// `count` were before them.
pub open spec fn count_after_requests(count: nat, requests: nat) -> nat
    decreases requests,
{
    if requests == 0 {
        count
    } else {
        count_after_requests(count_after(count), (requests - 1) as nat)
    }
}

/// All socket buffers of the node.
pub struct NetStorage {
    pub tcp_socket_storage: [TcpSocketStorage; NUM_TCP_SOCKETS],
    pub udp_socket_storage: [UdpSocketStorage; NUM_UDP_SOCKETS],
}

impl NetStorage {
    /// Whether every buffer holds only zeroes.
    pub open spec fn is_zeroed(&self) -> bool {
        &&& forall|i: int| 0 <= i < NUM_TCP_SOCKETS ==> self.tcp_socket_storage[i].is_zeroed()
        &&& forall|i: int| 0 <= i < NUM_UDP_SOCKETS ==> self.udp_socket_storage[i].is_zeroed()
    }

    /// Zeroed buffers for every socket of the inventory.
    pub fn new() -> (storage: Self)
        ensures
            storage.is_zeroed(),
    {
        Self {
            tcp_socket_storage: [
                TcpSocketStorage::new(),
                TcpSocketStorage::new(),
                TcpSocketStorage::new(),
                TcpSocketStorage::new(),
            ],
            udp_socket_storage: [UdpSocketStorage::new()],
        }
    }
}

/// The record of which sockets the stack has been given. Sockets enter it
/// one by one at startup and never leave it.
pub struct SocketPool {
    registered: usize,
}

impl SocketPool {
    #[verifier::type_invariant]
    spec fn within_inventory(&self) -> bool {
        self.registered <= NUM_SOCKETS
    }

    /// How many sockets have been handed to the stack.
    pub closed spec fn registered(&self) -> nat {
        self.registered as nat
    }

    /// A pool with no socket registered.
    pub fn new() -> (pool: Self)
        ensures
            pool.registered() == 0,
    {
        Self { registered: 0 }
    }

    /// How many sockets have been handed to the stack: never more than the
    /// inventory holds.
    pub fn socket_count(&self) -> (count: usize)
        ensures
            count == self.registered(),
            count <= NUM_SOCKETS,
    {
        proof {
            use_type_invariant(self);
        }
        self.registered
    }

    /// Whether every socket of the inventory has been handed to the stack.
    pub fn is_complete(&self) -> (complete: bool)
        ensures
            complete == (self.registered() == NUM_SOCKETS),
    {
        proof {
            use_type_invariant(self);
        }
        self.registered == NUM_SOCKETS
    }

    /// Names the next socket to hand to the stack and counts it as
    /// registered, or returns `None` once the inventory is complete.
    pub fn next_socket(&mut self) -> (slot: Option<SocketSlot>)
        ensures
            slot == offered(old(self).registered()),
            final(self).registered() == count_after(old(self).registered()),
            final(self).registered() <= NUM_SOCKETS,
    {
        proof {
            use_type_invariant(&*self);
        }
        if self.registered >= NUM_SOCKETS {
            return None;
        }
        let position = self.registered;
        self.registered = position + 1;
        if position < NUM_TCP_SOCKETS {
            Some(
                SocketSlot {
                    kind: SocketKind::Tcp,
                    index: position,
                    rx_size: TCP_RX_SOCKET_BUFFER_SIZE,
                    tx_size: TCP_TX_SOCKET_BUFFER_SIZE,
                    metadata_count: 0,
                },
            )
        } else {
            Some(
                SocketSlot {
                    kind: SocketKind::Udp,
                    index: position - NUM_TCP_SOCKETS,
                    rx_size: UDP_RX_SOCKET_BUFFER_SIZE,
                    tx_size: UDP_TX_SOCKET_BUFFER_SIZE,
                    metadata_count: UDP_SOCKET_METADATA_COUNT,
                },
            )
        }
    }
}

/// The count of registered sockets follows the requests one by one up to
/// the size of the inventory and stays there: whatever the number of
/// requests, no socket is added beyond the inventory and none is removed.
pub proof fn lemma_socket_count_settles(count: nat, requests: nat)
    requires
        count <= NUM_SOCKETS,
    ensures
        count_after_requests(count, requests) == if count + requests < NUM_SOCKETS {
            count + requests
        } else {
            NUM_SOCKETS as nat
        },
        count <= count_after_requests(count, requests) <= NUM_TCP_SOCKETS + NUM_UDP_SOCKETS,
    decreases requests,
{
    if requests > 0 {
        lemma_socket_count_settles(count_after(count), (requests - 1) as nat);
    }
}

/// Once the inventory is complete a request offers nothing and changes
/// nothing, however often it is made.
pub proof fn lemma_complete_pool_is_final(requests: nat)
    ensures
        offered(NUM_SOCKETS as nat) is None,
        count_after_requests(NUM_SOCKETS as nat, requests) == NUM_SOCKETS,
{
    lemma_socket_count_settles(NUM_SOCKETS as nat, requests);
}

/// Every socket of the inventory is named by exactly one place of the
/// order: the places give the four TCP sockets, then the UDP socket, and no
/// two places give the same socket.
pub proof fn lemma_slots_are_distinct(first: nat, second: nat)
    requires
        first < NUM_SOCKETS,
        second < NUM_SOCKETS,
        first != second,
    ensures
        slot_at(first) != slot_at(second),
        slot_at(first).kind == SocketKind::Tcp <==> first < NUM_TCP_SOCKETS,
        slot_at(first).kind == SocketKind::Tcp ==> slot_at(first).index < NUM_TCP_SOCKETS,
        slot_at(first).kind == SocketKind::Udp ==> slot_at(first).index < NUM_UDP_SOCKETS,
{
}

} // verus!
