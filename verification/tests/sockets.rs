use mqtt_node::hardware::net::{
    NetStorage, SocketKind, SocketPool, SocketSlot, TcpSocketStorage, UdpSocketStorage,
    IP_PREFIX_LEN, NUM_NEIGHBOR_CACHE_ENTRIES, NUM_ROUTING_TABLE_ENTRIES, NUM_SOCKETS,
    NUM_TCP_SOCKETS, NUM_UDP_SOCKETS, UDP_SOCKET_METADATA_COUNT,
};

#[test]
fn the_inventory_is_four_tcp_sockets_and_one_udp_socket() {
    assert_eq!(NUM_TCP_SOCKETS, 4);
    assert_eq!(NUM_UDP_SOCKETS, 1);
    assert_eq!(NUM_SOCKETS, 5);
    assert_eq!(UDP_SOCKET_METADATA_COUNT, 10);
    assert_eq!(NUM_NEIGHBOR_CACHE_ENTRIES, 8);
    assert_eq!(NUM_ROUTING_TABLE_ENTRIES, 8);
    assert_eq!(IP_PREFIX_LEN, 24);
}

#[test]
fn buffers_start_zeroed_and_hold_512_bytes() {
    let tcp = TcpSocketStorage::new();
    assert_eq!(tcp.rx_storage.len(), 512);
    assert_eq!(tcp.tx_storage.len(), 512);
    assert!(tcp.rx_storage.iter().all(|byte| *byte == 0));
    assert!(tcp.tx_storage.iter().all(|byte| *byte == 0));
    let udp = UdpSocketStorage::new();
    assert_eq!(udp.rx_storage.len(), 512);
    assert_eq!(udp.tx_storage.len(), 512);
    assert!(udp.rx_storage.iter().all(|byte| *byte == 0));
    assert!(udp.tx_storage.iter().all(|byte| *byte == 0));
}

#[test]
fn storage_holds_a_buffer_pair_for_every_socket() {
    let storage = NetStorage::new();
    assert_eq!(storage.tcp_socket_storage.len(), 4);
    assert_eq!(storage.udp_socket_storage.len(), 1);
    for tcp in storage.tcp_socket_storage.iter() {
        assert!(tcp.rx_storage.iter().chain(tcp.tx_storage.iter()).all(|byte| *byte == 0));
    }
    for udp in storage.udp_socket_storage.iter() {
        assert!(udp.rx_storage.iter().chain(udp.tx_storage.iter()).all(|byte| *byte == 0));
    }
}

#[test]
fn sockets_are_registered_tcp_first_then_udp() {
    let mut pool = SocketPool::new();
    assert_eq!(pool.socket_count(), 0);
    assert!(!pool.is_complete());
    for index in 0..4 {
        assert_eq!(
            pool.next_socket(),
            Some(SocketSlot {
                kind: SocketKind::Tcp,
                index,
                rx_size: 512,
                tx_size: 512,
                metadata_count: 0,
            })
        );
        assert_eq!(pool.socket_count(), index + 1);
        assert!(!pool.is_complete());
    }
    assert_eq!(
        pool.next_socket(),
        Some(SocketSlot {
            kind: SocketKind::Udp,
            index: 0,
            rx_size: 512,
            tx_size: 512,
            metadata_count: 10,
        })
    );
    assert_eq!(pool.socket_count(), 5);
    assert!(pool.is_complete());
}

#[test]
fn no_socket_is_added_after_startup() {
    let mut pool = SocketPool::new();
    let mut registered: usize = 0;
    for _ in 0..1_000 {
        if pool.next_socket().is_some() {
            registered += 1;
        }
        assert!(pool.socket_count() <= NUM_TCP_SOCKETS + NUM_UDP_SOCKETS);
    }
    assert_eq!(registered, NUM_TCP_SOCKETS + NUM_UDP_SOCKETS);
    assert_eq!(pool.socket_count(), NUM_SOCKETS);
    assert_eq!(pool.next_socket(), None);
    assert!(pool.is_complete());
}
