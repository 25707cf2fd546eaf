use std::sync::{Arc, Mutex};

use inlay::addr::{IpAddress, SocketAddress};
use inlay::device::{add_peer, create_simulated_device, keys_equal, remove_peer, SimulatedDevice};
use inlay::dispatch::process_command;
use inlay::messages::{ControlCommand, DataResponse};

fn key(first: u8) -> [u8; 32] {
    let mut k = [0u8; 32];
    k[0] = first;
    k
}

fn ip() -> IpAddress {
    IpAddress::V4([10, 0, 0, 2])
}

fn status(n: usize) -> DataResponse {
    DataResponse::Status { connected: true, num_peers: n, bytes_sent: 0, bytes_received: 0 }
}

#[test]
fn new_device_is_empty() {
    let d = create_simulated_device("wg0");
    assert_eq!(d.peer_count(), 0);
    assert_eq!(d.name(), "wg0");
}

#[test]
fn add_then_status_counts_one() {
    let mut d = create_simulated_device("wg0");
    let add = ControlCommand::AddPeer { public_key: key(1), allowed_ip: ip(), endpoint: None };
    assert_eq!(process_command(add, &mut d), DataResponse::Success);
    assert_eq!(process_command(ControlCommand::GetStatus, &mut d), status(1));
}

#[test]
fn remove_absent_key_is_success_without_effect() {
    let mut d = create_simulated_device("wg0");
    add_peer(&mut d, key(1), ip(), None);
    let r = process_command(ControlCommand::RemovePeer { public_key: key(2) }, &mut d);
    assert_eq!(r, DataResponse::Success);
    assert_eq!(process_command(ControlCommand::GetStatus, &mut d), status(1));
    let mut empty = create_simulated_device("wg1");
    remove_peer(&mut empty, key(7));
    assert_eq!(empty.peer_count(), 0);
}

#[test]
fn remove_drops_every_duplicate() {
    let mut d = create_simulated_device("wg0");
    let ep = Some(SocketAddress::new(IpAddress::V4([192, 168, 1, 1]), 51820));
    add_peer(&mut d, key(1), ip(), None);
    add_peer(&mut d, key(3), IpAddress::V6([0; 16]), ep);
    add_peer(&mut d, key(1), IpAddress::V4([10, 0, 0, 3]), ep);
    assert_eq!(d.peer_count(), 3);
    let r = process_command(ControlCommand::RemovePeer { public_key: key(1) }, &mut d);
    assert_eq!(r, DataResponse::Success);
    assert_eq!(d.peer_count(), 1);
    remove_peer(&mut d, key(3));
    assert_eq!(d.peer_count(), 0);
}

#[test]
fn key_equality_is_bytewise() {
    let a = key(1);
    let mut b = key(1);
    assert!(keys_equal(&a, &b));
    b[31] = 1;
    assert!(!keys_equal(&a, &b));
}

#[test]
fn concurrent_adds_are_all_counted() {
    let device: Arc<Mutex<SimulatedDevice>> = Arc::new(Mutex::new(create_simulated_device("wg0")));
    let rt = tokio::runtime::Builder::new_multi_thread().worker_threads(4).build().unwrap();
    let n: usize = 64;
    let replies = rt.block_on(async {
        let mut handles = Vec::new();
        for i in 0..n {
            let d = device.clone();
            handles.push(tokio::spawn(async move {
                let mut k = [0u8; 32];
                k[0] = i as u8;
                k[1] = 0xAA;
                let cmd = ControlCommand::AddPeer { public_key: k, allowed_ip: ip(), endpoint: None };
                let mut guard = d.lock().unwrap();
                process_command(cmd, &mut guard)
            }));
        }
        let mut out = Vec::new();
        for h in handles {
            out.push(h.await.unwrap());
        }
        out
    });
    assert!(replies.iter().all(|r| *r == DataResponse::Success));
    let mut guard = device.lock().unwrap();
    assert_eq!(process_command(ControlCommand::GetStatus, &mut guard), status(n));
}
