//! The caster's address and the stop signals of the running sessions.

use vstd::prelude::*;
use vstd::string::*;
use std::sync::mpsc::Sender;

verus! {

/// The sending half of a channel of std, carried through as it is.
#[verifier::external_type_specification]
#[verifier::external_body]
#[verifier::reject_recursive_types(T)]
pub struct ExSender<T>(Sender<T>);

/// The address shown while the machine's own cannot be found.
pub const UNKNOWN_ADDRESS: &'static str = "Unable to get IP";

pub struct NetworkState {
    pub address: String,
    pub auto_detect_ip: bool,
    stop_tx: Option<Sender<()>>,
    broadcast_stop_tx: Option<Sender<()>>,
    record_stop_tx: Option<Sender<()>>,
}

/// The network state as a mathematical value.
pub struct NetworkStateView {
    pub address: Seq<char>,
    pub auto_detect_ip: bool,
    pub stop_tx: Option<Sender<()>>,
    pub broadcast_stop_tx: Option<Sender<()>>,
    pub record_stop_tx: Option<Sender<()>>,
}

impl View for NetworkState {
    type V = NetworkStateView;

    closed spec fn view(&self) -> NetworkStateView {
        NetworkStateView {
            address: self.address@,
            auto_detect_ip: self.auto_detect_ip,
            stop_tx: self.stop_tx,
            broadcast_stop_tx: self.broadcast_stop_tx,
            record_stop_tx: self.record_stop_tx,
        }
    }
}

/// Calls `local_ip_address::local_ip` and writes the address out.
///
/// Nothing is claimed of the result: it depends on the machine's network.
#[verifier::external_body]
fn detect_local_ip() -> Option<String> {
    match local_ip_address::local_ip() {
        Ok(ip) => Some(ip.to_string()),
        Err(_) => None,
    }
}

/// Calls `Sender::clone`.
///
/// Claimed of it: the clone sends into the same channel as the sender it
/// was made from. The contract takes the senders of one channel for equal.
#[verifier::external_body]
fn clone_sender(tx: &Sender<()>) -> (copy: Sender<()>)
    ensures
        copy == *tx,
{
    tx.clone()
}

fn clone_signal(tx: &Option<Sender<()>>) -> (copy: Option<Sender<()>>)
    ensures
        copy == *tx,
{
    match tx {
        Some(sender) => Some(clone_sender(sender)),
        None => None,
    }
}

impl NetworkState {
    /// The state at start, with the machine's own address where it can be
    /// found.
    pub fn new() -> (state: NetworkState)
        ensures
            state@.auto_detect_ip,
            state@.stop_tx is None,
            state@.broadcast_stop_tx is None,
            state@.record_stop_tx is None,
    {
        NetworkState::with_detected_address(detect_local_ip())
    }

    /// The state at start for a machine whose own address is `detected`.
    pub fn with_detected_address(detected: Option<String>) -> (state: NetworkState)
        ensures
            state@ == (NetworkStateView {
                address: match detected {
                    Some(ip) => ip@,
                    None => UNKNOWN_ADDRESS@,
                },
                auto_detect_ip: true,
                stop_tx: None,
                broadcast_stop_tx: None,
                record_stop_tx: None,
            }),
    {
        let address = match detected {
            Some(ip) => ip,
            None => String::from_str(UNKNOWN_ADDRESS),
        };
        NetworkState { address, auto_detect_ip: true, stop_tx: None, broadcast_stop_tx: None, record_stop_tx: None }
    }

    pub fn get_address(&self) -> (address: &str)
        ensures
            address@ == self@.address,
    {
        self.address.as_str()
    }

    pub fn set_address(&mut self, value: String)
        ensures
            final(self)@ == (NetworkStateView { address: value@, ..old(self)@ }),
    {
        self.address = value;
    }

    /// A sender for the broadcast's stop signal, if a broadcast was started.
    pub fn get_broadcast_stop_tx(&self) -> (tx: Option<Sender<()>>)
        ensures
            tx == self@.broadcast_stop_tx,
    {
        clone_signal(&self.broadcast_stop_tx)
    }

    pub fn set_broadcast_stop_tx(&mut self, tx: Option<Sender<()>>)
        ensures
            final(self)@ == (NetworkStateView { broadcast_stop_tx: tx, ..old(self)@ }),
    {
        self.broadcast_stop_tx = tx;
    }

    /// A sender for the recording's stop signal, if a recording was started.
    pub fn get_record_stop_tx(&self) -> (tx: Option<Sender<()>>)
        ensures
            tx == self@.record_stop_tx,
    {
        clone_signal(&self.record_stop_tx)
    }

    pub fn set_record_stop_tx(&mut self, tx: Option<Sender<()>>)
        ensures
            final(self)@ == (NetworkStateView { record_stop_tx: tx, ..old(self)@ }),
    {
        self.record_stop_tx = tx;
    }

    /// A sender for the receiving session's stop signal, if one was started.
    pub fn get_stop_tx(&self) -> (tx: Option<Sender<()>>)
        ensures
            tx == self@.stop_tx,
    {
        clone_signal(&self.stop_tx)
    }

    pub fn set_stop_tx(&mut self, tx: Option<Sender<()>>)
        ensures
            final(self)@ == (NetworkStateView { stop_tx: tx, ..old(self)@ }),
    {
        self.stop_tx = tx;
    }
}

} // verus!
