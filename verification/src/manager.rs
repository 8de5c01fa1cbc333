//! The lifecycle core of the transport: the device's name, the running
//! flag, and the peer registry, with the decisions of the listener, dialer
//! and broadcast paths. All socket work stays with the caller: it accepts,
//! dials, reads and writes, and hands the outcomes to these functions.

use vstd::prelude::*;
use crate::errors::NetError;
use crate::messages::ClipboardMessage;
use crate::messages::ContentView;
use crate::messages::dec_str;
use crate::messages::push_dec;
use crate::registry::PeerRegistry;
use crate::registry::entries_view;
use crate::registry::spec_insert;
use crate::registry::spec_remove;
use crate::registry::spec_remove_all;
use crate::registry::str_ids;
use crate::registry::unique_ids;

verus! {

/// The id given to a peer that dialed in, from the remote address.
pub open spec fn client_peer_id(addr: Seq<char>) -> Seq<char> {
    "client_"@ + addr
}

/// The id given to a peer this side dialed, from its address and port;
/// the prefix differs from inbound ids so the two can never collide.
pub open spec fn server_peer_id(ip: Seq<char>, port: u16) -> Seq<char> {
    "server_"@ + ip + ":"@ + dec_str(port as nat)
}

/// How a dial attempt ended, as the caller's socket runtime reported it.
pub enum DialOutcome<C> {
    /// The connection opened.
    Connected(C),
    /// The remote refused or another socket error arose.
    Refused,
    /// The bounded wait for the connection ran out.
    TimedOut,
}

/// The transport's process-wide state: one device name, one running flag,
/// one registry of live peers.
pub struct NetworkManager<C> {
    device_name: String,
    connections: PeerRegistry<C>,
    running: bool,
}

impl<C> NetworkManager<C> {
    /// The device's display name.
    pub closed spec fn spec_device_name(&self) -> Seq<char> {
        self.device_name@
    }

    /// The registered peers.
    pub closed spec fn peers(&self) -> Seq<(Seq<char>, C)> {
        self.connections@
    }

    /// Whether the accept loop should keep running.
    pub closed spec fn spec_running(&self) -> bool {
        self.running
    }

    /// Peer ids are unique.
    pub open spec fn wf(&self) -> bool {
        unique_ids(self.peers())
    }

    /// A stopped manager with no peers.
    pub fn new(device_name: String) -> (r: Self)
        ensures
            r.spec_device_name() == device_name@,
            r.peers() == Seq::<(Seq<char>, C)>::empty(),
            !r.spec_running(),
            r.wf(),
    {
        NetworkManager { device_name, connections: PeerRegistry::new(), running: false }
    }

    /// The device's display name.
    pub fn get_device_name(&self) -> (r: &str)
        ensures
            r@ == self.spec_device_name(),
    {
        self.device_name.as_str()
    }

    /// Whether the accept loop should keep running.
    pub fn is_running(&self) -> (r: bool)
        ensures
            r == self.spec_running(),
    {
        self.running
    }

    /// Raises the running flag; the caller then binds the listener and
    /// runs the accept loop while the flag stays up.
    pub fn start(&mut self)
        ensures
            final(self).spec_running(),
            final(self).peers() == old(self).peers(),
            final(self).spec_device_name() == old(self).spec_device_name(),
    {
        self.running = true;
    }

    /// Clears the running flag and drops every peer: the accept loop exits
    /// on its next turn, and each reader task finds its connection closed.
    pub fn shutdown(&mut self)
        ensures
            !final(self).spec_running(),
            final(self).peers() == Seq::<(Seq<char>, C)>::empty(),
            final(self).spec_device_name() == old(self).spec_device_name(),
            final(self).wf(),
    {
        self.running = false;
        self.connections.clear();
    }

    /// How many peers are registered.
    pub fn peer_count(&self) -> (n: usize)
        ensures
            n == self.peers().len(),
    {
        self.connections.count()
    }

    /// The current peers, in registration order: the broadcast path
    /// iterates over this outside the registry's lock.
    pub fn snapshot(&self) -> (r: &Vec<(String, C)>)
        ensures
            entries_view(r@) == self.peers(),
    {
        self.connections.snapshot()
    }

    /// Removes one peer, as a reader task does when its connection fails.
    pub fn remove_peer(&mut self, id: &String)
        requires
            old(self).wf(),
        ensures
            final(self).peers() == spec_remove(old(self).peers(), id@),
            final(self).spec_device_name() == old(self).spec_device_name(),
            final(self).spec_running() == old(self).spec_running(),
            final(self).wf(),
    {
        self.connections.remove(id);
    }

    /// Removes the peers whose writes failed during a broadcast sweep.
    pub fn remove_failed_peers(&mut self, failed: &Vec<String>)
        requires
            old(self).wf(),
        ensures
            final(self).peers() == spec_remove_all(old(self).peers(), str_ids(failed@)),
            final(self).spec_device_name() == old(self).spec_device_name(),
            final(self).spec_running() == old(self).spec_running(),
            final(self).wf(),
    {
        self.connections.remove_failed(failed);
    }

    /// Registers a peer that dialed in from `addr`, superseding any prior
    /// peer under the same id, and returns the id its reader task runs
    /// under.
    pub fn admit_inbound(&mut self, addr: &str, conn: C) -> (id: String)
        requires
            old(self).wf(),
        ensures
            id@ == client_peer_id(addr@),
            final(self).peers() == spec_insert(old(self).peers(), id@, conn),
            final(self).spec_device_name() == old(self).spec_device_name(),
            final(self).spec_running() == old(self).spec_running(),
            final(self).wf(),
    {
        let mut id = String::from_str("client_");
        id.append(addr);
        let out = id.clone();
        self.connections.insert(id, conn);
        out
    }

    /// Registers a peer this side dialed, and returns its id.
    pub fn admit_dialed(&mut self, ip: &str, port: u16, conn: C) -> (id: String)
        requires
            old(self).wf(),
        ensures
            id@ == server_peer_id(ip@, port),
            final(self).peers() == spec_insert(old(self).peers(), id@, conn),
            final(self).spec_device_name() == old(self).spec_device_name(),
            final(self).spec_running() == old(self).spec_running(),
            final(self).wf(),
    {
        let mut id = String::from_str("server_");
        id.append(ip);
        id.push(':');
        push_dec(&mut id, port as u64);
        proof {
            reveal_strlit(":");
            assert(id@ =~= server_peer_id(ip@, port));
        }
        let out = id.clone();
        self.connections.insert(id, conn);
        out
    }

    /// Settles a dial attempt: a connection is registered and its id
    /// returned; a refusal is `ConnectFailed` and a timeout
    /// `ConnectTimeout`, and either failure leaves the state untouched.
    pub fn register_dial_outcome(&mut self, ip: &str, port: u16, outcome: DialOutcome<C>) -> (r:
        Result<String, NetError>)
        requires
            old(self).wf(),
        ensures
            r matches Ok(id) ==> (outcome matches DialOutcome::Connected(c) && id@
                == server_peer_id(ip@, port) && final(self).peers() == spec_insert(
                old(self).peers(),
                id@,
                c,
            )),
            outcome matches DialOutcome::Connected(c) ==> r is Ok,
            outcome is Refused ==> r == Result::<String, NetError>::Err(NetError::ConnectFailed)
                && *final(self) == *old(self),
            outcome is TimedOut ==> r == Result::<String, NetError>::Err(NetError::ConnectTimeout)
                && *final(self) == *old(self),
            final(self).spec_device_name() == old(self).spec_device_name(),
            final(self).spec_running() == old(self).spec_running(),
            final(self).wf(),
    {
        match outcome {
            DialOutcome::Connected(conn) => Ok(self.admit_dialed(ip, port, conn)),
            DialOutcome::Refused => Err(NetError::ConnectFailed),
            DialOutcome::TimedOut => Err(NetError::ConnectTimeout),
        }
    }

    /// Builds the text message that a broadcast of local clipboard text
    /// sends, under this device's name.
    pub fn make_text_message(&self, content: String) -> (m: ClipboardMessage)
        ensures
            m@.content == ContentView::Text(content@),
            m@.sender_id == "local_device"@,
            m@.sender_name == self.spec_device_name(),
    {
        ClipboardMessage::new_text(
            content,
            String::from_str("local_device"),
            self.device_name.clone(),
        )
    }

    /// Builds the image message that a broadcast of a local clipboard
    /// image sends, under this device's name.
    pub fn make_image_message(&self, width: u32, height: u32, data: Vec<u8>) -> (m:
        ClipboardMessage)
        ensures
            m@.content == (ContentView::Image { width, height, data: data@ }),
            m@.sender_id == "local_device"@,
            m@.sender_name == self.spec_device_name(),
    {
        ClipboardMessage::new_image(
            width,
            height,
            data,
            String::from_str("local_device"),
            self.device_name.clone(),
        )
    }
}

} // verus!
