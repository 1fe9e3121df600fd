//! Finding the meter among the serial ports: each port that answers the
//! identification request is recorded with the two bytes of its answer, and
//! the first one found is the one used.
use vstd::prelude::*;
use crate::protocol::decode_detect;

verus! {

/// The serial ports on which a meter answered.
pub struct Detect {
    i_ports: Vec<(String, u8, u8)>,
    i_active_port_index: u8,
}

/// A found port as plain values: its name and the two answer bytes.
pub open spec fn port_view(p: (String, u8, u8)) -> (Seq<char>, u8, u8) {
    (p.0@, p.1, p.2)
}

impl Detect {
    /// The port in use is the first one found.
    pub closed spec fn wf(&self) -> bool {
        self.i_active_port_index == 0
    }

    /// The ports found so far, in the order they were found.
    pub closed spec fn ports(&self) -> Seq<(Seq<char>, u8, u8)> {
        self.i_ports@.map_values(|p: (String, u8, u8)| port_view(p))
    }

    /// No port found yet.
    pub fn new() -> (d: Self)
        ensures
            d.wf(),
            d.ports() == Seq::<(Seq<char>, u8, u8)>::empty(),
    {
        let d = Detect { i_ports: Vec::new(), i_active_port_index: 0 };
        assert(d.ports() =~= Seq::<(Seq<char>, u8, u8)>::empty());
        d
    }

    /// Records the answer `received` from serial port `port`: a well-formed
    /// identification reply adds the port with the two answer bytes and
    /// returns `true`; anything else leaves the list as it is.
    pub fn found(&mut self, port: String, received: &[u8]) -> (added: bool)
        requires
            old(self).wf(),
        ensures
            final(self).wf(),
            added <==> (received@.len() == crate::protocol::DETECT_REPLY_LEN && received@[0]
                == crate::protocol::REPLY_DETECT),
            added ==> final(self).ports() == old(self).ports().push(
                (port@, received@[1], received@[2]),
            ),
            !added ==> final(self).ports() == old(self).ports(),
    {
        match decode_detect(received) {
            Some((first, second)) => {
                let ghost before = self.i_ports@;
                self.i_ports.push((port, first, second));
                assert(self.i_ports@.map_values(|p: (String, u8, u8)| port_view(p))
                    =~= before.map_values(|p: (String, u8, u8)| port_view(p)).push(
                    (port@, first, second),
                ));
                true
            },
            None => false,
        }
    }

    /// The port to use, with its two answer bytes: the first port found, or
    /// `None` when no meter answered.
    pub fn get_port(&self) -> (p: Option<(String, u8, u8)>)
        requires
            self.wf(),
        ensures
            self.ports().len() == 0 ==> p is None,
            self.ports().len() > 0 ==> (p matches Some(q) && port_view(q) == self.ports()[0]),
    {
        if 0 < self.i_ports.len() {
            let idx = self.i_active_port_index as usize;
            let (port, first, second) = &self.i_ports[idx];
            Some((port.clone(), *first, *second))
        } else {
            None
        }
    }
}

impl Default for Detect {
    /// No port found yet.
    fn default() -> (d: Self)
        ensures
            d.wf(),
            d.ports() == Seq::<(Seq<char>, u8, u8)>::empty(),
    {
        Detect::new()
    }
}

} // verus!
