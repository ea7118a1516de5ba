//! Finished sessions and the append-only session archive.
use vstd::prelude::*;
use crate::parsed_packet::{log_record, PacketView, ParsedPacket};

verus! {

/// The archive after a finished run: a run with packets is appended, an
/// empty one is dropped.
pub open spec fn archived(archive: Seq<Seq<PacketView>>, run: Seq<PacketView>) -> Seq<Seq<PacketView>> {
    if run.len() == 0 {
        archive
    } else {
        archive.push(run)
    }
}

pub open spec fn packet_views(packets: Seq<ParsedPacket>) -> Seq<PacketView> {
    packets.map_values(|p: ParsedPacket| p@)
}

/// The packets of one finished capture run, in capture order.
pub struct Session {
    packets: Vec<ParsedPacket>,
}

impl View for Session {
    type V = Seq<PacketView>;

    closed spec fn view(&self) -> Seq<PacketView> {
        packet_views(self.packets@)
    }
}

impl Session {
    pub fn new(packets: Vec<ParsedPacket>) -> (r: Self)
        ensures
            r@ == packet_views(packets@),
    {
        Session { packets }
    }

    pub fn len(&self) -> (r: usize)
        ensures
            r == self@.len(),
    {
        self.packets.len()
    }

    /// The packet at `index`, in capture order.
    pub fn get(&self, index: usize) -> (r: &ParsedPacket)
        requires
            index < self@.len(),
        ensures
            r@ == self@[index as int],
    {
        &self.packets[index]
    }
}

/// The index of a session and how many packets it holds.
#[derive(PartialEq, Eq, Structural, Clone, Copy, Debug)]
pub struct SessionSummary {
    pub index: usize,
    pub packet_count: usize,
}

/// The session index asked for is not in the archive.
#[derive(PartialEq, Eq, Structural, Clone, Copy, Debug)]
pub struct SelectionError {
    pub index: usize,
    pub available: usize,
}

/// The finished sessions, in the order they were captured. Sessions are only
/// ever appended, and none is empty.
pub struct SessionArchive {
    sessions: Vec<Session>,
}

impl View for SessionArchive {
    type V = Seq<Seq<PacketView>>;

    closed spec fn view(&self) -> Seq<Seq<PacketView>> {
        self.sessions@.map_values(|s: Session| s@)
    }
}

impl SessionArchive {
    /// No session is empty.
    pub open spec fn wf(&self) -> bool {
        forall|i: int| 0 <= i < self@.len() ==> #[trigger] self@[i].len() > 0
    }

    pub fn new() -> (r: Self)
        ensures
            r@ == Seq::<Seq<PacketView>>::empty(),
            r.wf(),
    {
        let r = SessionArchive { sessions: Vec::new() };
        assert(r@ =~= Seq::<Seq<PacketView>>::empty());
        r
    }

    pub fn len(&self) -> (r: usize)
        ensures
            r == self@.len(),
    {
        self.sessions.len()
    }

    /// The session at `index`.
    pub fn get(&self, index: usize) -> (r: &Session)
        requires
            index < self@.len(),
        ensures
            r@ == self@[index as int],
    {
        &self.sessions[index]
    }

    /// Appends a session at the end; an empty session is not kept.
    pub fn append(&mut self, session: Session)
        requires
            old(self).wf(),
        ensures
            final(self)@ == archived(old(self)@, session@),
            final(self).wf(),
    {
        if session.len() > 0 {
            let ghost s = session@;
            self.sessions.push(session);
            assert(self@ =~= old(self)@.push(s));
        }
    }

    /// For each session in order, its index and packet count; `None` when the
    /// archive holds no session.
    pub fn list(&self) -> (r: Option<Vec<SessionSummary>>)
        ensures
            r is None <==> self@.len() == 0,
            r matches Some(v) ==> {
                &&& v@.len() == self@.len()
                &&& forall|i: int|
                    0 <= i < v@.len() ==> #[trigger] v@[i] == (SessionSummary {
                        index: i as usize,
                        packet_count: self@[i].len() as usize,
                    })
            },
    {
        if self.sessions.len() == 0 {
            return None;
        }
        let mut v: Vec<SessionSummary> = Vec::new();
        let mut i: usize = 0;
        while i < self.sessions.len()
            invariant
                i <= self@.len(),
                self@.len() == self.sessions@.len(),
                v@.len() == i,
                forall|k: int|
                    0 <= k < i ==> #[trigger] v@[k] == (SessionSummary {
                        index: k as usize,
                        packet_count: self@[k].len() as usize,
                    }),
            decreases self@.len() - i,
        {
            let n = self.sessions[i].len();
            v.push(SessionSummary { index: i, packet_count: n });
            i = i + 1;
        }
        Some(v)
    }

    /// The log records of the session at `index`, one per packet in capture
    /// order; a `SelectionError` when there is no such session.
    pub fn export(&self, index: usize) -> (r: Result<Vec<String>, SelectionError>)
        ensures
            r is Err <==> index >= self@.len(),
            r matches Err(e) ==> e == (SelectionError { index, available: self@.len() as usize }),
            r matches Ok(v) ==> {
                &&& v@.len() == self@[index as int].len()
                &&& forall|i: int| 0 <= i < v@.len() ==> #[trigger] v@[i]@ == log_record(self@[index as int][i])
            },
    {
        if index >= self.sessions.len() {
            return Err(SelectionError { index, available: self.sessions.len() });
        }
        let session = &self.sessions[index];
        let mut v: Vec<String> = Vec::new();
        let mut i: usize = 0;
        while i < session.len()
            invariant
                index < self@.len(),
                session@ == self@[index as int],
                i <= session@.len(),
                v@.len() == i,
                forall|k: int| 0 <= k < i ==> #[trigger] v@[k]@ == log_record(session@[k]),
            decreases session@.len() - i,
        {
            let record = session.get(i).log_record();
            v.push(record);
            i = i + 1;
        }
        Ok(v)
    }
}

} // verus!
