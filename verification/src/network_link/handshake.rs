//! The BGB handshake: VERSION both ways, then STATUS both ways.
//!
//! The program asks for the next action, performs it and reports what came of
//! it, until the handshake is done or has failed.

use crate::network_link::packet::{
    BgbPacket, CMD_STATUS, CMD_VERSION, STATUS_PAUSED, STATUS_SUPPORT_RECONNECT,
};
use vstd::prelude::*;

verus! {

/// Which side of the connection we are.
#[derive(Clone, Copy, Debug, PartialEq, Eq, Structural)]
pub enum Role {
    /// We connected to the peer.
    Client,
    /// The peer connected to us.
    Server,
}

/// What is next in a handshake.
#[derive(Clone, Copy, Debug, PartialEq, Eq, Structural)]
pub enum HandshakeStage {
    SendVersion,
    ReceiveVersion,
    SendPausedStatus,
    SendRunningStatus,
    ReceiveStatus,
    Done,
    Failed,
}

/// What the program is to do for a handshake.
#[derive(Clone, Copy, Debug, PartialEq, Eq, Structural)]
pub enum HandshakeAction {
    /// Send this packet, and report whether it went out.
    Send(BgbPacket),
    /// Read a packet, and report it.
    Receive,
    /// The handshake is done, and the peer has said this of itself.
    Done { remote_paused: bool, remote_support_reconnect: bool },
    /// The handshake failed; the connection is of no use.
    Failed,
}

/// A handshake in progress.
#[derive(Clone, Copy, Debug, PartialEq, Eq, Structural)]
pub struct Handshake {
    pub role: Role,
    pub stage: HandshakeStage,
    pub remote_paused: bool,
    pub remote_support_reconnect: bool,
}

/// The stage that follows when all went well. The client speaks first and
/// answers last. The server, as BGB does, says first that it is paused, then
/// that it runs.
pub open spec fn following(role: Role, stage: HandshakeStage) -> HandshakeStage {
    match (role, stage) {
        (Role::Client, HandshakeStage::SendVersion) => HandshakeStage::ReceiveVersion,
        (Role::Client, HandshakeStage::ReceiveVersion) => HandshakeStage::ReceiveStatus,
        (Role::Client, HandshakeStage::ReceiveStatus) => HandshakeStage::SendRunningStatus,
        (Role::Client, HandshakeStage::SendRunningStatus) => HandshakeStage::Done,
        (Role::Server, HandshakeStage::ReceiveVersion) => HandshakeStage::SendVersion,
        (Role::Server, HandshakeStage::SendVersion) => HandshakeStage::SendPausedStatus,
        (Role::Server, HandshakeStage::SendPausedStatus) => HandshakeStage::SendRunningStatus,
        (Role::Server, HandshakeStage::SendRunningStatus) => HandshakeStage::ReceiveStatus,
        (Role::Server, HandshakeStage::ReceiveStatus) => HandshakeStage::Done,
        (_, stage) => stage,
    }
}

impl Handshake {
    /// The handshake at its beginning.
    pub open spec fn begun(role: Role) -> Self {
        Handshake {
            role,
            stage: match role {
                Role::Client => HandshakeStage::SendVersion,
                Role::Server => HandshakeStage::ReceiveVersion,
            },
            remote_paused: false,
            remote_support_reconnect: false,
        }
    }

    /// The handshake is at a stage at which a packet is to be sent.
    pub open spec fn sending(self) -> bool {
        self.stage is SendVersion || self.stage is SendPausedStatus
            || self.stage is SendRunningStatus
    }

    /// The handshake is at a stage at which a packet is to be read.
    pub open spec fn receiving(self) -> bool {
        self.stage is ReceiveVersion || self.stage is ReceiveStatus
    }

    /// The action of the stage.
    pub open spec fn action_spec(self) -> HandshakeAction {
        match self.stage {
            HandshakeStage::SendVersion => HandshakeAction::Send(
                BgbPacket { b1: CMD_VERSION, b2: 1, b3: 4, b4: 0, i1: 0 },
            ),
            HandshakeStage::SendPausedStatus => HandshakeAction::Send(
                BgbPacket { b1: CMD_STATUS, b2: 7, b3: 0, b4: 0, i1: 0 },
            ),
            HandshakeStage::SendRunningStatus => HandshakeAction::Send(
                BgbPacket { b1: CMD_STATUS, b2: 5, b3: 0, b4: 0, i1: 0 },
            ),
            HandshakeStage::ReceiveVersion | HandshakeStage::ReceiveStatus =>
                HandshakeAction::Receive,
            HandshakeStage::Done => HandshakeAction::Done {
                remote_paused: self.remote_paused,
                remote_support_reconnect: self.remote_support_reconnect,
            },
            HandshakeStage::Failed => HandshakeAction::Failed,
        }
    }

    /// The handshake after a packet was sent, or was not.
    pub open spec fn after_sending(self, ok: bool) -> Self {
        if !self.sending() {
            self
        } else if ok {
            Handshake { stage: following(self.role, self.stage), ..self }
        } else {
            Handshake { stage: HandshakeStage::Failed, ..self }
        }
    }

    /// The handshake after a packet was read, or could not be.
    pub open spec fn after_reading(self, packet: Option<BgbPacket>) -> Self {
        if !self.receiving() {
            self
        } else {
            match packet {
                None => Handshake { stage: HandshakeStage::Failed, ..self },
                Some(p) => if self.stage is ReceiveVersion {
                    Handshake {
                        stage: if p.is_version() {
                            following(self.role, self.stage)
                        } else {
                            HandshakeStage::Failed
                        },
                        ..self
                    }
                } else if p.b1 == CMD_STATUS {
                    Handshake {
                        stage: following(self.role, self.stage),
                        remote_paused: p.says_paused(),
                        remote_support_reconnect: p.says_support_reconnect(),
                        ..self
                    }
                } else {
                    Handshake { stage: HandshakeStage::Failed, ..self }
                },
            }
        }
    }

    pub fn new(role: Role) -> (handshake: Self)
        ensures
            handshake == Self::begun(role),
    {
        Self {
            role,
            stage: match role {
                Role::Client => HandshakeStage::SendVersion,
                Role::Server => HandshakeStage::ReceiveVersion,
            },
            remote_paused: false,
            remote_support_reconnect: false,
        }
    }

    pub fn action(&self) -> (action: HandshakeAction)
        ensures
            action == self.action_spec(),
    {
        match self.stage {
            HandshakeStage::SendVersion => HandshakeAction::Send(BgbPacket::version()),
            HandshakeStage::SendPausedStatus => HandshakeAction::Send(
                BgbPacket::status(true, true, true),
            ),
            HandshakeStage::SendRunningStatus => HandshakeAction::Send(
                BgbPacket::status(true, false, true),
            ),
            HandshakeStage::ReceiveVersion | HandshakeStage::ReceiveStatus =>
                HandshakeAction::Receive,
            HandshakeStage::Done => HandshakeAction::Done {
                remote_paused: self.remote_paused,
                remote_support_reconnect: self.remote_support_reconnect,
            },
            HandshakeStage::Failed => HandshakeAction::Failed,
        }
    }

    fn advance(&mut self)
        ensures
            *final(self) == (Handshake {
                stage: following(old(self).role, old(self).stage),
                ..*old(self)
            }),
    {
        self.stage =
        match (self.role, self.stage) {
            (Role::Client, HandshakeStage::SendVersion) => HandshakeStage::ReceiveVersion,
            (Role::Client, HandshakeStage::ReceiveVersion) => HandshakeStage::ReceiveStatus,
            (Role::Client, HandshakeStage::ReceiveStatus) => HandshakeStage::SendRunningStatus,
            (Role::Client, HandshakeStage::SendRunningStatus) => HandshakeStage::Done,
            (Role::Server, HandshakeStage::ReceiveVersion) => HandshakeStage::SendVersion,
            (Role::Server, HandshakeStage::SendVersion) => HandshakeStage::SendPausedStatus,
            (Role::Server, HandshakeStage::SendPausedStatus) => HandshakeStage::SendRunningStatus,
            (Role::Server, HandshakeStage::SendRunningStatus) => HandshakeStage::ReceiveStatus,
            (Role::Server, HandshakeStage::ReceiveStatus) => HandshakeStage::Done,
            (_, stage) => stage,
        };
    }

    /// Report whether the packet of a [`HandshakeAction::Send`] went out.
    pub fn sent(&mut self, ok: bool)
        ensures
            *final(self) == old(self).after_sending(ok),
    {
        match self.stage {
            HandshakeStage::SendVersion
            | HandshakeStage::SendPausedStatus
            | HandshakeStage::SendRunningStatus => {
                if ok {
                    self.advance();
                } else {
                    self.stage = HandshakeStage::Failed;
                }
            },
            _ => {},
        }
    }

    /// Report the packet that was read for a [`HandshakeAction::Receive`], or
    /// that none could be read.
    pub fn received(&mut self, packet: Option<BgbPacket>)
        ensures
            *final(self) == old(self).after_reading(packet),
    {
        match self.stage {
            HandshakeStage::ReceiveVersion => {
                match packet {
                    Some(version) => {
                        if version.b1 != CMD_VERSION || version.b2 != 1 || version.b3 != 4
                            || version.b4 != 0 {
                            self.stage = HandshakeStage::Failed;
                        } else {
                            self.advance();
                        }
                    },
                    None => {
                        self.stage = HandshakeStage::Failed;
                    },
                }
            },
            HandshakeStage::ReceiveStatus => {
                match packet {
                    Some(status) => {
                        if status.b1 != CMD_STATUS {
                            self.stage = HandshakeStage::Failed;
                        } else {
                            self.remote_paused = (status.b2 & STATUS_PAUSED) != 0;
                            self.remote_support_reconnect = (status.b2 & STATUS_SUPPORT_RECONNECT)
                                != 0;
                            self.advance();
                        }
                    },
                    None => {
                        self.stage = HandshakeStage::Failed;
                    },
                }
            },
            _ => {},
        }
    }
}

/// The client's handshake with a peer that answers with `version` and `status`,
/// with every send going out.
pub open spec fn client_outcome(version: BgbPacket, status: BgbPacket) -> Handshake {
    Handshake::begun(Role::Client).after_sending(true).after_reading(Some(version)).after_reading(
        Some(status),
    ).after_sending(true)
}

/// The server's handshake with a peer that sends `version` and then `status`,
/// with every send going out.
pub open spec fn server_outcome(version: BgbPacket, status: BgbPacket) -> Handshake {
    Handshake::begun(Role::Server).after_reading(Some(version)).after_sending(true).after_sending(
        true,
    ).after_sending(true).after_reading(Some(status))
}

/// A handshake succeeds exactly with a peer that speaks this version and then
/// sends a STATUS, and it keeps what the STATUS says.
pub proof fn law_handshake_succeeds_iff_peer_conforms(version: BgbPacket, status: BgbPacket)
    ensures
        client_outcome(version, status).action_spec() == if version.is_version() && status.b1
            == CMD_STATUS {
            HandshakeAction::Done {
                remote_paused: status.says_paused(),
                remote_support_reconnect: status.says_support_reconnect(),
            }
        } else {
            HandshakeAction::Failed
        },
        server_outcome(version, status).action_spec() == client_outcome(
            version,
            status,
        ).action_spec(),
{
}

/// Client and server succeed with each other: what each sends is what the other
/// waits for.
pub proof fn law_client_and_server_agree()
    ensures
        ({
            let client = Handshake::begun(Role::Client);
            let server = Handshake::begun(Role::Server);
            let hello = client.action_spec()->Send_0;
            let server_read = server.after_reading(Some(hello));
            let hello_back = server_read.action_spec()->Send_0;
            let server_told = server_read.after_sending(true);
            let paused = server_told.action_spec()->Send_0;
            let client_read = client.after_sending(true).after_reading(
                Some(hello_back),
            ).after_reading(Some(paused));
            let running = client_read.action_spec()->Send_0;
            let client_done = client_read.after_sending(true);
            let server_done = server_told.after_sending(true).after_sending(true).after_reading(
                Some(running),
            );
            &&& client_done.stage is Done
            &&& client_done.remote_paused
            &&& client_done.remote_support_reconnect
            &&& server_done.stage is Done
            &&& !server_done.remote_paused
            &&& server_done.remote_support_reconnect
        }),
{
    assert(7u8 & 2 != 0 && 7u8 & 4 != 0 && 5u8 & 2 == 0 && 5u8 & 4 != 0) by (bit_vector);
}

/// A failed handshake stays failed, and one that is done stays done.
pub proof fn law_handshake_end_is_final(h: Handshake, ok: bool, packet: Option<BgbPacket>)
    requires
        h.stage is Done || h.stage is Failed,
    ensures
        h.after_sending(ok) == h,
        h.after_reading(packet) == h,
{
}

} // verus!
