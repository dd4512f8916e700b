use vstd::prelude::*;

verus! {

/// The protocol families of a socket address.
#[derive(Debug, Clone, Copy, PartialEq, Eq, Structural)]
pub enum PF {
    /// Unspecified.
    Unspec,
    /// Local to the host: pipes and sockets in the file system.
    LocalUnixFile,
    /// IP protocol family.
    Inet,
    /// Amateur Radio AX.25.
    Ax25,
    /// Novell Internet Protocol.
    Ipx,
    /// Appletalk DDP.
    Appletalk,
    /// Amateur radio NetROM.
    Netrom,
    /// Multiprotocol bridge.
    Bridge,
    /// ATM PVCs.
    Atmpvc,
    /// Reserved for X.25 project.
    X25,
    /// IP version 6.
    Inet6,
    /// Amateur Radio X.25 PLP.
    Rose,
    /// Reserved for DECnet project.
    Decnet,
    /// Reserved for 802.2LLC project.
    Netbeui,
    /// Security callback pseudo AF.
    Security,
    /// PF_KEY key management API.
    Key,
    /// Netlink, also used for routing sockets.
    NetlinkRoute,
    /// Packet family.
    Packet,
    /// Ash.
    Ash,
    /// Acorn Econet.
    Econet,
    /// ATM SVCs.
    Atmsvc,
    /// RDS sockets.
    Rds,
    /// Linux SNA Project.
    Sna,
    /// IRDA sockets.
    Irda,
    /// PPPoX sockets.
    Pppox,
    /// Wanpipe API sockets.
    Wanpipe,
    /// Linux LLC.
    Llc,
    /// Native InfiniBand address.
    Ib,
    /// MPLS.
    Mpls,
    /// Controller Area Network.
    Can,
    /// TIPC sockets.
    Tipc,
    /// Bluetooth sockets.
    Bluetooth,
    /// IUCV sockets.
    Iucv,
    /// RxRPC sockets.
    Rxrpc,
    /// mISDN sockets.
    Isdn,
    /// Phonet sockets.
    Phonet,
    /// IEEE 802.15.4 sockets.
    Ieee802154,
    /// CAIF sockets.
    Caif,
    /// Algorithm sockets.
    Alg,
    /// NFC sockets.
    Nfc,
    /// vSockets.
    Vsock,
    /// Kernel Connection Multiplexor.
    Kcm,
    /// Qualcomm IPC Router.
    Qipcrtr,
    /// SMC sockets.
    Smc,
    /// XDP sockets.
    Xdp,
    /// Management component transport protocol.
    Mctp,
    /// One more than the highest family.
    Max,
}

impl PF {
    /// The number of this family in a socket call.
    pub open spec fn value(self) -> int {
        match self {
            PF::Unspec => 0,
            PF::LocalUnixFile => 1,
            PF::Inet => 2,
            PF::Ax25 => 3,
            PF::Ipx => 4,
            PF::Appletalk => 5,
            PF::Netrom => 6,
            PF::Bridge => 7,
            PF::Atmpvc => 8,
            PF::X25 => 9,
            PF::Inet6 => 10,
            PF::Rose => 11,
            PF::Decnet => 12,
            PF::Netbeui => 13,
            PF::Security => 14,
            PF::Key => 15,
            PF::NetlinkRoute => 0x10,
            PF::Packet => 0x11,
            PF::Ash => 0x12,
            PF::Econet => 0x13,
            PF::Atmsvc => 0x14,
            PF::Rds => 0x15,
            PF::Sna => 0x16,
            PF::Irda => 0x17,
            PF::Pppox => 0x18,
            PF::Wanpipe => 0x19,
            PF::Llc => 0x1a,
            PF::Ib => 0x1b,
            PF::Mpls => 0x1c,
            PF::Can => 0x1d,
            PF::Tipc => 0x1e,
            PF::Bluetooth => 0x1f,
            PF::Iucv => 0x20,
            PF::Rxrpc => 0x21,
            PF::Isdn => 0x22,
            PF::Phonet => 0x23,
            PF::Ieee802154 => 0x24,
            PF::Caif => 0x25,
            PF::Alg => 0x26,
            PF::Nfc => 0x27,
            PF::Vsock => 0x28,
            PF::Kcm => 0x29,
            PF::Qipcrtr => 0x2a,
            PF::Smc => 0x2b,
            PF::Xdp => 0x2c,
            PF::Mctp => 0x2d,
            PF::Max => 0x2e,
        }
    }

    /// The family that `code` stands for, if it stands for one.
    pub open spec fn of_value(code: int) -> Option<PF> {
        if code == 0 {
            Some(PF::Unspec)
        } else if code == 1 {
            Some(PF::LocalUnixFile)
        } else if code == 2 {
            Some(PF::Inet)
        } else if code == 3 {
            Some(PF::Ax25)
        } else if code == 4 {
            Some(PF::Ipx)
        } else if code == 5 {
            Some(PF::Appletalk)
        } else if code == 6 {
            Some(PF::Netrom)
        } else if code == 7 {
            Some(PF::Bridge)
        } else if code == 8 {
            Some(PF::Atmpvc)
        } else if code == 9 {
            Some(PF::X25)
        } else if code == 10 {
            Some(PF::Inet6)
        } else if code == 11 {
            Some(PF::Rose)
        } else if code == 12 {
            Some(PF::Decnet)
        } else if code == 13 {
            Some(PF::Netbeui)
        } else if code == 14 {
            Some(PF::Security)
        } else if code == 15 {
            Some(PF::Key)
        } else if code == 0x10 {
            Some(PF::NetlinkRoute)
        } else if code == 0x11 {
            Some(PF::Packet)
        } else if code == 0x12 {
            Some(PF::Ash)
        } else if code == 0x13 {
            Some(PF::Econet)
        } else if code == 0x14 {
            Some(PF::Atmsvc)
        } else if code == 0x15 {
            Some(PF::Rds)
        } else if code == 0x16 {
            Some(PF::Sna)
        } else if code == 0x17 {
            Some(PF::Irda)
        } else if code == 0x18 {
            Some(PF::Pppox)
        } else if code == 0x19 {
            Some(PF::Wanpipe)
        } else if code == 0x1a {
            Some(PF::Llc)
        } else if code == 0x1b {
            Some(PF::Ib)
        } else if code == 0x1c {
            Some(PF::Mpls)
        } else if code == 0x1d {
            Some(PF::Can)
        } else if code == 0x1e {
            Some(PF::Tipc)
        } else if code == 0x1f {
            Some(PF::Bluetooth)
        } else if code == 0x20 {
            Some(PF::Iucv)
        } else if code == 0x21 {
            Some(PF::Rxrpc)
        } else if code == 0x22 {
            Some(PF::Isdn)
        } else if code == 0x23 {
            Some(PF::Phonet)
        } else if code == 0x24 {
            Some(PF::Ieee802154)
        } else if code == 0x25 {
            Some(PF::Caif)
        } else if code == 0x26 {
            Some(PF::Alg)
        } else if code == 0x27 {
            Some(PF::Nfc)
        } else if code == 0x28 {
            Some(PF::Vsock)
        } else if code == 0x29 {
            Some(PF::Kcm)
        } else if code == 0x2a {
            Some(PF::Qipcrtr)
        } else if code == 0x2b {
            Some(PF::Smc)
        } else if code == 0x2c {
            Some(PF::Xdp)
        } else if code == 0x2d {
            Some(PF::Mctp)
        } else if code == 0x2e {
            Some(PF::Max)
        } else {
            None
        }
    }

    /// The number of this family as a machine integer.
    pub fn code(&self) -> (res: i32)
        ensures
            res == self.value(),
    {
        match self {
            PF::Unspec => 0,
            PF::LocalUnixFile => 1,
            PF::Inet => 2,
            PF::Ax25 => 3,
            PF::Ipx => 4,
            PF::Appletalk => 5,
            PF::Netrom => 6,
            PF::Bridge => 7,
            PF::Atmpvc => 8,
            PF::X25 => 9,
            PF::Inet6 => 10,
            PF::Rose => 11,
            PF::Decnet => 12,
            PF::Netbeui => 13,
            PF::Security => 14,
            PF::Key => 15,
            PF::NetlinkRoute => 0x10,
            PF::Packet => 0x11,
            PF::Ash => 0x12,
            PF::Econet => 0x13,
            PF::Atmsvc => 0x14,
            PF::Rds => 0x15,
            PF::Sna => 0x16,
            PF::Irda => 0x17,
            PF::Pppox => 0x18,
            PF::Wanpipe => 0x19,
            PF::Llc => 0x1a,
            PF::Ib => 0x1b,
            PF::Mpls => 0x1c,
            PF::Can => 0x1d,
            PF::Tipc => 0x1e,
            PF::Bluetooth => 0x1f,
            PF::Iucv => 0x20,
            PF::Rxrpc => 0x21,
            PF::Isdn => 0x22,
            PF::Phonet => 0x23,
            PF::Ieee802154 => 0x24,
            PF::Caif => 0x25,
            PF::Alg => 0x26,
            PF::Nfc => 0x27,
            PF::Vsock => 0x28,
            PF::Kcm => 0x29,
            PF::Qipcrtr => 0x2a,
            PF::Smc => 0x2b,
            PF::Xdp => 0x2c,
            PF::Mctp => 0x2d,
            PF::Max => 0x2e,
        }
    }

    /// Reads a number back into the family it stands for; `None` for a number
    /// that stands for none.
    pub fn from_code(code: i32) -> (res: Option<PF>)
        ensures
            res == Self::of_value(code as int),
    {
        if code == 0 {
            Some(PF::Unspec)
        } else if code == 1 {
            Some(PF::LocalUnixFile)
        } else if code == 2 {
            Some(PF::Inet)
        } else if code == 3 {
            Some(PF::Ax25)
        } else if code == 4 {
            Some(PF::Ipx)
        } else if code == 5 {
            Some(PF::Appletalk)
        } else if code == 6 {
            Some(PF::Netrom)
        } else if code == 7 {
            Some(PF::Bridge)
        } else if code == 8 {
            Some(PF::Atmpvc)
        } else if code == 9 {
            Some(PF::X25)
        } else if code == 10 {
            Some(PF::Inet6)
        } else if code == 11 {
            Some(PF::Rose)
        } else if code == 12 {
            Some(PF::Decnet)
        } else if code == 13 {
            Some(PF::Netbeui)
        } else if code == 14 {
            Some(PF::Security)
        } else if code == 15 {
            Some(PF::Key)
        } else if code == 0x10 {
            Some(PF::NetlinkRoute)
        } else if code == 0x11 {
            Some(PF::Packet)
        } else if code == 0x12 {
            Some(PF::Ash)
        } else if code == 0x13 {
            Some(PF::Econet)
        } else if code == 0x14 {
            Some(PF::Atmsvc)
        } else if code == 0x15 {
            Some(PF::Rds)
        } else if code == 0x16 {
            Some(PF::Sna)
        } else if code == 0x17 {
            Some(PF::Irda)
        } else if code == 0x18 {
            Some(PF::Pppox)
        } else if code == 0x19 {
            Some(PF::Wanpipe)
        } else if code == 0x1a {
            Some(PF::Llc)
        } else if code == 0x1b {
            Some(PF::Ib)
        } else if code == 0x1c {
            Some(PF::Mpls)
        } else if code == 0x1d {
            Some(PF::Can)
        } else if code == 0x1e {
            Some(PF::Tipc)
        } else if code == 0x1f {
            Some(PF::Bluetooth)
        } else if code == 0x20 {
            Some(PF::Iucv)
        } else if code == 0x21 {
            Some(PF::Rxrpc)
        } else if code == 0x22 {
            Some(PF::Isdn)
        } else if code == 0x23 {
            Some(PF::Phonet)
        } else if code == 0x24 {
            Some(PF::Ieee802154)
        } else if code == 0x25 {
            Some(PF::Caif)
        } else if code == 0x26 {
            Some(PF::Alg)
        } else if code == 0x27 {
            Some(PF::Nfc)
        } else if code == 0x28 {
            Some(PF::Vsock)
        } else if code == 0x29 {
            Some(PF::Kcm)
        } else if code == 0x2a {
            Some(PF::Qipcrtr)
        } else if code == 0x2b {
            Some(PF::Smc)
        } else if code == 0x2c {
            Some(PF::Xdp)
        } else if code == 0x2d {
            Some(PF::Mctp)
        } else if code == 0x2e {
            Some(PF::Max)
        } else {
            None
        }
    }

    /// Reading back the number of a family gives that family.
    pub proof fn lemma_value_round_trip(self)
        ensures
            Self::of_value(self.value()) == Some(self),
    {
    }

    /// A number is read back only into the family that carries it, so no two
    /// of them share a number.
    pub proof fn lemma_of_value_exact(code: int)
        ensures
            Self::of_value(code) matches Some(v) ==> v.value() == code,
            Self::of_value(code) is None ==> forall|v: PF| v.value() != code,
    {
    }
}

} // verus!
